use hf2::command::{
    decode_response, encode_command, encode_response, Command, CommandResponseStatus, Error, Response,
};
use hf2::commands::{
    BinInfo, BinInfoMode, BinInfoResponse, ChksumPages, ChksumPagesResponse, Dmesg, ReadWords,
    ReadWordsResponse, ResetIntoApp, ResetIntoBootloader, StartFlash, WriteFlashPage,
};

#[test]
fn command_packet_is_id_then_payload() {
    let c = Command::new(0x0007, 0, vec![1, 2, 3]);
    assert_eq!(encode_command(&c), vec![7, 0, 0, 0, 1, 2, 3]);
}

#[test]
fn response_frame_round_trip() {
    let r = Response { tag: 0x01020304, status: CommandResponseStatus::ExecutionError, data: vec![9, 8] };
    let p = encode_response(&r);
    assert_eq!(p, vec![4, 3, 2, 1, 2, 0, 0, 0, 9, 8]);
    assert_eq!(decode_response(&p).unwrap(), r);
}

#[test]
fn short_response_is_parse_error() {
    assert_eq!(decode_response(&[0, 0, 0, 0, 0, 0, 0]), Err(Error::Parse));
    assert_eq!(BinInfo::parse_reply(&[0, 0, 0]), Err(Error::Parse));
}

#[test]
fn unknown_status_word_is_kept() {
    let rsp = decode_response(&[0, 0, 0, 0, 9, 0, 0, 0]).unwrap();
    assert_eq!(rsp.status, CommandResponseStatus::Other(9));
}

#[test]
fn failed_status_is_rejected() {
    let p = [0, 0, 0, 0, 1, 0, 0, 0, 1, 0];
    assert_eq!(ChksumPages::parse_reply(&p), Err(Error::CommandNotRecognized));
    assert_eq!(WriteFlashPage::parse_reply(&p), Err(Error::CommandNotRecognized));
    assert_eq!(ReadWords::parse_reply(&p), Err(Error::CommandNotRecognized));
}

#[test]
fn command_ids() {
    assert_eq!(BinInfo {}.request().id, 1);
    assert_eq!(ResetIntoApp {}.request().id, 3);
    assert_eq!(ResetIntoBootloader {}.request().id, 4);
    assert_eq!(StartFlash {}.request().id, 5);
    assert_eq!(Dmesg {}.request().id, 0x10);
    assert_eq!(StartFlash {}.request().data, Vec::<u8>::new());
}

#[test]
fn bininfo_round_trip() {
    let x = BinInfoResponse {
        mode: BinInfoMode::Bootloader,
        flash_page_size: 1024,
        flash_num_pages: 512,
        max_message_size: 64,
    };
    let e = x.encode();
    assert_eq!(e, vec![1, 0, 0, 0, 0, 4, 0, 0, 0, 2, 0, 0, 64, 0, 0, 0]);
    assert_eq!(BinInfoResponse::decode(&e), Ok(x));
}

#[test]
fn bininfo_unknown_mode_is_parse_error() {
    let e = vec![3, 0, 0, 0, 0, 4, 0, 0, 0, 2, 0, 0, 64, 0, 0, 0];
    assert_eq!(BinInfoResponse::decode(&e), Err(Error::Parse));
    assert_eq!(BinInfoResponse::decode(&e[..15]), Err(Error::Parse));
}

#[test]
fn bininfo_reply_through_frame() {
    let mut p = vec![0, 0, 0, 0, 0, 0, 0, 0];
    p.extend_from_slice(&[2, 0, 0, 0, 0, 1, 0, 0, 8, 0, 0, 0, 0, 1, 0, 0]);
    let b = BinInfo::parse_reply(&p).unwrap();
    assert_eq!(b.mode, BinInfoMode::UserSpace);
    assert_eq!(b.flash_page_size, 256);
    assert_eq!(b.flash_num_pages, 8);
    assert_eq!(b.max_message_size, 256);
}

#[test]
fn chksum_pages_request_round_trip() {
    let q = ChksumPages { target_address: 0x4000, num_pages: 30 };
    let c = q.request();
    assert_eq!(c.id, 7);
    assert_eq!(c.data, vec![0, 0x40, 0, 0, 30, 0, 0, 0]);
    assert_eq!(ChksumPages::decode(&c.data), Some(q));
    assert_eq!(ChksumPages::decode(&c.data[..7]), None);
}

#[test]
fn chksum_pages_response_round_trip() {
    let r = ChksumPagesResponse { chksums: vec![0x906e, 0x0912, 1] };
    let e = r.encode();
    assert_eq!(e, vec![0x6e, 0x90, 0x12, 0x09, 1, 0]);
    assert_eq!(ChksumPagesResponse::decode(&e).unwrap(), r);
}

#[test]
fn chksum_pages_response_too_short() {
    assert_eq!(ChksumPagesResponse::decode(&[1]), Err(Error::Parse));
    let p = [0, 0, 0, 0, 0, 0, 0, 0, 5];
    assert_eq!(ChksumPages::parse_reply(&p), Err(Error::Parse));
}

#[test]
fn read_words_round_trip() {
    let q = ReadWords { target_address: 0x2000_0000, num_words: 4 };
    let c = q.request();
    assert_eq!(c.id, 8);
    assert_eq!(c.data, vec![0, 0, 0, 0x20, 4, 0, 0, 0]);
    assert_eq!(ReadWords::decode(&c.data), Some(q));
}

#[test]
fn read_words_response() {
    assert_eq!(ReadWordsResponse::decode(&[1, 2, 3]), Err(Error::Parse));
    assert_eq!(ReadWordsResponse::decode(&[1, 2, 3, 4]).unwrap().words, vec![1, 2, 3, 4]);
}

#[test]
fn write_flash_page_round_trip() {
    let w = WriteFlashPage { target_address: 0x400, data: vec![0xaa, 0xbb] };
    let c = w.request();
    assert_eq!(c.id, 6);
    assert_eq!(c.data, vec![0, 4, 0, 0, 0xaa, 0xbb]);
    assert_eq!(WriteFlashPage::decode(&c.data), Some(w));
    assert_eq!(WriteFlashPage::parse_reply(&[0, 0, 0, 0, 0, 0, 0, 0]), Ok(()));
}
