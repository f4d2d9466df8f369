use hf2::command::Error;
use hf2::commands::{Info, InfoResponse};

#[test]
fn parse_response() {
    let data: Vec<u8> = vec![
        0x55, 0x46, 0x32, 0x20, 0x42, 0x6F, 0x6F, 0x74, 0x6C, 0x6F, 0x61, 0x64, 0x65, 0x72,
        0x20, 0x76, 0x33, 0x2E, 0x36, 0x2E, 0x30, 0x20, 0x53, 0x46, 0x48, 0x57, 0x52, 0x4F,
        0x0D, 0x0A, 0x4D, 0x6F, 0x64, 0x65, 0x6C, 0x3A, 0x20, 0x50, 0x79, 0x47, 0x61, 0x6D,
        0x65, 0x72, 0x0D, 0x0A, 0x42, 0x6F, 0x61, 0x72, 0x64, 0x2D, 0x49, 0x44, 0x3A, 0x20,
        0x53, 0x41, 0x4D, 0x44, 0x35, 0x31, 0x4A, 0x31, 0x39, 0x41, 0x2D, 0x50, 0x79, 0x47,
        0x61, 0x6D, 0x65, 0x72, 0x2D, 0x4D, 0x34, 0x0D, 0x0A,
    ];

    let info_result = InfoResponse {
        info: "UF2 Bootloader v3.6.0 SFHWRO\r\nModel: PyGamer\r\nBoard-ID: SAMD51J19A-PyGamer-M4\r\n"
            .to_string(),
    };

    let res: InfoResponse = InfoResponse::decode(data.as_slice()).unwrap();

    assert_eq!(res, info_result);
}

#[test]
fn info_rejects_invalid_utf8() {
    assert_eq!(InfoResponse::decode(&[0x41, 0xff, 0x42]), Err(Error::Parse));
}

#[test]
fn info_text_round_trip() {
    let x = InfoResponse { info: "Board-ID: é".to_string() };
    let bytes = x.encode();
    assert_eq!(InfoResponse::decode(bytes.as_slice()).unwrap(), x);
}

#[test]
fn info_reply_through_frame() {
    let mut p = vec![7, 0, 0, 0, 0, 0, 0, 0];
    p.extend_from_slice(b"UF2");
    assert_eq!(Info::parse_reply(&p).unwrap().info, "UF2");
    assert_eq!(Info {}.request().id, 2);
}
