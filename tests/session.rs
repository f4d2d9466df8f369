use hf2::checksum::page_checksum;
use hf2::command::{encode_response, Command, CommandResponseStatus, Error, Response};
use hf2::commands::{BinInfoMode, BinInfoResponse, ChksumPages, ChksumPagesResponse, WriteFlashPage};
use hf2::session::{Action, Session};

struct FakeDevice {
    info: BinInfoResponse,
    flash: Vec<u8>,
    base: u32,
    log: Vec<u32>,
    queries: Vec<ChksumPages>,
}

impl FakeDevice {
    fn reply(&mut self, c: &Command) -> Vec<u8> {
        self.log.push(c.id);
        let ok = |data: Vec<u8>| encode_response(&Response { tag: c.tag, status: CommandResponseStatus::Success, data });
        match c.id {
            1 => ok(self.info.encode()),
            5 | 3 => ok(vec![]),
            7 => {
                let q = ChksumPages::decode(&c.data).unwrap();
                self.queries.push(q);
                let ps = self.info.flash_page_size as usize;
                let start = (q.target_address - self.base) as usize;
                let chksums = (0..q.num_pages as usize)
                    .map(|i| page_checksum(&self.flash[start + i * ps..start + (i + 1) * ps]))
                    .collect();
                ok(ChksumPagesResponse { chksums }.encode())
            }
            6 => {
                let w = WriteFlashPage::decode(&c.data).unwrap();
                let start = (w.target_address - self.base) as usize;
                self.flash[start..start + w.data.len()].copy_from_slice(&w.data);
                ok(vec![])
            }
            _ => encode_response(&Response { tag: c.tag, status: CommandResponseStatus::ParseError, data: vec![] }),
        }
    }
}

fn run(dev: &mut FakeDevice, image: Vec<u8>, verify_only: bool) -> Action {
    let (mut s, mut c) = Session::start(image, dev.base, verify_only);
    loop {
        let reply = dev.reply(&c);
        match s.step(&reply) {
            Action::Send(next) => c = next,
            other => return other,
        }
    }
}

fn device(mode: BinInfoMode, pages: usize) -> FakeDevice {
    FakeDevice {
        info: BinInfoResponse { mode, flash_page_size: 64, flash_num_pages: pages as u32, max_message_size: 64 },
        flash: vec![0u8; 64 * pages],
        base: 0x1000,
        log: vec![],
        queries: vec![],
    }
}

#[test]
fn flash_writes_only_changed_pages_then_resets() {
    let mut dev = device(BinInfoMode::Bootloader, 40);
    let mut image = vec![0u8; 35 * 64 - 10];
    image[64 * 3] = 1;
    image[64 * 33 + 5] = 2;
    let r = run(&mut dev, image.clone(), false);
    assert_eq!(r, Action::Done(vec![3, 33]));
    assert_eq!(dev.queries.len(), 2);
    assert_eq!(dev.queries[0], ChksumPages { target_address: 0x1000, num_pages: 30 });
    assert_eq!(dev.queries[1], ChksumPages { target_address: 0x1000 + 30 * 64, num_pages: 5 });
    assert_eq!(dev.log, vec![1, 7, 7, 6, 6, 3]);
    assert_eq!(&dev.flash[..image.len()], &image[..]);
    assert_eq!(run(&mut dev, image, true), Action::Done(vec![]));
}

#[test]
fn flash_from_user_space_starts_flashing_first() {
    let mut dev = device(BinInfoMode::UserSpace, 4);
    let r = run(&mut dev, vec![0u8; 100], false);
    assert_eq!(r, Action::Done(vec![]));
    assert_eq!(dev.log, vec![1, 5, 7, 3]);
}

#[test]
fn verify_reports_both_pages() {
    let mut dev = device(BinInfoMode::Bootloader, 8);
    let mut image = vec![0u8; 8 * 64];
    image[64] = 9;
    image[64 * 6] = 9;
    assert_eq!(run(&mut dev, image, true), Action::Done(vec![1, 6]));
    assert!(!dev.log.contains(&6));
}

#[test]
fn rejected_reply_fails_session() {
    let (mut s, _) = Session::start(vec![1, 2, 3], 0, false);
    let reply = encode_response(&Response { tag: 0, status: CommandResponseStatus::ExecutionError, data: vec![] });
    assert_eq!(s.step(&reply), Action::Fail(Error::CommandNotRecognized));
}

#[test]
fn bad_geometry_and_oversized_image() {
    let mut info = BinInfoResponse { mode: BinInfoMode::Bootloader, flash_page_size: 0, flash_num_pages: 1, max_message_size: 64 };
    let reply = |i: &BinInfoResponse| encode_response(&Response { tag: 0, status: CommandResponseStatus::Success, data: i.encode() });
    let (mut s, _) = Session::start(vec![1], 0, false);
    assert_eq!(s.step(&reply(&info)), Action::Fail(Error::BadGeometry));
    info.flash_page_size = 1024;
    let (mut s, _) = Session::start(vec![1], u32::MAX - 100, false);
    assert_eq!(s.step(&reply(&info)), Action::Fail(Error::ImageTooLarge));
}
