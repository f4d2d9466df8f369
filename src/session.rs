//! One flash or verify operation as a state machine: each reply from the
//! device goes in, the next thing to do comes out. The caller performs the
//! actions; every decision is taken here.

use vstd::prelude::*;
use crate::command::{Command, Error};
use crate::commands::{
    reply_payload_spec, BinInfo, BinInfoMode, BinInfoResponse, ChksumPages, ResetIntoApp, StartFlash,
    WriteFlashPage, u16s_from_le, pair_bytes,
};
use crate::flash::{
    append_checksums, checksum_plan, local_checksums, mismatched_pages, mismatches, pad_image, padded_len,
    page_checksums, queries, write_requests, page_of,
};

verus! {

/// Where an operation stands: which reply it waits for.
#[derive(Debug, Clone, Copy, PartialEq, Eq, Structural)]
pub enum Phase {
    AwaitBinInfo,
    AwaitStartFlash,
    AwaitChecksums,
    AwaitWrite,
    AwaitReset,
    Finished,
}

/// What the caller does next.
#[derive(Debug, PartialEq, Eq)]
pub enum Action {
    /// Send this command and hand its reply to `step`.
    Send(Command),
    /// The operation succeeded: the pages written, or for a verify the pages
    /// that differ, by index.
    Done(Vec<usize>),
    /// The operation stopped on this error.
    Fail(Error),
}

/// A flash or verify operation in progress.
pub struct Session {
    pub verify_only: bool,
    pub base: u32,
    pub image: Vec<u8>,
    pub phase: Phase,
    pub page_size: u32,
    pub queries: Vec<ChksumPages>,
    pub device: Vec<u16>,
    pub pages: Vec<usize>,
    pub writes: Vec<WriteFlashPage>,
    pub next: usize,
}

/// The reply to `BinInfo` that a packet carries.
pub open spec fn bininfo_reply(p: Seq<u8>) -> Result<BinInfoResponse, Error> {
    match reply_payload_spec(p) {
        Ok(d) => BinInfoResponse::decode_spec(d),
        Err(e) => Err(e),
    }
}

/// A command that asks for the checksums of `q`.
pub open spec fn is_query(c: Command, q: ChksumPages) -> bool {
    c.id == ChksumPages::ID && c.data@ == pair_bytes(q.target_address, q.num_pages)
}

/// A command that writes `w`.
pub open spec fn is_write(c: Command, w: WriteFlashPage) -> bool {
    c.id == WriteFlashPage::ID && c.data@ == WriteFlashPage::encode_spec(w.target_address, w.data@)
}

/// A device geometry that pages can be planned with: pages of at least one
/// byte, and messages that fit a checksum query of at least one page.
pub open spec fn geometry_ok(info: BinInfoResponse) -> bool {
    info.flash_page_size > 0 && info.max_message_size >= 6
}

impl Session {
    pub open spec fn wf(&self) -> bool {
        &&& (self.phase != Phase::AwaitBinInfo && self.phase != Phase::Finished) ==> {
            &&& self.page_size > 0
            &&& self.image@.len() % (self.page_size as nat) == 0
            &&& self.base + self.image@.len() <= u32::MAX
        }
        &&& self.phase == Phase::AwaitStartFlash ==> self.device@.len() == 0
        &&& self.phase == Phase::AwaitChecksums ==> self.next < self.queries@.len()
        &&& self.phase == Phase::AwaitWrite ==> self.next < self.writes@.len()
    }

    /// Starts an operation on `image` at `base`: first the device is asked
    /// for its geometry.
    pub fn start(image: Vec<u8>, base: u32, verify_only: bool) -> (r: (Session, Command))
        ensures
            r.0.wf(),
            r.0.phase == Phase::AwaitBinInfo,
            r.0.image@ == image@,
            r.0.base == base,
            r.0.verify_only == verify_only,
            r.1.id == BinInfo::ID,
            r.1.data@.len() == 0,
    {
        let s = Session {
            verify_only,
            base,
            image,
            phase: Phase::AwaitBinInfo,
            page_size: 0,
            queries: Vec::new(),
            device: Vec::new(),
            pages: Vec::new(),
            writes: Vec::new(),
            next: 0,
        };
        (s, BinInfo {}.request())
    }

    /// Asks for the next batch of checksums, or decides once all are in.
    fn ask_checksums(&mut self) -> (a: Action)
        requires
            old(self).wf(),
            old(self).phase != Phase::AwaitBinInfo,
            old(self).phase != Phase::Finished,
            old(self).next <= old(self).queries@.len(),
        ensures
            final(self).wf(),
            final(self).image == old(self).image,
            final(self).base == old(self).base,
            final(self).queries == old(self).queries,
            final(self).page_size == old(self).page_size,
            final(self).verify_only == old(self).verify_only,
            final(self).device == old(self).device,
            old(self).next < old(self).queries@.len() ==> {
                &&& final(self).phase == Phase::AwaitChecksums
                &&& final(self).next == old(self).next
                &&& final(self).device@ == old(self).device@
                &&& a matches Action::Send(c) && is_query(c, old(self).queries@[old(self).next as int])
            },
            old(self).next == old(self).queries@.len() ==> Self::decided(*old(self), *final(self), a),
    {
        if self.next < self.queries.len() {
            self.phase = Phase::AwaitChecksums;
            let q = self.queries[self.next];
            Action::Send(q.request())
        } else {
            self.decide()
        }
    }

    /// What follows once every device checksum is in: the device must have
    /// reported one per page; a verify then ends with the differing pages,
    /// a flash writes them.
    pub open spec fn decided(old: Session, new: Session, a: Action) -> bool {
        Self::decided_on(old.image@, old.page_size, old.base, old.verify_only, old.device@, new, a)
    }

    pub open spec fn decided_on(
        image: Seq<u8>,
        page_size: u32,
        base: u32,
        verify_only: bool,
        device: Seq<u16>,
        new: Session,
        a: Action,
    ) -> bool {
        let n = image.len() / (page_size as nat);
        let m = mismatches(page_checksums(image, page_size as nat), device, n);
        if device.len() < n {
            new.phase == Phase::Finished && a == Action::Fail(Error::Parse)
        } else if verify_only {
            new.phase == Phase::Finished && (a matches Action::Done(v) && v@ == m)
        } else {
            &&& new.pages@ == m
            &&& new.writes@.len() == m.len()
            &&& forall|j: int|
                0 <= j < m.len() ==> {
                    &&& (#[trigger] new.writes@[j]).target_address == base + m[j] * page_size
                    &&& new.writes@[j].data@ == page_of(image, page_size as nat, m[j] as int)
                }
            &&& if m.len() > 0 {
                new.phase == Phase::AwaitWrite && new.next == 0 && (a matches Action::Send(c)
                    && is_write(c, new.writes@[0]))
            } else {
                new.phase == Phase::AwaitReset && (a matches Action::Send(c) && c.id
                    == ResetIntoApp::ID)
            }
        }
    }

    fn decide(&mut self) -> (a: Action)
        requires
            old(self).wf(),
            old(self).phase != Phase::AwaitBinInfo,
            old(self).phase != Phase::Finished,
        ensures
            final(self).wf(),
            final(self).image == old(self).image,
            final(self).base == old(self).base,
            final(self).queries == old(self).queries,
            final(self).page_size == old(self).page_size,
            final(self).verify_only == old(self).verify_only,
            final(self).device == old(self).device,
            Self::decided(*old(self), *final(self), a),
    {
        let n = self.image.len() / (self.page_size as usize);
        if self.device.len() < n {
            self.phase = Phase::Finished;
            return Action::Fail(Error::Parse);
        }
        let local = local_checksums(self.image.as_slice(), self.page_size);
        let pages = mismatched_pages(local.as_slice(), self.device.as_slice());
        if self.verify_only {
            self.phase = Phase::Finished;
            return Action::Done(pages);
        }
        proof {
            crate::flash::lemma_mismatches_exact(local@, self.device@, local@.len());
        }
        let writes = write_requests(self.image.as_slice(), self.base, self.page_size, pages.as_slice());
        self.pages = pages;
        self.writes = writes;
        self.next = 0;
        self.phase = Phase::AwaitReset;
        self.send_write()
    }

    /// Sends the next page write, or the final reset once all are done.
    fn send_write(&mut self) -> (a: Action)
        requires
            old(self).wf(),
            old(self).phase != Phase::AwaitBinInfo,
            old(self).phase != Phase::Finished,
            old(self).next <= old(self).writes@.len(),
        ensures
            final(self).wf(),
            final(self).image == old(self).image,
            final(self).base == old(self).base,
            final(self).queries == old(self).queries,
            final(self).page_size == old(self).page_size,
            final(self).verify_only == old(self).verify_only,
            final(self).device == old(self).device,
            final(self).pages == old(self).pages,
            final(self).writes == old(self).writes,
            final(self).next == old(self).next,
            old(self).next < old(self).writes@.len() ==> final(self).phase == Phase::AwaitWrite
                && (a matches Action::Send(c) && is_write(c, old(self).writes@[old(self).next as int])),
            old(self).next == old(self).writes@.len() ==> final(self).phase == Phase::AwaitReset
                && (a matches Action::Send(c) && c.id == ResetIntoApp::ID),
    {
        if self.next < self.writes.len() {
            self.phase = Phase::AwaitWrite;
            Action::Send(self.writes[self.next].request())
        } else {
            self.phase = Phase::AwaitReset;
            Action::Send(ResetIntoApp {}.request())
        }
    }

    /// After the mode is settled: the first checksum query, or, for an empty
    /// image, the decision at once.
    pub open spec fn checksums_begun(new: Session, a: Action) -> bool {
        if new.queries@.len() > 0 {
            new.phase == Phase::AwaitChecksums && new.next == 0 && (a matches Action::Send(c)
                && is_query(c, new.queries@[0]))
        } else {
            Self::decided_on(new.image@, new.page_size, new.base, new.verify_only, seq![], new, a)
        }
    }

    /// Hands the reply to the last command sent to the operation and returns
    /// what to do next.
    pub fn step(&mut self, reply: &[u8]) -> (a: Action)
        requires
            old(self).wf(),
            old(self).phase != Phase::Finished,
        ensures
            final(self).wf(),
            final(self).base == old(self).base,
            final(self).verify_only == old(self).verify_only,
            a is Fail ==> final(self).phase == Phase::Finished,
            a is Done ==> final(self).phase == Phase::Finished,
            old(self).phase == Phase::AwaitBinInfo ==> match bininfo_reply(reply@) {
                Err(e) => a == Action::Fail(e),
                Ok(info) => if !geometry_ok(info) {
                    a == Action::Fail(Error::BadGeometry)
                } else if old(self).base + padded_len(
                    old(self).image@.len(),
                    info.flash_page_size as nat,
                ) > u32::MAX {
                    a == Action::Fail(Error::ImageTooLarge)
                } else {
                    let ps = info.flash_page_size;
                    &&& final(self).page_size == ps
                    &&& final(self).image@.len() == padded_len(old(self).image@.len(), ps as nat)
                    &&& final(self).image@.subrange(0, old(self).image@.len() as int) == old(self).image@
                    &&& forall|i: int|
                        old(self).image@.len() <= i < final(self).image@.len()
                            ==> #[trigger] final(self).image@[i] == 0
                    &&& final(self).queries@ == queries(
                        old(self).base as int,
                        final(self).image@.len() / (ps as nat),
                        ps as nat,
                        (info.max_message_size / 2 - 2) as nat,
                    )
                    &&& final(self).device@.len() == 0
                    &&& if info.mode != BinInfoMode::Bootloader {
                        final(self).phase == Phase::AwaitStartFlash && (a matches Action::Send(c)
                            && c.id == StartFlash::ID)
                    } else {
                        Self::checksums_begun(*final(self), a)
                    }
                },
            },
            old(self).phase == Phase::AwaitStartFlash ==> match reply_payload_spec(reply@) {
                Err(e) => a == Action::Fail(e),
                Ok(_) => final(self).image == old(self).image && final(self).page_size == old(self).page_size
                    && final(self).queries == old(self).queries && final(self).device == old(self).device
                    && Self::checksums_begun(*final(self), a),
            },
            old(self).phase == Phase::AwaitChecksums ==> match reply_payload_spec(reply@) {
                Err(e) => a == Action::Fail(e),
                Ok(d) => if d.len() < 2 {
                    a == Action::Fail(Error::Parse)
                } else {
                    let device = old(self).device@ + u16s_from_le(d);
                    let k = old(self).next + 1;
                    if k < old(self).queries@.len() {
                        &&& final(self).phase == Phase::AwaitChecksums
                        &&& final(self).next == k
                        &&& final(self).device@ == device
                        &&& a matches Action::Send(c) && is_query(c, old(self).queries@[k])
                    } else {
                        Self::decided_on(
                            old(self).image@,
                            old(self).page_size,
                            old(self).base,
                            old(self).verify_only,
                            device,
                            *final(self),
                            a,
                        )
                    }
                },
            },
            old(self).phase == Phase::AwaitWrite ==> match reply_payload_spec(reply@) {
                Err(e) => a == Action::Fail(e),
                Ok(_) => {
                    let k = old(self).next + 1;
                    &&& final(self).pages == old(self).pages
                    &&& final(self).writes == old(self).writes
                    &&& final(self).next == k
                    &&& if k < old(self).writes@.len() {
                        final(self).phase == Phase::AwaitWrite && (a matches Action::Send(c)
                            && is_write(c, old(self).writes@[k]))
                    } else {
                        final(self).phase == Phase::AwaitReset && (a matches Action::Send(c) && c.id
                            == ResetIntoApp::ID)
                    }
                },
            },
            old(self).phase == Phase::AwaitReset ==> match reply_payload_spec(reply@) {
                Err(e) => a == Action::Fail(e),
                Ok(_) => a matches Action::Done(v) && v@ == old(self).pages@,
            },
    {
        match self.phase {
            Phase::AwaitBinInfo => self.on_bininfo(reply),
            Phase::AwaitStartFlash => {
                match crate::commands::reply_empty(reply) {
                    Ok(()) => {
                        assert(self.device@ =~= seq![]);
                        self.next = 0;
                        self.phase = Phase::AwaitReset;
                        self.ask_checksums()
                    },
                    Err(e) => self.fail(e),
                }
            },
            Phase::AwaitChecksums => {
                match ChksumPages::parse_reply(reply) {
                    Ok(rsp) => {
                        let n = self.queries.len();
                        append_checksums(&mut self.device, &rsp);
                        self.next = self.next + 1;
                        self.phase = Phase::AwaitReset;
                        self.ask_checksums()
                    },
                    Err(e) => self.fail(e),
                }
            },
            Phase::AwaitWrite => {
                match WriteFlashPage::parse_reply(reply) {
                    Ok(()) => {
                        let n = self.writes.len();
                        self.next = self.next + 1;
                        self.phase = Phase::AwaitReset;
                        self.send_write()
                    },
                    Err(e) => self.fail(e),
                }
            },
            Phase::AwaitReset => {
                match crate::commands::reply_empty(reply) {
                    Ok(()) => {
                        self.phase = Phase::Finished;
                        let mut done: Vec<usize> = Vec::new();
                        let mut i: usize = 0;
                        while i < self.pages.len()
                            invariant
                                i <= self.pages@.len(),
                                done@ == self.pages@.subrange(0, i as int),
                            decreases self.pages@.len() - i,
                        {
                            done.push(self.pages[i]);
                            i = i + 1;
                            assert(self.pages@.subrange(0, i as int) =~= self.pages@.subrange(0, i - 1).push(self.pages@[i - 1]));
                        }
                        assert(self.pages@.subrange(0, i as int) =~= self.pages@);
                        Action::Done(done)
                    },
                    Err(e) => self.fail(e),
                }
            },
            Phase::Finished => Action::Fail(Error::Parse),
        }
    }

    fn fail(&mut self, e: Error) -> (a: Action)
        ensures
            final(self).wf(),
            final(self).phase == Phase::Finished,
            final(self).base == old(self).base,
            final(self).verify_only == old(self).verify_only,
            a == Action::Fail(e),
    {
        self.phase = Phase::Finished;
        Action::Fail(e)
    }

    fn on_bininfo(&mut self, reply: &[u8]) -> (a: Action)
        requires
            old(self).wf(),
            old(self).phase == Phase::AwaitBinInfo,
        ensures
            final(self).wf(),
            final(self).base == old(self).base,
            final(self).verify_only == old(self).verify_only,
            a is Fail ==> final(self).phase == Phase::Finished,
            a is Done ==> final(self).phase == Phase::Finished,
            match bininfo_reply(reply@) {
                Err(e) => a == Action::Fail(e),
                Ok(info) => if !geometry_ok(info) {
                    a == Action::Fail(Error::BadGeometry)
                } else if old(self).base + padded_len(
                    old(self).image@.len(),
                    info.flash_page_size as nat,
                ) > u32::MAX {
                    a == Action::Fail(Error::ImageTooLarge)
                } else {
                    let ps = info.flash_page_size;
                    &&& final(self).page_size == ps
                    &&& final(self).image@.len() == padded_len(old(self).image@.len(), ps as nat)
                    &&& final(self).image@.subrange(0, old(self).image@.len() as int) == old(self).image@
                    &&& forall|i: int|
                        old(self).image@.len() <= i < final(self).image@.len()
                            ==> #[trigger] final(self).image@[i] == 0
                    &&& final(self).queries@ == queries(
                        old(self).base as int,
                        final(self).image@.len() / (ps as nat),
                        ps as nat,
                        (info.max_message_size / 2 - 2) as nat,
                    )
                    &&& final(self).device@.len() == 0
                    &&& if info.mode != BinInfoMode::Bootloader {
                        final(self).phase == Phase::AwaitStartFlash && (a matches Action::Send(c)
                            && c.id == StartFlash::ID)
                    } else {
                        Self::checksums_begun(*final(self), a)
                    }
                },
            },
    {
        let info = match BinInfo::parse_reply(reply) {
            Ok(info) => info,
            Err(e) => return self.fail(e),
        };
        if info.flash_page_size == 0 || info.max_message_size < 6 {
            return self.fail(Error::BadGeometry);
        }
        let ps = info.flash_page_size;
        let len = self.image.len();
        let rem = len % (ps as usize);
        let pad = if rem == 0 { 0 } else { ps as usize - rem };
        let room = (u32::MAX - self.base) as usize;
        if len > room || pad > room - len {
            return self.fail(Error::ImageTooLarge);
        }
        pad_image(&mut self.image, ps);
        self.page_size = ps;
        self.queries = checksum_plan(&info, self.base, self.image.len());
        self.device = Vec::new();
        self.next = 0;
        if info.mode != BinInfoMode::Bootloader {
            self.phase = Phase::AwaitStartFlash;
            Action::Send(StartFlash {}.request())
        } else {
            self.phase = Phase::AwaitStartFlash;
            self.ask_checksums()
        }
    }
}

} // verus!
