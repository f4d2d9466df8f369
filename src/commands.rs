//! The command catalog: identifiers, request payloads and typed replies.

use vstd::prelude::*;
use vstd::utf8::{valid_utf8, decode_utf8, encode_utf8, encode_utf8_valid_utf8, encode_utf8_decode_utf8};
use vstd::string::StringSliceAdditionalSpecFns;
use crate::bytes::{push_u16_le, push_u32_le, read_u16_le, read_u32_le, u16_le_bytes, u32_le_bytes, u16_from_le,
    u32_from_le, lemma_u16_le_round_trip, lemma_u32_le_round_trip};
use crate::command::{Command, CommandResponseStatus, Error, decode_response, extend_from};

verus! {

/// Relies on `std::str::from_utf8`: it accepts exactly the valid UTF-8
/// byte strings, and the text it returns is the one they encode.
#[verifier::external_body]
fn utf8_text(b: &[u8]) -> (r: Option<String>)
    ensures
        r is Some <==> valid_utf8(b@),
        r is Some ==> r->Some_0@ == decode_utf8(b@),
{
    std::str::from_utf8(b).ok().map(|s| s.to_string())
}

/// What a reply packet yields to its command: its payload on success, a
/// parse error when it is shorter than the header, a rejection otherwise.
pub open spec fn reply_payload_spec(p: Seq<u8>) -> Result<Seq<u8>, Error> {
    if p.len() < 8 {
        Err(Error::Parse)
    } else if u32_from_le(p.subrange(4, 8)) != 0 {
        Err(Error::CommandNotRecognized)
    } else {
        Ok(p.subrange(8, p.len() as int))
    }
}

/// Unwraps a reply packet: any status but success is a rejection.
pub fn reply_payload(p: &[u8]) -> (r: Result<Vec<u8>, Error>)
    ensures
        match reply_payload_spec(p@) {
            Ok(d) => r is Ok && r->Ok_0@ == d,
            Err(e) => r == Err::<Vec<u8>, Error>(e),
        },
{
    let rsp = match decode_response(p) {
        Ok(rsp) => rsp,
        Err(e) => return Err(e),
    };
    match rsp.status {
        CommandResponseStatus::Success => Ok(rsp.data),
        _ => Err(Error::CommandNotRecognized),
    }
}

/// Unwraps a reply packet whose payload carries nothing.
pub fn reply_empty(p: &[u8]) -> (r: Result<(), Error>)
    ensures
        match reply_payload_spec(p@) {
            Ok(_) => r is Ok,
            Err(e) => r == Err::<(), Error>(e),
        },
{
    match reply_payload(p) {
        Ok(_) => Ok(()),
        Err(e) => Err(e),
    }
}

/// Copies `b` into a vector.
fn bytes_to_vec(b: &[u8]) -> (r: Vec<u8>)
    ensures
        r@ == b@,
{
    let mut r: Vec<u8> = Vec::new();
    extend_from(&mut r, b, 0);
    assert(b@.subrange(0, b@.len() as int) =~= b@);
    r
}

/// The bytes of a text.
fn text_bytes(s: &String) -> (r: Vec<u8>)
    ensures
        r@ == encode_utf8(s@),
{
    bytes_to_vec(s.as_str().as_bytes())
}

// ---------------------------------------------------------------- BinInfo

/// Mode the device runs in.
#[derive(Debug, Clone, Copy, PartialEq, Eq, Structural)]
pub enum BinInfoMode {
    Bootloader,
    UserSpace,
}

pub open spec fn mode_word(m: BinInfoMode) -> u32 {
    match m {
        BinInfoMode::Bootloader => 1,
        BinInfoMode::UserSpace => 2,
    }
}

/// This command states the current mode of the device and its flash geometry.
pub struct BinInfo {}

/// Reply to `BinInfo`.
#[derive(Debug, Clone, Copy, PartialEq, Eq, Structural)]
pub struct BinInfoResponse {
    pub mode: BinInfoMode,
    pub flash_page_size: u32,
    pub flash_num_pages: u32,
    pub max_message_size: u32,
}

impl BinInfo {
    pub const ID: u32 = 0x0001;

    pub fn request(&self) -> (r: Command)
        ensures
            r.id == Self::ID,
            r.tag == 0,
            r.data@.len() == 0,
    {
        Command::new(Self::ID, 0, Vec::new())
    }

    pub fn parse_reply(p: &[u8]) -> (r: Result<BinInfoResponse, Error>)
        ensures
            match reply_payload_spec(p@) {
                Ok(d) => r == BinInfoResponse::decode_spec(d),
                Err(e) => r == Err::<BinInfoResponse, Error>(e),
            },
    {
        match reply_payload(p) {
            Ok(d) => BinInfoResponse::decode(d.as_slice()),
            Err(e) => Err(e),
        }
    }
}

impl BinInfoResponse {
    pub open spec fn encode_spec(self) -> Seq<u8> {
        u32_le_bytes(mode_word(self.mode)) + u32_le_bytes(self.flash_page_size) + u32_le_bytes(
            self.flash_num_pages,
        ) + u32_le_bytes(self.max_message_size)
    }

    /// `[mode][flash_page_size][flash_num_pages][max_message_size]`; a
    /// shorter payload or an unknown mode is a parse error.
    pub open spec fn decode_spec(d: Seq<u8>) -> Result<BinInfoResponse, Error> {
        if d.len() < 16 {
            Err(Error::Parse)
        } else {
            let m = u32_from_le(d.subrange(0, 4));
            if m != 1 && m != 2 {
                Err(Error::Parse)
            } else {
                Ok(
                    BinInfoResponse {
                        mode: if m == 1 {
                            BinInfoMode::Bootloader
                        } else {
                            BinInfoMode::UserSpace
                        },
                        flash_page_size: u32_from_le(d.subrange(4, 8)),
                        flash_num_pages: u32_from_le(d.subrange(8, 12)),
                        max_message_size: u32_from_le(d.subrange(12, 16)),
                    },
                )
            }
        }
    }

    pub fn encode(&self) -> (r: Vec<u8>)
        ensures
            r@ == self.encode_spec(),
    {
        let mut r: Vec<u8> = Vec::new();
        let m: u32 = match self.mode {
            BinInfoMode::Bootloader => 1,
            BinInfoMode::UserSpace => 2,
        };
        push_u32_le(&mut r, m);
        push_u32_le(&mut r, self.flash_page_size);
        push_u32_le(&mut r, self.flash_num_pages);
        push_u32_le(&mut r, self.max_message_size);
        r
    }

    pub fn decode(d: &[u8]) -> (r: Result<BinInfoResponse, Error>)
        ensures
            r == Self::decode_spec(d@),
    {
        if d.len() < 16 {
            return Err(Error::Parse);
        }
        let m = read_u32_le(d, 0);
        let mode = if m == 1 {
            BinInfoMode::Bootloader
        } else if m == 2 {
            BinInfoMode::UserSpace
        } else {
            return Err(Error::Parse);
        };
        Ok(
            BinInfoResponse {
                mode,
                flash_page_size: read_u32_le(d, 4),
                flash_num_pages: read_u32_le(d, 8),
                max_message_size: read_u32_le(d, 12),
            },
        )
    }
}

/// Decoding the payload of a `BinInfo` reply gives back every field.
pub proof fn lemma_bininfo_round_trip(x: BinInfoResponse)
    ensures
        BinInfoResponse::decode_spec(x.encode_spec()) == Ok::<BinInfoResponse, Error>(x),
{
    let e = x.encode_spec();
    lemma_u32_le_round_trip(mode_word(x.mode));
    lemma_u32_le_round_trip(x.flash_page_size);
    lemma_u32_le_round_trip(x.flash_num_pages);
    lemma_u32_le_round_trip(x.max_message_size);
    assert(e.subrange(0, 4) =~= u32_le_bytes(mode_word(x.mode)));
    assert(e.subrange(4, 8) =~= u32_le_bytes(x.flash_page_size));
    assert(e.subrange(8, 12) =~= u32_le_bytes(x.flash_num_pages));
    assert(e.subrange(12, 16) =~= u32_le_bytes(x.max_message_size));
}

// ------------------------------------------------------- Info and Dmesg

/// Various device information, as text.
pub struct Info {}

/// Reply to `Info`.
#[derive(Debug, PartialEq, Eq)]
pub struct InfoResponse {
    pub info: String,
}

impl Info {
    pub const ID: u32 = 0x0002;

    pub fn request(&self) -> (r: Command)
        ensures
            r.id == Self::ID,
            r.tag == 0,
            r.data@.len() == 0,
    {
        Command::new(Self::ID, 0, Vec::new())
    }

    pub fn parse_reply(p: &[u8]) -> (r: Result<InfoResponse, Error>)
        ensures
            match reply_payload_spec(p@) {
                Ok(d) => InfoResponse::decoded(d, r),
                Err(e) => r == Err::<InfoResponse, Error>(e),
            },
    {
        match reply_payload(p) {
            Ok(d) => InfoResponse::decode(d.as_slice()),
            Err(e) => Err(e),
        }
    }
}

impl InfoResponse {
    /// `r` is what decoding the payload `d` gives: the text it encodes, or
    /// a parse error when it is not valid UTF-8.
    pub open spec fn decoded(d: Seq<u8>, r: Result<InfoResponse, Error>) -> bool {
        if valid_utf8(d) {
            r is Ok && r->Ok_0.info@ == decode_utf8(d)
        } else {
            r == Err::<InfoResponse, Error>(Error::Parse)
        }
    }

    pub fn decode(d: &[u8]) -> (r: Result<InfoResponse, Error>)
        ensures
            Self::decoded(d@, r),
    {
        match utf8_text(d) {
            Some(info) => Ok(InfoResponse { info }),
            None => Err(Error::Parse),
        }
    }

    pub fn encode(&self) -> (r: Vec<u8>)
        ensures
            r@ == encode_utf8(self.info@),
    {
        text_bytes(&self.info)
    }
}

/// Return internal log buffer, if any, as text.
pub struct Dmesg {}

/// Reply to `Dmesg`.
#[derive(Debug, PartialEq, Eq)]
pub struct DmesgResponse {
    pub logs: String,
}

impl Dmesg {
    pub const ID: u32 = 0x0010;

    pub fn request(&self) -> (r: Command)
        ensures
            r.id == Self::ID,
            r.tag == 0,
            r.data@.len() == 0,
    {
        Command::new(Self::ID, 0, Vec::new())
    }

    pub fn parse_reply(p: &[u8]) -> (r: Result<DmesgResponse, Error>)
        ensures
            match reply_payload_spec(p@) {
                Ok(d) => if valid_utf8(d) {
                    r is Ok && r->Ok_0.logs@ == decode_utf8(d)
                } else {
                    r == Err::<DmesgResponse, Error>(Error::Parse)
                },
                Err(e) => r == Err::<DmesgResponse, Error>(e),
            },
    {
        match reply_payload(p) {
            Ok(d) => match utf8_text(d.as_slice()) {
                Some(logs) => Ok(DmesgResponse { logs }),
                None => Err(Error::Parse),
            },
            Err(e) => Err(e),
        }
    }
}

/// Decoding the bytes of a text gives back the text.
pub proof fn lemma_info_round_trip(x: InfoResponse, r: Result<InfoResponse, Error>)
    requires
        InfoResponse::decoded(encode_utf8(x.info@), r),
    ensures
        r is Ok,
        r->Ok_0.info@ == x.info@,
{
    encode_utf8_valid_utf8(x.info@);
    encode_utf8_decode_utf8(x.info@);
}

// ------------------------------------------------- commands without reply

/// Reset the device into its user-space application.
pub struct ResetIntoApp {}

/// Reset the device into its bootloader, usually for flashing.
pub struct ResetIntoBootloader {}

/// Put the device into flashing mode; a no-op when it is already there.
pub struct StartFlash {}

impl ResetIntoApp {
    pub const ID: u32 = 0x0003;

    pub fn request(&self) -> (r: Command)
        ensures
            r.id == Self::ID,
            r.tag == 0,
            r.data@.len() == 0,
    {
        Command::new(Self::ID, 0, Vec::new())
    }
}

impl ResetIntoBootloader {
    pub const ID: u32 = 0x0004;

    pub fn request(&self) -> (r: Command)
        ensures
            r.id == Self::ID,
            r.tag == 0,
            r.data@.len() == 0,
    {
        Command::new(Self::ID, 0, Vec::new())
    }
}

impl StartFlash {
    pub const ID: u32 = 0x0005;

    pub fn request(&self) -> (r: Command)
        ensures
            r.id == Self::ID,
            r.tag == 0,
            r.data@.len() == 0,
    {
        Command::new(Self::ID, 0, Vec::new())
    }
}

// --------------------------------------------------------- WriteFlashPage

/// Write one page of flash at `target_address`.
#[derive(Debug, PartialEq, Eq)]
pub struct WriteFlashPage {
    pub target_address: u32,
    pub data: Vec<u8>,
}

impl WriteFlashPage {
    pub const ID: u32 = 0x0006;

    /// `[target_address][page bytes]`.
    pub open spec fn encode_spec(target_address: u32, data: Seq<u8>) -> Seq<u8> {
        u32_le_bytes(target_address) + data
    }

    pub open spec fn decode_spec(d: Seq<u8>) -> Option<(u32, Seq<u8>)> {
        if d.len() < 4 {
            None
        } else {
            Some((u32_from_le(d.subrange(0, 4)), d.subrange(4, d.len() as int)))
        }
    }

    pub fn request(&self) -> (r: Command)
        ensures
            r.id == Self::ID,
            r.tag == 0,
            r.data@ == Self::encode_spec(self.target_address, self.data@),
    {
        let mut d: Vec<u8> = Vec::new();
        push_u32_le(&mut d, self.target_address);
        extend_from(&mut d, self.data.as_slice(), 0);
        assert(self.data@.subrange(0, self.data@.len() as int) =~= self.data@);
        Command::new(Self::ID, 0, d)
    }

    /// Reads a request payload back.
    pub fn decode(d: &[u8]) -> (r: Option<WriteFlashPage>)
        ensures
            match Self::decode_spec(d@) {
                Some((a, b)) => r is Some && r->Some_0.target_address == a && r->Some_0.data@ == b,
                None => r is None,
            },
    {
        if d.len() < 4 {
            return None;
        }
        let mut data: Vec<u8> = Vec::new();
        extend_from(&mut data, d, 4);
        Some(WriteFlashPage { target_address: read_u32_le(d, 0), data })
    }

    pub fn parse_reply(p: &[u8]) -> (r: Result<(), Error>)
        ensures
            match reply_payload_spec(p@) {
                Ok(_) => r is Ok,
                Err(e) => r == Err::<(), Error>(e),
            },
    {
        reply_empty(p)
    }
}

/// Decoding a page write request gives back its address and bytes.
pub proof fn lemma_write_flash_page_round_trip(target_address: u32, data: Seq<u8>)
    ensures
        WriteFlashPage::decode_spec(WriteFlashPage::encode_spec(target_address, data)) == Some(
            (target_address, data),
        ),
{
    let e = WriteFlashPage::encode_spec(target_address, data);
    lemma_u32_le_round_trip(target_address);
    assert(e.subrange(0, 4) =~= u32_le_bytes(target_address));
    assert(e.subrange(4, e.len() as int) =~= data);
}

// ------------------------------------------------------------ ChksumPages

/// Compute the checksums of `num_pages` pages from `target_address`. At most
/// `max_message_size / 2 - 2` pages can be asked for at once.
#[derive(Debug, Clone, Copy, PartialEq, Eq, Structural)]
pub struct ChksumPages {
    pub target_address: u32,
    pub num_pages: u32,
}

/// Reply to `ChksumPages`: one checksum per page, in address order.
#[derive(Debug, PartialEq, Eq)]
pub struct ChksumPagesResponse {
    pub chksums: Vec<u16>,
}

/// Two little-endian words `[a][b]`.
pub open spec fn pair_bytes(a: u32, b: u32) -> Seq<u8> {
    u32_le_bytes(a) + u32_le_bytes(b)
}

/// The two words at the start of `d`, if it holds eight bytes or more.
pub open spec fn pair_from(d: Seq<u8>) -> Option<(u32, u32)> {
    if d.len() < 8 {
        None
    } else {
        Some((u32_from_le(d.subrange(0, 4)), u32_from_le(d.subrange(4, 8))))
    }
}

/// Decoding the payload of a `ChksumPages` or `ReadWords` request gives
/// back its two fields.
pub proof fn lemma_pair_round_trip(a: u32, b: u32)
    ensures
        pair_from(pair_bytes(a, b)) == Some((a, b)),
{
    let e = pair_bytes(a, b);
    lemma_u32_le_round_trip(a);
    lemma_u32_le_round_trip(b);
    assert(e.subrange(0, 4) =~= u32_le_bytes(a));
    assert(e.subrange(4, 8) =~= u32_le_bytes(b));
}

fn encode_pair(a: u32, b: u32) -> (r: Vec<u8>)
    ensures
        r@ == pair_bytes(a, b),
{
    let mut r: Vec<u8> = Vec::new();
    push_u32_le(&mut r, a);
    push_u32_le(&mut r, b);
    r
}

/// The checksums that a payload holds: one per two bytes, a trailing odd
/// byte ignored.
pub open spec fn u16s_from_le(d: Seq<u8>) -> Seq<u16> {
    Seq::new(d.len() / 2, |i: int| u16_from_le(d.subrange(2 * i, 2 * i + 2)))
}

/// The bytes of a sequence of checksums.
pub open spec fn u16s_to_le(s: Seq<u16>) -> Seq<u8> {
    Seq::new(
        2 * s.len(),
        |j: int|
            if j % 2 == 0 {
                (s[j / 2] % 256) as u8
            } else {
                (s[j / 2] / 256) as u8
            },
    )
}

impl ChksumPages {
    pub const ID: u32 = 0x0007;

    pub fn request(&self) -> (r: Command)
        ensures
            r.id == Self::ID,
            r.tag == 0,
            r.data@ == pair_bytes(self.target_address, self.num_pages),
    {
        Command::new(Self::ID, 0, encode_pair(self.target_address, self.num_pages))
    }

    /// Reads a request payload back.
    pub fn decode(d: &[u8]) -> (r: Option<ChksumPages>)
        ensures
            match pair_from(d@) {
                Some((a, n)) => r == Some(ChksumPages { target_address: a, num_pages: n }),
                None => r is None,
            },
    {
        if d.len() < 8 {
            return None;
        }
        Some(ChksumPages { target_address: read_u32_le(d, 0), num_pages: read_u32_le(d, 4) })
    }

    pub fn parse_reply(p: &[u8]) -> (r: Result<ChksumPagesResponse, Error>)
        ensures
            match reply_payload_spec(p@) {
                Ok(d) => if d.len() < 2 {
                    r == Err::<ChksumPagesResponse, Error>(Error::Parse)
                } else {
                    r is Ok && r->Ok_0.chksums@ == u16s_from_le(d)
                },
                Err(e) => r == Err::<ChksumPagesResponse, Error>(e),
            },
    {
        match reply_payload(p) {
            Ok(d) => ChksumPagesResponse::decode(d.as_slice()),
            Err(e) => Err(e),
        }
    }
}

impl ChksumPagesResponse {
    /// A payload under two bytes is a parse error.
    pub fn decode(d: &[u8]) -> (r: Result<ChksumPagesResponse, Error>)
        ensures
            d@.len() < 2 ==> r == Err::<ChksumPagesResponse, Error>(Error::Parse),
            d@.len() >= 2 ==> r is Ok && r->Ok_0.chksums@ == u16s_from_le(d@),
    {
        if d.len() < 2 {
            return Err(Error::Parse);
        }
        let len = d.len();
        let n = len / 2;
        let mut chksums: Vec<u16> = Vec::new();
        let mut i: usize = 0;
        while i < n
            invariant
                len == d@.len(),
                n == len / 2,
                i <= n,
                chksums@ =~= u16s_from_le(d@).subrange(0, i as int),
            decreases n - i,
        {
            assert(2 * i + 2 <= d@.len());
            chksums.push(read_u16_le(d, 2 * i));
            i = i + 1;
        }
        Ok(ChksumPagesResponse { chksums })
    }

    pub fn encode(&self) -> (r: Vec<u8>)
        ensures
            r@ == u16s_to_le(self.chksums@),
    {
        let mut r: Vec<u8> = Vec::new();
        let mut i: usize = 0;
        while i < self.chksums.len()
            invariant
                i <= self.chksums@.len(),
                r@ =~= u16s_to_le(self.chksums@.subrange(0, i as int)),
            decreases self.chksums@.len() - i,
        {
            push_u16_le(&mut r, self.chksums[i]);
            i = i + 1;
            assert(r@ =~= u16s_to_le(self.chksums@.subrange(0, i as int)));
        }
        assert(self.chksums@.subrange(0, i as int) =~= self.chksums@);
        r
    }
}

/// Decoding the bytes of a sequence of checksums gives it back.
pub proof fn lemma_chksums_round_trip(s: Seq<u16>)
    ensures
        u16s_from_le(u16s_to_le(s)) == s,
{
    let e = u16s_to_le(s);
    assert forall|i: int| 0 <= i < s.len() implies u16s_from_le(e)[i] == s[i] by {
        lemma_u16_le_round_trip(s[i]);
        assert(e.subrange(2 * i, 2 * i + 2) =~= u16_le_bytes(s[i]));
    }
    assert(u16s_from_le(e) =~= s);
}

// -------------------------------------------------------------- ReadWords

/// Read `num_words` words of memory from `target_address`, word by word.
#[derive(Debug, Clone, Copy, PartialEq, Eq, Structural)]
pub struct ReadWords {
    pub target_address: u32,
    pub num_words: u32,
}

/// Reply to `ReadWords`: the raw bytes read.
#[derive(Debug, PartialEq, Eq)]
pub struct ReadWordsResponse {
    pub words: Vec<u8>,
}

impl ReadWords {
    pub const ID: u32 = 0x0008;

    pub fn request(&self) -> (r: Command)
        ensures
            r.id == Self::ID,
            r.tag == 0,
            r.data@ == pair_bytes(self.target_address, self.num_words),
    {
        Command::new(Self::ID, 0, encode_pair(self.target_address, self.num_words))
    }

    /// Reads a request payload back.
    pub fn decode(d: &[u8]) -> (r: Option<ReadWords>)
        ensures
            match pair_from(d@) {
                Some((a, n)) => r == Some(ReadWords { target_address: a, num_words: n }),
                None => r is None,
            },
    {
        if d.len() < 8 {
            return None;
        }
        Some(ReadWords { target_address: read_u32_le(d, 0), num_words: read_u32_le(d, 4) })
    }

    pub fn parse_reply(p: &[u8]) -> (r: Result<ReadWordsResponse, Error>)
        ensures
            match reply_payload_spec(p@) {
                Ok(d) => if d.len() < 4 {
                    r == Err::<ReadWordsResponse, Error>(Error::Parse)
                } else {
                    r is Ok && r->Ok_0.words@ == d
                },
                Err(e) => r == Err::<ReadWordsResponse, Error>(e),
            },
    {
        match reply_payload(p) {
            Ok(d) => ReadWordsResponse::decode(d.as_slice()),
            Err(e) => Err(e),
        }
    }
}

impl ReadWordsResponse {
    /// A payload under one word is a parse error.
    pub fn decode(d: &[u8]) -> (r: Result<ReadWordsResponse, Error>)
        ensures
            d@.len() < 4 ==> r == Err::<ReadWordsResponse, Error>(Error::Parse),
            d@.len() >= 4 ==> r is Ok && r->Ok_0.words@ == d@,
    {
        if d.len() < 4 {
            return Err(Error::Parse);
        }
        Ok(ReadWordsResponse { words: bytes_to_vec(d) })
    }
}

} // verus!
