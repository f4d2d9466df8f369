//! Framing: a request is `[command_id: u32][payload]`, a response is
//! `[tag: u32][status: u32][payload]`, all little-endian.

use vstd::prelude::*;
use crate::bytes::{push_u32_le, read_u32_le, u32_le_bytes, u32_from_le, lemma_u32_le_round_trip};

verus! {

/// Everything that can go wrong while talking to a device.
#[derive(Debug, Clone, Copy, PartialEq, Eq, Structural)]
pub enum Error {
    /// The underlying channel failed to read or write.
    Transport,
    /// A response was too short or its payload did not decode.
    Parse,
    /// The device answered with a status other than success.
    CommandNotRecognized,
    /// The local firmware image could not be read.
    Io,
    /// The device reported a page size of zero or a message size too small
    /// for a checksum query.
    BadGeometry,
    /// The padded image does not fit below the end of the 32-bit address
    /// space from its base address.
    ImageTooLarge,
}

/// Status word of a response.
#[derive(Debug, Clone, Copy, PartialEq, Eq, Structural)]
pub enum CommandResponseStatus {
    Success,
    /// The device could not parse the request.
    ParseError,
    /// The device failed to execute the request.
    ExecutionError,
    /// Any other non-zero status word.
    Other(u32),
}

/// The status that a status word denotes.
pub open spec fn status_of(w: u32) -> CommandResponseStatus {
    if w == 0 {
        CommandResponseStatus::Success
    } else if w == 1 {
        CommandResponseStatus::ParseError
    } else if w == 2 {
        CommandResponseStatus::ExecutionError
    } else {
        CommandResponseStatus::Other(w)
    }
}

/// The status word of a status; `Other` carries its own word.
pub open spec fn word_of(s: CommandResponseStatus) -> u32 {
    match s {
        CommandResponseStatus::Success => 0,
        CommandResponseStatus::ParseError => 1,
        CommandResponseStatus::ExecutionError => 2,
        CommandResponseStatus::Other(w) => w,
    }
}

/// A status is well formed when `Other` does not hide one of the named words.
pub open spec fn status_wf(s: CommandResponseStatus) -> bool {
    match s {
        CommandResponseStatus::Other(w) => w > 2,
        _ => true,
    }
}

pub fn status_from_word(w: u32) -> (r: CommandResponseStatus)
    ensures
        r == status_of(w),
{
    if w == 0 {
        CommandResponseStatus::Success
    } else if w == 1 {
        CommandResponseStatus::ParseError
    } else if w == 2 {
        CommandResponseStatus::ExecutionError
    } else {
        CommandResponseStatus::Other(w)
    }
}

pub fn status_to_word(s: CommandResponseStatus) -> (r: u32)
    ensures
        r == word_of(s),
{
    match s {
        CommandResponseStatus::Success => 0,
        CommandResponseStatus::ParseError => 1,
        CommandResponseStatus::ExecutionError => 2,
        CommandResponseStatus::Other(w) => w,
    }
}

/// A request: command identifier, correlation tag and payload.
#[derive(Debug, PartialEq, Eq)]
pub struct Command {
    pub id: u32,
    pub tag: u32,
    pub data: Vec<u8>,
}

impl Command {
    pub fn new(id: u32, tag: u32, data: Vec<u8>) -> (r: Command)
        ensures
            r.id == id,
            r.tag == tag,
            r.data@ == data@,
    {
        Command { id, tag, data }
    }
}

/// The packet of a request: its identifier, then its payload verbatim.
pub open spec fn command_packet(id: u32, data: Seq<u8>) -> Seq<u8> {
    u32_le_bytes(id) + data
}

/// Encodes a request into the packet handed to the transport.
pub fn encode_command(c: &Command) -> (r: Vec<u8>)
    ensures
        r@ == command_packet(c.id, c.data@),
{
    let mut r: Vec<u8> = Vec::new();
    push_u32_le(&mut r, c.id);
    let mut i: usize = 0;
    while i < c.data.len()
        invariant
            i <= c.data@.len(),
            r@ == u32_le_bytes(c.id) + c.data@.subrange(0, i as int),
        decreases c.data@.len() - i,
    {
        r.push(c.data[i]);
        i = i + 1;
        assert(c.data@.subrange(0, i as int) =~= c.data@.subrange(0, i - 1) + seq![c.data@[i - 1]]);
    }
    assert(c.data@.subrange(0, i as int) =~= c.data@);
    r
}

/// A response: echoed tag, status and payload.
#[derive(Debug, PartialEq, Eq)]
pub struct Response {
    pub tag: u32,
    pub status: CommandResponseStatus,
    pub data: Vec<u8>,
}

/// Shortest packet that holds a response header.
pub const RESPONSE_HEADER_LEN: usize = 8;

/// The packet of a response.
pub open spec fn response_packet(tag: u32, status: CommandResponseStatus, data: Seq<u8>) -> Seq<u8> {
    u32_le_bytes(tag) + u32_le_bytes(word_of(status)) + data
}

/// Appends `b[from..]` to `v`.
pub fn extend_from(v: &mut Vec<u8>, b: &[u8], from: usize)
    requires
        from <= b@.len(),
    ensures
        final(v)@ == old(v)@ + b@.subrange(from as int, b@.len() as int),
{
    let mut i: usize = from;
    while i < b.len()
        invariant
            from <= i <= b@.len(),
            v@ == old(v)@ + b@.subrange(from as int, i as int),
        decreases b@.len() - i,
    {
        v.push(b[i]);
        i = i + 1;
        assert(b@.subrange(from as int, i as int) =~= b@.subrange(from as int, i - 1) + seq![
            b@[i - 1],
        ]);
    }
}

/// Splits a response packet into tag, status and payload; a packet shorter
/// than the header is a parse error.
pub fn decode_response(p: &[u8]) -> (r: Result<Response, Error>)
    ensures
        p@.len() >= 8 <==> r is Ok,
        p@.len() < 8 ==> r == Err::<Response, Error>(Error::Parse),
        r is Ok ==> ({
            let rsp = r->Ok_0;
            &&& rsp.tag == u32_from_le(p@.subrange(0, 4))
            &&& rsp.status == status_of(u32_from_le(p@.subrange(4, 8)))
            &&& rsp.data@ == p@.subrange(8, p@.len() as int)
        }),
{
    if p.len() < RESPONSE_HEADER_LEN {
        return Err(Error::Parse);
    }
    let tag = read_u32_le(p, 0);
    let w = read_u32_le(p, 4);
    let mut data: Vec<u8> = Vec::new();
    extend_from(&mut data, p, 8);
    assert(data@ =~= p@.subrange(8, p@.len() as int));
    Ok(Response { tag, status: status_from_word(w), data })
}

/// Builds the packet of a response, as a device would send it.
pub fn encode_response(rsp: &Response) -> (r: Vec<u8>)
    ensures
        r@ == response_packet(rsp.tag, rsp.status, rsp.data@),
{
    let mut r: Vec<u8> = Vec::new();
    push_u32_le(&mut r, rsp.tag);
    push_u32_le(&mut r, status_to_word(rsp.status));
    extend_from(&mut r, rsp.data.as_slice(), 0);
    assert(rsp.data@.subrange(0, rsp.data@.len() as int) =~= rsp.data@);
    r
}

/// Decoding the packet of a response gives back its tag, status and payload.
pub proof fn lemma_response_round_trip(tag: u32, status: CommandResponseStatus, data: Seq<u8>)
    requires
        status_wf(status),
    ensures
        ({
            let p = response_packet(tag, status, data);
            &&& p.len() >= 8
            &&& u32_from_le(p.subrange(0, 4)) == tag
            &&& status_of(u32_from_le(p.subrange(4, 8))) == status
            &&& p.subrange(8, p.len() as int) == data
        }),
{
    let p = response_packet(tag, status, data);
    lemma_u32_le_round_trip(tag);
    lemma_u32_le_round_trip(word_of(status));
    assert(p.subrange(0, 4) =~= u32_le_bytes(tag));
    assert(p.subrange(4, 8) =~= u32_le_bytes(word_of(status)));
    assert(p.subrange(8, p.len() as int) =~= data);
}

/// A request packet starts with its identifier and carries its payload verbatim.
pub proof fn lemma_command_packet_layout(id: u32, data: Seq<u8>)
    ensures
        ({
            let p = command_packet(id, data);
            &&& p.len() == data.len() + 4
            &&& u32_from_le(p.subrange(0, 4)) == id
            &&& p.subrange(4, p.len() as int) == data
        }),
{
    let p = command_packet(id, data);
    lemma_u32_le_round_trip(id);
    assert(p.subrange(0, 4) =~= u32_le_bytes(id));
    assert(p.subrange(4, p.len() as int) =~= data);
}

} // verus!
