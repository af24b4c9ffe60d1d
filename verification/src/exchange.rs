//! Requests to a vhost-user back end and the replies to them.
//!
//! A message is a header of three 32-bit words (request code, flags, payload size) and a payload.
//! An `Exchange` says which transfer over the socket comes next; its owner performs the transfer
//! and reports it back.
use vstd::prelude::*;

use crate::bytes::{decode, encode, Endian};
use crate::error::{refused, Error};

verus! {

/// The number of bytes in a message header.
pub const HEADER_LEN: usize = 12;

/// The flags of a request that asks for no acknowledgement.
pub const REQUEST_FLAGS: u32 = 1;

/// The flags of a request that asks for an acknowledgement.
pub const ACK_REQUEST_FLAGS: u32 = 9;

/// The flags of a reply.
pub const REPLY_FLAGS: u32 = 5;

/// The payload size of an acknowledgement.
pub const ACK_LEN: u32 = 8;

/// The header of a message, in byte order `e`.
pub open spec fn header(e: Endian, request: u32, flags: u32, size: u32) -> Seq<u8> {
    word(e, request) + word(e, flags) + word(e, size)
}

/// A 32-bit word of a header or a payload.
pub open spec fn word(e: Endian, x: u32) -> Seq<u8> {
    crate::bytes::to_bytes(e, x as nat, 4)
}

/// A whole message. Its size field holds the low 32 bits of the payload's length.
pub open spec fn message(e: Endian, request: u32, flags: u32, data: Seq<u8>) -> Seq<u8> {
    header(e, request, flags, (data.len() % 0x1_0000_0000) as u32) + data
}

/// The length `n` as the 32-bit size field holds it.
pub fn size_field(n: usize) -> (size: u32)
    ensures
        size as nat == n as nat % 0x1_0000_0000,
{
    (n as u64 % 0x1_0000_0000) as u32
}

/// Lays a message out for sending.
pub fn frame(endian: Endian, request: u32, flags: u32, data: &[u8]) -> (bytes: Vec<u8>)
    ensures
        bytes@ == message(endian, request, flags, data@),
{
    let mut bytes: Vec<u8> = encode(endian, request as u64, 4);
    let mut flag_word: Vec<u8> = encode(endian, flags as u64, 4);
    let mut size_word: Vec<u8> = encode(endian, size_field(data.len()) as u64, 4);
    bytes.append(&mut flag_word);
    bytes.append(&mut size_word);
    bytes.extend_from_slice(data);
    assert(bytes@ =~= message(endian, request, flags, data@));
    bytes
}

/// Whether two byte strings are the same.
pub fn same_bytes(a: &[u8], b: &[u8]) -> (same: bool)
    ensures
        same == (a@ == b@),
{
    if a.len() != b.len() {
        return false;
    }
    let mut i: usize = 0;
    while i < a.len()
        invariant
            i <= a@.len() == b@.len(),
            a@.take(i as int) == b@.take(i as int),
        decreases a@.len() - i,
    {
        if a[i] != b[i] {
            return false;
        }
        assert(a@.take(i + 1) =~= a@.take(i as int).push(a@[i as int]));
        assert(b@.take(i + 1) =~= b@.take(i as int).push(b@[i as int]));
        i = i + 1;
    }
    assert(a@.take(i as int) =~= a@ && b@.take(i as int) =~= b@);
    true
}

/// What the sender of a request waits for.
#[derive(Clone, Copy, Debug, PartialEq, Eq, Structural)]
pub enum Expect {
    /// Nothing: the exchange is over once the request is written.
    Nothing,
    /// A reply with a payload of whatever size its header names.
    Data,
    /// A reply whose payload is a 64-bit status.
    Ack,
}

/// One request and the reply to it.
#[derive(Clone, Copy, Debug, PartialEq, Eq, Structural)]
pub enum Exchange {
    /// The request is being written.
    Writing { endian: Endian, request: u32, expect: Expect },
    /// The header of the reply is being read.
    ReadingHeader { endian: Endian, request: u32, expect: Expect },
    /// The `len` bytes of the reply's payload are being read.
    ReadingBody { len: u32 },
    /// Nothing is left to transfer. What was read last is the payload of the reply.
    Done,
}

/// What the header `h` of a reply says to a sender of `request` that expects `expect`: the size
/// of the payload that follows, or why the reply is refused.
pub open spec fn check_header(e: Endian, request: u32, expect: Expect, h: Seq<u8>) -> Result<
    u32,
    Error,
> {
    if h.subrange(0, 4) != word(e, request) {
        Err(crate::error::refusal("wrong reply"))
    } else if h.subrange(4, 8) != word(e, REPLY_FLAGS) {
        Err(crate::error::refusal("wrong flags in reply"))
    } else if expect is Ack && h.subrange(8, 12) != word(e, ACK_LEN) {
        Err(crate::error::refusal("wrong size of ack"))
    } else {
        Ok(crate::bytes::from_bytes(e, h.subrange(8, 12)) as u32)
    }
}

impl Exchange {
    /// The number of bytes to read next, if any.
    pub open spec fn wanted(self) -> Option<usize> {
        match self {
            Exchange::ReadingHeader { .. } => Some(HEADER_LEN),
            Exchange::ReadingBody { len } => Some(len as usize),
            _ => None,
        }
    }

    /// The exchange once its request has been written.
    pub open spec fn after_written(self) -> Exchange {
        match self {
            Exchange::Writing { endian, request, expect } => if expect is Nothing {
                Exchange::Done
            } else {
                Exchange::ReadingHeader { endian, request, expect }
            },
            _ => self,
        }
    }

    /// The exchange once the bytes that it wanted have been read, or why it ends there.
    pub open spec fn after_received(self, bytes: Seq<u8>) -> Result<Exchange, Error> {
        match self {
            Exchange::ReadingHeader { endian, request, expect } => match check_header(
                endian,
                request,
                expect,
                bytes,
            ) {
                Ok(len) => Ok(Exchange::ReadingBody { len }),
                Err(error) => Err(error),
            },
            Exchange::ReadingBody { .. } => Ok(Exchange::Done),
            _ => Ok(self),
        }
    }

    /// Starts a request that is not replied to. Also gives the bytes to write.
    pub fn send_request(endian: Endian, request: u32, data: &[u8]) -> (started: (
        Exchange,
        Vec<u8>,
    ))
        ensures
            started.0 == (Exchange::Writing { endian, request, expect: Expect::Nothing }),
            started.1@ == message(endian, request, REQUEST_FLAGS, data@),
    {
        (
            Exchange::Writing { endian, request, expect: Expect::Nothing },
            frame(endian, request, REQUEST_FLAGS, data),
        )
    }

    /// Starts a request that is replied to with data. Also gives the bytes to write.
    pub fn send_and_recv(endian: Endian, request: u32, data: &[u8]) -> (started: (
        Exchange,
        Vec<u8>,
    ))
        ensures
            started.0 == (Exchange::Writing { endian, request, expect: Expect::Data }),
            started.1@ == message(endian, request, REQUEST_FLAGS, data@),
    {
        (
            Exchange::Writing { endian, request, expect: Expect::Data },
            frame(endian, request, REQUEST_FLAGS, data),
        )
    }

    /// Starts a request that is replied to with a status. Also gives the bytes to write.
    pub fn send_and_ack(endian: Endian, request: u32, data: &[u8]) -> (started: (
        Exchange,
        Vec<u8>,
    ))
        ensures
            started.0 == (Exchange::Writing { endian, request, expect: Expect::Ack }),
            started.1@ == message(endian, request, ACK_REQUEST_FLAGS, data@),
    {
        (
            Exchange::Writing { endian, request, expect: Expect::Ack },
            frame(endian, request, ACK_REQUEST_FLAGS, data),
        )
    }

    /// How many bytes to read next; `None` when nothing is to be read.
    pub fn wants(&self) -> (n: Option<usize>)
        ensures
            n == self.wanted(),
    {
        match self {
            Exchange::ReadingHeader { .. } => Some(HEADER_LEN),
            Exchange::ReadingBody { len } => Some(*len as usize),
            _ => None,
        }
    }

    /// Moves on after the request was written.
    pub fn written(self) -> (next: Exchange)
        requires
            self is Writing,
        ensures
            next == self.after_written(),
    {
        match self {
            Exchange::Writing { endian, request, expect } => match expect {
                Expect::Nothing => Exchange::Done,
                _ => Exchange::ReadingHeader { endian, request, expect },
            },
            _ => self,
        }
    }

    /// Moves on after the wanted bytes were read.
    pub fn received(self, bytes: &[u8]) -> (next: Result<Exchange, Error>)
        requires
            self.wanted() == Some(bytes.len()),
        ensures
            next == self.after_received(bytes@),
    {
        match self {
            Exchange::ReadingHeader { endian, request, expect } => {
                match reply_size(endian, request, expect, bytes) {
                    Ok(len) => Ok(Exchange::ReadingBody { len }),
                    Err(error) => Err(error),
                }
            },
            Exchange::ReadingBody { .. } => Ok(Exchange::Done),
            _ => Ok(self),
        }
    }
}

/// Reads the header of a reply: the size of its payload, or why the reply is refused.
pub fn reply_size(endian: Endian, request: u32, expect: Expect, hdr: &[u8]) -> (size: Result<
    u32,
    Error,
>)
    requires
        hdr@.len() == HEADER_LEN,
    ensures
        size == check_header(endian, request, expect, hdr@),
{
    if !same_bytes(&hdr[0..4], encode(endian, request as u64, 4).as_slice()) {
        return Err(refused("wrong reply"));
    }
    if !same_bytes(&hdr[4..8], encode(endian, REPLY_FLAGS as u64, 4).as_slice()) {
        return Err(refused("wrong flags in reply"));
    }
    let acked: bool = same_bytes(&hdr[8..12], encode(endian, ACK_LEN as u64, 4).as_slice());
    match expect {
        Expect::Ack => if !acked {
            return Err(refused("wrong size of ack"));
        },
        _ => {},
    }
    let size: u64 = decode(endian, &hdr[8..12]);
    proof {
        crate::bytes::law_encode_decode(endian, hdr@.subrange(8, 12));
        crate::bytes::lemma_span();
    }
    Ok(size as u32)
}

/// Reads the payload of an acknowledgement: the status that the back end reports.
pub fn ack_status(endian: Endian, body: &[u8]) -> (status: u64)
    requires
        body@.len() == ACK_LEN,
    ensures
        status as nat == crate::bytes::from_bytes(endian, body@),
{
    decode(endian, body)
}

proof fn lemma_word(e: Endian, a: u32, b: u32)
    ensures
        word(e, a).len() == 4,
        word(e, a) == word(e, b) <==> a == b,
        crate::bytes::from_bytes(e, word(e, a)) == a,
{
    crate::bytes::lemma_span();
    crate::bytes::lemma_to_bytes_len(e, a as nat, 4);
    crate::bytes::law_decode_encode(e, a as nat, 4);
    crate::bytes::law_decode_encode(e, b as nat, 4);
}

proof fn lemma_header_fields(e: Endian, request: u32, flags: u32, size: u32)
    ensures
        header(e, request, flags, size).len() == HEADER_LEN,
        header(e, request, flags, size).subrange(0, 4) == word(e, request),
        header(e, request, flags, size).subrange(4, 8) == word(e, flags),
        header(e, request, flags, size).subrange(8, 12) == word(e, size),
{
    let h = header(e, request, flags, size);
    lemma_word(e, request, request);
    lemma_word(e, flags, flags);
    lemma_word(e, size, size);
    assert(h.subrange(0, 4) =~= word(e, request));
    assert(h.subrange(4, 8) =~= word(e, flags));
    assert(h.subrange(8, 12) =~= word(e, size));
}

/// The bytes of a word are the word `x` exactly when they decode to `x`.
pub proof fn lemma_word_read(e: Endian, bytes: Seq<u8>, x: u32)
    requires
        bytes.len() == 4,
    ensures
        bytes == word(e, x) <==> crate::bytes::from_bytes(e, bytes) == x,
        crate::bytes::from_bytes(e, bytes) < 0x1_0000_0000,
{
    crate::bytes::lemma_span();
    crate::bytes::law_encode_decode(e, bytes);
    lemma_word(e, x, x);
}

/// Where a message holds what. For every request code, all flags and every payload: twelve bytes
/// stand in front of the payload, and in the message's byte order the first four decode to the
/// request code, the next four to the flags and the last four to the payload's length, modulo
/// 2^32. Of a shorter payload that is the length itself.
pub proof fn law_message_layout(e: Endian, request: u32, flags: u32, data: Seq<u8>)
    ensures
        ({
            let bytes = message(e, request, flags, data);
            &&& bytes.len() == 12 + data.len()
            &&& crate::bytes::from_bytes(e, bytes.subrange(0, 4)) == request
            &&& crate::bytes::from_bytes(e, bytes.subrange(4, 8)) == flags
            &&& crate::bytes::from_bytes(e, bytes.subrange(8, 12)) == data.len() % 0x1_0000_0000
            &&& data.len() < 0x1_0000_0000 ==> crate::bytes::from_bytes(e, bytes.subrange(8, 12))
                == data.len()
            &&& bytes.skip(12) == data
        }),
{
    let bytes = message(e, request, flags, data);
    let size: u32 = (data.len() % 0x1_0000_0000) as u32;
    lemma_header_fields(e, request, flags, size);
    lemma_word(e, request, request);
    lemma_word(e, flags, flags);
    lemma_word(e, size, size);
    let h = header(e, request, flags, size);
    assert(bytes.subrange(0, 4) =~= h.subrange(0, 4));
    assert(bytes.subrange(4, 8) =~= h.subrange(4, 8));
    assert(bytes.subrange(8, 12) =~= h.subrange(8, 12));
    assert(bytes.skip(12) =~= data);
}

/// A message in front of other bytes can be cut off by the size that it names: that many bytes
/// after the first twelve are its payload, and what follows them is what stood behind it.
pub proof fn law_message_can_be_cut_off(
    e: Endian,
    request: u32,
    flags: u32,
    data: Seq<u8>,
    rest: Seq<u8>,
)
    requires
        data.len() < 0x1_0000_0000,
    ensures
        ({
            let stream = message(e, request, flags, data) + rest;
            let size = crate::bytes::from_bytes(e, stream.subrange(8, 12)) as int;
            &&& stream.subrange(12, 12 + size) == data
            &&& stream.skip(12 + size) == rest
        }),
{
    let bytes = message(e, request, flags, data);
    let stream = bytes + rest;
    law_message_layout(e, request, flags, data);
    assert(stream.subrange(8, 12) =~= bytes.subrange(8, 12));
    assert(stream.subrange(12, 12 + data.len() as int) =~= bytes.skip(12));
    assert(stream.skip(12 + data.len() as int) =~= rest);
}

/// Which twelve bytes a sender of `request` takes for the header of its reply, by what their three
/// words decode to: those that hold the request's own code, the flags 5 and, where a status is
/// awaited, the size 8. The payload that follows then has the size that the last word decodes to.
/// Of a header that is refused, the first word that is wrong gives the reason.
pub proof fn law_reply_header_taken(e: Endian, request: u32, expect: Expect, h: Seq<u8>)
    requires
        h.len() == 12,
    ensures
        ({
            let code = crate::bytes::from_bytes(e, h.subrange(0, 4));
            let flags = crate::bytes::from_bytes(e, h.subrange(4, 8));
            let size = crate::bytes::from_bytes(e, h.subrange(8, 12));
            let checked = check_header(e, request, expect, h);
            &&& checked is Ok <==> code == request && flags == 5 && (expect == Expect::Ack ==> size
                == 8)
            &&& checked is Ok ==> checked->Ok_0 == size
            &&& checked is Err && code != request ==> checked->Err_0 == crate::error::refusal(
                "wrong reply",
            )
            &&& checked is Err && code == request && flags != 5 ==> checked->Err_0
                == crate::error::refusal("wrong flags in reply")
            &&& checked is Err && code == request && flags == 5 ==> checked->Err_0
                == crate::error::refusal("wrong size of ack")
        }),
{
    lemma_word_read(e, h.subrange(0, 4), request);
    lemma_word_read(e, h.subrange(4, 8), 5);
    lemma_word_read(e, h.subrange(8, 12), 8);
}

/// The course of every exchange. A request that awaits nothing is over once it is written. Any
/// other reads twelve bytes, and when these are a header that it takes, as many bytes as their
/// last word says, and is then over; else it ends with the reason why they are refused. Nothing is
/// read before the request is written, nor after the end.
pub proof fn law_exchange_course(
    e: Endian,
    request: u32,
    expect: Expect,
    h: Seq<u8>,
    body: Seq<u8>,
)
    requires
        h.len() == 12,
    ensures
        ({
            let started = Exchange::Writing { endian: e, request, expect };
            let written = started.after_written();
            let size = crate::bytes::from_bytes(e, h.subrange(8, 12));
            &&& started.wanted() is None
            &&& expect == Expect::Nothing ==> written == Exchange::Done
            &&& expect != Expect::Nothing ==> written.wanted() == Some(12usize)
            &&& expect != Expect::Nothing ==> match check_header(e, request, expect, h) {
                Ok(_) => {
                    &&& written.after_received(h) is Ok
                    &&& written.after_received(h)->Ok_0.wanted() is Some
                    &&& written.after_received(h)->Ok_0.wanted()->Some_0 == size
                    &&& written.after_received(h)->Ok_0.after_received(body) == Ok::<
                        Exchange,
                        Error,
                    >(Exchange::Done)
                },
                Err(error) => written.after_received(h) == Err::<Exchange, Error>(error),
            }
            &&& Exchange::Done.wanted() is None
            &&& Exchange::Done.after_written() == Exchange::Done
            &&& Exchange::Done.after_received(body) == Ok::<Exchange, Error>(Exchange::Done)
        }),
{
    law_reply_header_taken(e, request, expect, h);
    lemma_word_read(e, h.subrange(8, 12), 8);
}

/// A reply to the request that was sent reaches the sender: of the message that a back end sends
/// with the reply flags, the sender reads the header, then exactly the payload, and is done. A
/// sender that waits for a status takes a payload of eight bytes only.
pub proof fn law_reply_delivered(e: Endian, request: u32, expect: Expect, body: Seq<u8>)
    requires
        body.len() < 0x1_0000_0000,
        expect is Data || expect is Ack && body.len() == ACK_LEN,
    ensures
        ({
            let reply = message(e, request, REPLY_FLAGS, body);
            let sent = Exchange::Writing { endian: e, request, expect };
            let reading = Exchange::ReadingBody { len: body.len() as u32 };
            &&& sent.after_written().wanted() == Some(HEADER_LEN)
            &&& sent.after_written().after_received(reply.take(HEADER_LEN as int)) == Ok::<
                Exchange,
                Error,
            >(reading)
            &&& reading.wanted() == Some(body.len() as usize)
            &&& reply.skip(HEADER_LEN as int) == body
            &&& reading.after_received(body) == Ok::<Exchange, Error>(Exchange::Done)
        }),
{
    let size: u32 = body.len() as u32;
    let reply = message(e, request, REPLY_FLAGS, body);
    lemma_header_fields(e, request, REPLY_FLAGS, size);
    lemma_word(e, size, ACK_LEN);
    assert(reply.take(HEADER_LEN as int) =~= header(e, request, REPLY_FLAGS, size));
    assert(reply.skip(HEADER_LEN as int) =~= body);
}

/// A message is refused as a reply to `request` when it carries another request code, whatever
/// else it holds; when it carries other flags than a reply's; and, by a sender that waits for a
/// status, when it names a payload of another size.
pub proof fn law_stray_message_refused(
    e: Endian,
    request: u32,
    expect: Expect,
    code: u32,
    flags: u32,
    size: u32,
)
    ensures
        ({
            let checked = check_header(e, request, expect, header(e, code, flags, size));
            &&& code != request ==> checked == Err::<u32, Error>(
                crate::error::refusal("wrong reply"),
            )
            &&& code == request && flags != REPLY_FLAGS ==> checked == Err::<u32, Error>(
                crate::error::refusal("wrong flags in reply"),
            )
            &&& code == request && flags == REPLY_FLAGS && expect is Ack && size != ACK_LEN
                ==> checked == Err::<u32, Error>(crate::error::refusal("wrong size of ack"))
            &&& code == request && flags == REPLY_FLAGS && (expect is Ack ==> size == ACK_LEN)
                ==> checked == Ok::<u32, Error>(size)
        }),
{
    lemma_header_fields(e, code, flags, size);
    lemma_word(e, code, request);
    lemma_word(e, flags, REPLY_FLAGS);
    lemma_word(e, size, ACK_LEN);
}

/// A message says what it was made from: no two requests, flags or payloads give the same bytes.
pub proof fn law_message_unambiguous(
    e: Endian,
    request: u32,
    flags: u32,
    data: Seq<u8>,
    other_request: u32,
    other_flags: u32,
    other_data: Seq<u8>,
)
    requires
        message(e, request, flags, data) == message(e, other_request, other_flags, other_data),
    ensures
        request == other_request,
        flags == other_flags,
        data == other_data,
{
    let bytes = message(e, request, flags, data);
    let size: u32 = (data.len() % 0x1_0000_0000) as u32;
    let other_size: u32 = (other_data.len() % 0x1_0000_0000) as u32;
    lemma_header_fields(e, request, flags, size);
    lemma_header_fields(e, other_request, other_flags, other_size);
    lemma_word(e, request, other_request);
    lemma_word(e, flags, other_flags);
    assert(bytes.take(HEADER_LEN as int) =~= header(e, request, flags, size));
    assert(bytes.take(HEADER_LEN as int) =~= header(e, other_request, other_flags, other_size));
    assert(bytes.skip(HEADER_LEN as int) =~= data);
    assert(bytes.skip(HEADER_LEN as int) =~= other_data);
}

/// No request is taken for a reply: the flags of both kinds of request differ from a reply's.
pub proof fn law_request_is_no_reply(e: Endian, request: u32, expect: Expect, size: u32)
    ensures
        check_header(e, request, expect, header(e, request, REQUEST_FLAGS, size)) is Err,
        check_header(e, request, expect, header(e, request, ACK_REQUEST_FLAGS, size)) is Err,
{
    law_stray_message_refused(e, request, expect, request, REQUEST_FLAGS, size);
    law_stray_message_refused(e, request, expect, request, ACK_REQUEST_FLAGS, size);
}

/// What the three ways to send a request have in common and where they differ, for every request
/// and payload. The bytes to write hold the request's code, the payload's length and the payload.
/// Their flags decode to 1, or to 9 where a status is awaited. Only a request that is not replied
/// to is over once it is written; the others go on to read a header.
pub proof fn law_ways_to_send(
    e: Endian,
    request: u32,
    data: &[u8],
    sent: (Exchange, Vec<u8>),
    answered: (Exchange, Vec<u8>),
    acknowledged: (Exchange, Vec<u8>),
)
    requires
        call_ensures(Exchange::send_request, (e, request, data), sent),
        call_ensures(Exchange::send_and_recv, (e, request, data), answered),
        call_ensures(Exchange::send_and_ack, (e, request, data), acknowledged),
    ensures
        crate::bytes::from_bytes(e, sent.1@.subrange(0, 4)) == request,
        crate::bytes::from_bytes(e, sent.1@.subrange(4, 8)) == 1,
        crate::bytes::from_bytes(e, sent.1@.subrange(8, 12)) == data@.len() % 0x1_0000_0000,
        sent.1@.skip(12) == data@,
        answered.1@ == sent.1@,
        acknowledged.1@.len() == sent.1@.len(),
        crate::bytes::from_bytes(e, acknowledged.1@.subrange(4, 8)) == 9,
        acknowledged.1@.take(4) == sent.1@.take(4),
        acknowledged.1@.skip(8) == sent.1@.skip(8),
        sent.0.after_written() == Exchange::Done,
        answered.0.after_written().wanted() == Some(12usize),
        acknowledged.0.after_written().wanted() == Some(12usize),
{
    let size: u32 = (data@.len() % 0x1_0000_0000) as u32;
    law_message_layout(e, request, 1, data@);
    law_message_layout(e, request, 9, data@);
    lemma_word(e, request, request);
    lemma_word(e, 1, 9);
    lemma_word(e, 9, 9);
    lemma_word(e, size, size);
    assert(acknowledged.1@.take(4) =~= sent.1@.take(4));
    assert(acknowledged.1@.skip(8) =~= sent.1@.skip(8));
}

/// Which replies an answered and an acknowledged request take: both only such as carry the
/// request's own code and the flags 5; the answered one with a payload of any size, the
/// acknowledged one with a payload of eight bytes only.
pub proof fn law_awaited_replies(
    e: Endian,
    request: u32,
    data: &[u8],
    answered: (Exchange, Vec<u8>),
    acknowledged: (Exchange, Vec<u8>),
    h: Seq<u8>,
)
    requires
        call_ensures(Exchange::send_and_recv, (e, request, data), answered),
        call_ensures(Exchange::send_and_ack, (e, request, data), acknowledged),
        h.len() == 12,
    ensures
        ({
            let ours = crate::bytes::from_bytes(e, h.subrange(0, 4)) == request
                && crate::bytes::from_bytes(e, h.subrange(4, 8)) == 5;
            let size = crate::bytes::from_bytes(e, h.subrange(8, 12));
            &&& answered.0.after_written().after_received(h) is Ok <==> ours
            &&& acknowledged.0.after_written().after_received(h) is Ok <==> ours && size == 8
            &&& answered.0.after_written().after_received(h) matches Ok(reading) ==> (
            reading.wanted() matches Some(n) && n == size)
            &&& acknowledged.0.after_written().after_received(h) matches Ok(reading) ==> (
            reading.wanted() matches Some(n) && n == 8)
        }),
{
    law_reply_header_taken(e, request, Expect::Data, h);
    law_reply_header_taken(e, request, Expect::Ack, h);
    law_exchange_course(e, request, Expect::Data, h, h);
    law_exchange_course(e, request, Expect::Ack, h, h);
}

} // verus!
