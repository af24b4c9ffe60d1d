//! The requests that a generic device sends to its back end: their codes, the payloads that go
//! with them, and what the payloads of the replies mean.
use vstd::prelude::*;

use crate::bytes::{decode, encode, Endian};
use crate::error::{refused, Error};
use crate::exchange::{same_bytes, size_field};

verus! {

pub const GET_FEATURES: u32 = 1;

pub const SET_OWNER: u32 = 3;

pub const GET_PROTOCOL_FEATURES: u32 = 15;

pub const SET_PROTOCOL_FEATURES: u32 = 16;

pub const GET_CONFIG: u32 = 24;

pub const SET_CONFIG: u32 = 25;

pub const SET_STATUS: u32 = 39;

// The discovery requests, which are an extension of the protocol.

/// Asks for the device's type; answered with a 64-bit integer.
pub const DEVICE_ID: u32 = 5057;

/// Asks for the size of the configuration space; answered with a 64-bit integer.
pub const CONFIG_SIZE: u32 = 5058;

/// Asks for the number of queues; answered with a 64-bit integer.
pub const QUEUE_NUM: u32 = 5059;

/// Asks for the size of one queue; asked and answered with a queue number and a size.
pub const QUEUE_SIZE: u32 = 5060;

/// The number of bytes in front of the data of a configuration request or reply.
pub const CONFIG_HEADER_LEN: usize = 12;

/// `n` zero bytes.
pub open spec fn zeros(n: nat) -> Seq<u8> {
    Seq::new(n, |i: int| 0u8)
}

/// What a reply that should hold a 64-bit integer says.
pub open spec fn u64_in_reply(e: Endian, reply: Seq<u8>) -> Result<u64, Error> {
    if reply.len() == 8 {
        Ok(crate::bytes::from_bytes(e, reply) as u64)
    } else {
        Err(crate::error::refusal("wrong reply, expected u64"))
    }
}

/// The payload that asks for the size of queue `vqn`.
pub open spec fn queue_size_payload(e: Endian, vqn: u32) -> Seq<u8> {
    crate::exchange::word(e, vqn) + zeros(4)
}

/// What a reply says of the size of queue `vqn`. Sizes are kept modulo 2^16.
pub open spec fn queue_size_in_reply(e: Endian, vqn: u32, reply: Seq<u8>) -> Result<u16, Error> {
    if reply.len() != 8 {
        Err(crate::error::refusal("wrong reply size"))
    } else if reply.subrange(0, 4) != crate::exchange::word(e, vqn) {
        Err(crate::error::refusal("wrong queue num in reply"))
    } else {
        Ok((crate::bytes::from_bytes(e, reply.subrange(4, 8)) % 0x1_0000) as u16)
    }
}

/// The words in front of `len` bytes of configuration space that start at `offset`.
pub open spec fn config_header(e: Endian, offset: u32, len: nat) -> Seq<u8> {
    crate::exchange::word(e, offset) + crate::exchange::word(e, (len % 0x1_0000_0000) as u32)
        + zeros(4)
}

/// The payload that reads `len` bytes of configuration space at `offset`.
pub open spec fn get_config_payload(e: Endian, offset: u32, len: nat) -> Seq<u8> {
    config_header(e, offset, len) + zeros(len)
}

/// The payload that writes `data` to the configuration space at `offset`.
pub open spec fn set_config_payload(e: Endian, offset: u32, data: Seq<u8>) -> Seq<u8> {
    config_header(e, offset, data.len()) + data
}

/// What a reply says of the `len` bytes of configuration space at `offset`.
pub open spec fn config_in_reply(e: Endian, offset: u32, len: nat, reply: Seq<u8>) -> Result<
    Seq<u8>,
    Error,
> {
    if reply.len() != CONFIG_HEADER_LEN + len {
        Err(crate::error::refusal("wrong reply size"))
    } else if reply.take(CONFIG_HEADER_LEN as int) != config_header(e, offset, len) {
        Err(crate::error::refusal("wrong config offset/size/flags in reply"))
    } else {
        Ok(reply.skip(CONFIG_HEADER_LEN as int))
    }
}

/// Reads the reply to a request for a 64-bit integer.
pub fn get_u64(endian: Endian, reply: &[u8]) -> (x: Result<u64, Error>)
    ensures
        x == u64_in_reply(endian, reply@),
{
    if reply.len() == 8 {
        Ok(decode(endian, reply))
    } else {
        Err(refused("wrong reply, expected u64"))
    }
}

/// Lays out the request for the size of queue `vqn`.
pub fn queue_size_request(endian: Endian, vqn: u32) -> (payload: Vec<u8>)
    ensures
        payload@ == queue_size_payload(endian, vqn),
{
    let mut payload: Vec<u8> = encode(endian, vqn as u64, 4);
    push_zeros(&mut payload, 4);
    payload
}

/// Reads the reply to the request for the size of queue `vqn`.
pub fn get_queue_size(endian: Endian, vqn: u32, reply: &[u8]) -> (size: Result<u16, Error>)
    ensures
        size == queue_size_in_reply(endian, vqn, reply@),
{
    if reply.len() != 8 {
        Err(refused("wrong reply size"))
    } else if !same_bytes(&reply[0..4], encode(endian, vqn as u64, 4).as_slice()) {
        Err(refused("wrong queue num in reply"))
    } else {
        let size: u64 = decode(endian, &reply[4..8]);
        Ok((size % 0x1_0000) as u16)
    }
}

fn push_zeros(bytes: &mut Vec<u8>, n: usize)
    ensures
        final(bytes)@ == old(bytes)@ + zeros(n as nat),
{
    let mut i: usize = 0;
    while i < n
        invariant
            i <= n,
            bytes@ == old(bytes)@ + zeros(i as nat),
        decreases n - i,
    {
        bytes.push(0);
        i = i + 1;
        assert(bytes@ =~= old(bytes)@ + zeros(i as nat));
    }
    assert(bytes@ =~= old(bytes)@ + zeros(n as nat));
}

fn config_words(endian: Endian, offset: u32, len: usize) -> (words: Vec<u8>)
    ensures
        words@ == config_header(endian, offset, len as nat),
        words@.len() == CONFIG_HEADER_LEN,
{
    let mut words: Vec<u8> = encode(endian, offset as u64, 4);
    let mut len_word: Vec<u8> = encode(endian, size_field(len) as u64, 4);
    words.append(&mut len_word);
    push_zeros(&mut words, 4);
    words
}

/// Lays out the request to read `len` bytes of configuration space at `offset`.
pub fn get_config_request(endian: Endian, offset: u32, len: usize) -> (payload: Vec<u8>)
    requires
        CONFIG_HEADER_LEN + len <= usize::MAX,
    ensures
        payload@ == get_config_payload(endian, offset, len as nat),
{
    let mut payload: Vec<u8> = config_words(endian, offset, len);
    push_zeros(&mut payload, len);
    payload
}

/// Reads the reply to the request to read `len` bytes of configuration space at `offset`.
pub fn get_config(endian: Endian, offset: u32, len: usize, reply: &[u8]) -> (data: Result<
    Vec<u8>,
    Error,
>)
    requires
        CONFIG_HEADER_LEN + len <= usize::MAX,
    ensures
        match data {
            Ok(bytes) => config_in_reply(endian, offset, len as nat, reply@) == Ok::<
                Seq<u8>,
                Error,
            >(bytes@),
            Err(error) => config_in_reply(endian, offset, len as nat, reply@) == Err::<
                Seq<u8>,
                Error,
            >(error),
        },
{
    if reply.len() != CONFIG_HEADER_LEN + len {
        return Err(refused("wrong reply size"));
    }
    let words: Vec<u8> = config_words(endian, offset, len);
    assert(reply@.subrange(0, 12) =~= reply@.take(CONFIG_HEADER_LEN as int));
    if !same_bytes(&reply[0..CONFIG_HEADER_LEN], words.as_slice()) {
        return Err(refused("wrong config offset/size/flags in reply"));
    }
    let mut data: Vec<u8> = Vec::new();
    data.extend_from_slice(&reply[CONFIG_HEADER_LEN..reply.len()]);
    assert(data@ =~= reply@.skip(CONFIG_HEADER_LEN as int));
    Ok(data)
}

/// Lays out the request to write `data` to the configuration space at `offset`.
pub fn set_config(endian: Endian, offset: u32, data: &[u8]) -> (payload: Vec<u8>)
    requires
        CONFIG_HEADER_LEN + data@.len() <= usize::MAX,
    ensures
        payload@ == set_config_payload(endian, offset, data@),
{
    let mut payload: Vec<u8> = config_words(endian, offset, data.len());
    payload.extend_from_slice(data);
    assert(payload@ =~= set_config_payload(endian, offset, data@));
    payload
}

/// A back end's 64-bit answer is read as the number that it sent.
pub proof fn law_u64_read_back(e: Endian, x: u64)
    ensures
        u64_in_reply(e, crate::bytes::to_bytes(e, x as nat, 8)) == Ok::<u64, Error>(x),
{
    crate::bytes::lemma_span();
    crate::bytes::lemma_to_bytes_len(e, x as nat, 8);
    crate::bytes::law_decode_encode(e, x as nat, 8);
}

/// A back end's answer with a queue number and a size is read as that size, modulo 2^16, by who
/// asked for that queue, and refused by who asked for another.
pub proof fn law_queue_size_read_back(e: Endian, vqn: u32, answered: u32, size: u32)
    ensures
        queue_size_in_reply(
            e,
            vqn,
            crate::exchange::word(e, answered) + crate::exchange::word(e, size),
        ) == if answered == vqn {
            Ok::<u16, Error>((size % 0x1_0000) as u16)
        } else {
            Err(crate::error::refusal("wrong queue num in reply"))
        },
{
    let reply = crate::exchange::word(e, answered) + crate::exchange::word(e, size);
    crate::bytes::lemma_span();
    crate::bytes::lemma_to_bytes_len(e, answered as nat, 4);
    crate::bytes::lemma_to_bytes_len(e, size as nat, 4);
    crate::bytes::law_decode_encode(e, answered as nat, 4);
    crate::bytes::law_decode_encode(e, vqn as nat, 4);
    crate::bytes::law_decode_encode(e, size as nat, 4);
    assert(reply.subrange(0, 4) =~= crate::exchange::word(e, answered));
    assert(reply.subrange(4, 8) =~= crate::exchange::word(e, size));
}

/// The words in front of configuration data, for every offset, zero among them, and every length:
/// the first decodes to the offset, the second to the length modulo 2^32, and the third is zero.
pub proof fn law_config_words(e: Endian, offset: u32, len: nat)
    ensures
        ({
            let words = config_header(e, offset, len);
            &&& words.len() == 12
            &&& crate::bytes::from_bytes(e, words.subrange(0, 4)) == offset
            &&& crate::bytes::from_bytes(e, words.subrange(4, 8)) == len % 0x1_0000_0000
            &&& words[8] == 0 && words[9] == 0 && words[10] == 0 && words[11] == 0
        }),
{
    let words = config_header(e, offset, len);
    let low: u32 = (len % 0x1_0000_0000) as u32;
    crate::bytes::lemma_to_bytes_len(e, offset as nat, 4);
    crate::bytes::lemma_to_bytes_len(e, low as nat, 4);
    assert(words.subrange(0, 4) =~= crate::exchange::word(e, offset));
    assert(words.subrange(4, 8) =~= crate::exchange::word(e, low));
    crate::exchange::lemma_word_read(e, words.subrange(0, 4), offset);
    crate::exchange::lemma_word_read(e, words.subrange(4, 8), low);
}

/// The payload of a configuration write, for every offset and all data: twelve bytes in front of
/// the data, of which the first four decode to the offset, the next four to the number of bytes
/// written, modulo 2^32, and the last four are zero.
pub proof fn law_config_write_layout(e: Endian, offset: u32, data: Seq<u8>)
    ensures
        ({
            let payload = set_config_payload(e, offset, data);
            &&& payload.len() == 12 + data.len()
            &&& crate::bytes::from_bytes(e, payload.subrange(0, 4)) == offset
            &&& crate::bytes::from_bytes(e, payload.subrange(4, 8)) == data.len() % 0x1_0000_0000
            &&& data.len() < 0x1_0000_0000 ==> crate::bytes::from_bytes(e, payload.subrange(4, 8))
                == data.len()
            &&& forall|i: int| 8 <= i < 12 ==> payload[i] == 0
            &&& payload.skip(12) == data
        }),
{
    let payload = set_config_payload(e, offset, data);
    let words = config_header(e, offset, data.len());
    law_config_words(e, offset, data.len());
    assert(payload.subrange(0, 4) =~= words.subrange(0, 4));
    assert(payload.subrange(4, 8) =~= words.subrange(4, 8));
    assert(payload.skip(12) =~= data);
}

/// The payload of a configuration read, for every offset and length: as long as the reply to it,
/// with the offset in the first four bytes, the number of bytes asked for, modulo 2^32, in the
/// next four, and nothing but zeros behind them.
pub proof fn law_config_read_layout(e: Endian, offset: u32, len: nat)
    ensures
        ({
            let payload = get_config_payload(e, offset, len);
            &&& payload.len() == 12 + len
            &&& crate::bytes::from_bytes(e, payload.subrange(0, 4)) == offset
            &&& crate::bytes::from_bytes(e, payload.subrange(4, 8)) == len % 0x1_0000_0000
            &&& len < 0x1_0000_0000 ==> crate::bytes::from_bytes(e, payload.subrange(4, 8)) == len
            &&& forall|i: int| 8 <= i < 12 + len ==> payload[i] == 0
        }),
{
    let payload = get_config_payload(e, offset, len);
    let words = config_header(e, offset, len);
    law_config_words(e, offset, len);
    assert(payload.subrange(0, 4) =~= words.subrange(0, 4));
    assert(payload.subrange(4, 8) =~= words.subrange(4, 8));
}

/// Which replies give configuration data, by what their bytes decode to, for every reply: those of
/// the asked-for length behind twelve bytes whose words decode to the offset, to that length
/// modulo 2^32 and to zero. The data is then all that stands behind these twelve bytes.
pub proof fn law_config_reply_taken(e: Endian, offset: u32, len: nat, reply: Seq<u8>)
    ensures
        ({
            let read = config_in_reply(e, offset, len, reply);
            &&& read is Ok <==> {
                &&& reply.len() == 12 + len
                &&& crate::bytes::from_bytes(e, reply.subrange(0, 4)) == offset
                &&& crate::bytes::from_bytes(e, reply.subrange(4, 8)) == len % 0x1_0000_0000
                &&& crate::bytes::from_bytes(e, reply.subrange(8, 12)) == 0
            }
            &&& read is Ok ==> read->Ok_0.len() == len && (forall|i: int|
                0 <= i < len ==> #[trigger] read->Ok_0[i] == reply[12 + i])
            &&& read is Err && reply.len() != 12 + len ==> read->Err_0 == crate::error::refusal(
                "wrong reply size",
            )
            &&& read is Err && reply.len() == 12 + len ==> read->Err_0 == crate::error::refusal(
                "wrong config offset/size/flags in reply",
            )
        }),
{
    if reply.len() == 12 + len {
        let words = config_header(e, offset, len);
        let given = reply.take(CONFIG_HEADER_LEN as int);
        let low: u32 = (len % 0x1_0000_0000) as u32;
        law_config_words(e, offset, len);
        crate::bytes::lemma_to_bytes_len(e, offset as nat, 4);
        crate::bytes::lemma_to_bytes_len(e, low as nat, 4);
        crate::bytes::lemma_to_bytes_len(e, 0, 4);
        lemma_zero_word(e);
        assert(words.subrange(0, 4) =~= crate::exchange::word(e, offset));
        assert(words.subrange(4, 8) =~= crate::exchange::word(e, low));
        assert(words.subrange(8, 12) =~= zeros(4));
        assert(given.subrange(0, 4) =~= reply.subrange(0, 4));
        assert(given.subrange(4, 8) =~= reply.subrange(4, 8));
        assert(given.subrange(8, 12) =~= reply.subrange(8, 12));
        crate::exchange::lemma_word_read(e, reply.subrange(0, 4), offset);
        crate::exchange::lemma_word_read(e, reply.subrange(4, 8), low);
        crate::exchange::lemma_word_read(e, reply.subrange(8, 12), 0);
        assert(given =~= given.subrange(0, 4) + given.subrange(4, 8) + given.subrange(8, 12));
        assert(words =~= words.subrange(0, 4) + words.subrange(4, 8) + words.subrange(8, 12));
    }
}

proof fn lemma_zero_word(e: Endian)
    ensures
        crate::exchange::word(e, 0) == zeros(4),
{
    reveal_with_fuel(crate::bytes::digits, 5);
    crate::bytes::lemma_to_bytes_len(e, 0, 4);
    assert(crate::bytes::digits(0, 4) =~= zeros(4));
    assert(crate::bytes::digits(0, 4).reverse() =~= zeros(4));
}

/// The request for the size of a queue, for every queue: eight bytes, of which the first four
/// decode to the queue's number and the others are zero.
pub proof fn law_queue_size_request_layout(e: Endian, vqn: u32)
    ensures
        ({
            let payload = queue_size_payload(e, vqn);
            &&& payload.len() == 8
            &&& crate::bytes::from_bytes(e, payload.subrange(0, 4)) == vqn
            &&& payload[4] == 0 && payload[5] == 0 && payload[6] == 0 && payload[7] == 0
        }),
{
    let payload = queue_size_payload(e, vqn);
    crate::bytes::lemma_to_bytes_len(e, vqn as nat, 4);
    assert(payload.subrange(0, 4) =~= crate::exchange::word(e, vqn));
    crate::exchange::lemma_word_read(e, payload.subrange(0, 4), vqn);
}

/// Which replies give the size of a queue, for every reply: those of eight bytes whose first four
/// decode to the queue's number. The size is what the others decode to, modulo 2^16.
pub proof fn law_queue_size_reply_taken(e: Endian, vqn: u32, reply: Seq<u8>)
    ensures
        ({
            let read = queue_size_in_reply(e, vqn, reply);
            &&& read is Ok <==> reply.len() == 8 && crate::bytes::from_bytes(
                e,
                reply.subrange(0, 4),
            ) == vqn
            &&& read is Ok ==> read->Ok_0 == crate::bytes::from_bytes(e, reply.subrange(4, 8))
                % 0x1_0000
            &&& read is Err && reply.len() != 8 ==> read->Err_0 == crate::error::refusal(
                "wrong reply size",
            )
            &&& read is Err && reply.len() == 8 ==> read->Err_0 == crate::error::refusal(
                "wrong queue num in reply",
            )
        }),
{
    if reply.len() == 8 {
        crate::exchange::lemma_word_read(e, reply.subrange(0, 4), vqn);
    }
}

/// Which replies give a 64-bit integer, for every reply: those of eight bytes, and the integer is
/// what they decode to.
pub proof fn law_u64_reply_taken(e: Endian, reply: Seq<u8>)
    ensures
        ({
            let read = u64_in_reply(e, reply);
            &&& read is Ok <==> reply.len() == 8
            &&& read is Ok ==> read->Ok_0 == crate::bytes::from_bytes(e, reply)
            &&& read is Err ==> read->Err_0 == crate::error::refusal("wrong reply, expected u64")
        }),
{
    crate::bytes::lemma_span();
    crate::bytes::law_encode_decode(e, reply);
}

/// A reply that describes another offset in the configuration space is refused, whatever data it
/// holds.
pub proof fn law_config_of_other_offset_refused(
    e: Endian,
    offset: u32,
    other: u32,
    data: Seq<u8>,
)
    requires
        offset != other,
    ensures
        config_in_reply(e, offset, data.len(), set_config_payload(e, other, data)) == Err::<
            Seq<u8>,
            Error,
        >(crate::error::refusal("wrong config offset/size/flags in reply")),
{
    let payload = set_config_payload(e, other, data);
    let len: u32 = (data.len() % 0x1_0000_0000) as u32;
    crate::bytes::lemma_span();
    crate::bytes::lemma_to_bytes_len(e, offset as nat, 4);
    crate::bytes::lemma_to_bytes_len(e, other as nat, 4);
    crate::bytes::lemma_to_bytes_len(e, len as nat, 4);
    crate::bytes::law_decode_encode(e, offset as nat, 4);
    crate::bytes::law_decode_encode(e, other as nat, 4);
    let wanted = config_header(e, offset, data.len());
    let given = config_header(e, other, data.len());
    assert(payload.take(CONFIG_HEADER_LEN as int) =~= given);
    assert(wanted.take(4) =~= crate::exchange::word(e, offset));
    assert(given.take(4) =~= crate::exchange::word(e, other));
}

/// What is written to the configuration space reads back: a back end that answers a read with
/// the payload of the last write at the same offset gives the reader the data of that write.
pub proof fn law_config_read_back(e: Endian, offset: u32, data: Seq<u8>)
    ensures
        config_in_reply(e, offset, data.len(), set_config_payload(e, offset, data)) == Ok::<
            Seq<u8>,
            Error,
        >(data),
{
    let payload = set_config_payload(e, offset, data);
    crate::bytes::lemma_to_bytes_len(e, offset as nat, 4);
    crate::bytes::lemma_to_bytes_len(e, ((data.len() % 0x1_0000_0000) as u32) as nat, 4);
    assert(payload.take(CONFIG_HEADER_LEN as int) =~= config_header(e, offset, data.len()));
    assert(payload.skip(CONFIG_HEADER_LEN as int) =~= data);
}

} // verus!
