//! A device of whatever type its back end says that it is.
use vstd::prelude::*;
use vstd::string::StringExecFns;

use crate::bytes::{encode, Endian};
use crate::copy::copy_at;
use crate::decimal::append_decimal;
use crate::discovery::Discovery;
use crate::error::Error;
use crate::exchange::Exchange;
use crate::front_end::{Activation, FrontEnd};
use crate::requests::{
    get_config, get_config_request, set_config, CONFIG_HEADER_LEN, GET_CONFIG, SET_CONFIG,
    SET_STATUS,
};

verus! {

/// The status of a device that a driver has begun to look at.
pub const STATUS_ACKNOWLEDGED: u64 = 3;

/// The status of a device whose driver runs.
pub const STATUS_DRIVER_OK: u64 = 0xf;

/// A device whose type, queues and configuration space were discovered from its back end.
pub struct GenericDevice<E, W> {
    pub front: FrontEnd<E, W>,
    pub device_id: u32,
    /// The size of the configuration space.
    pub config_len: u64,
}

impl<E, W> GenericDevice<E, W> {
    /// How many bytes of configuration space there are from `offset` on; `None` past its end.
    pub open spec fn config_window(self, offset: u64) -> Option<usize> {
        if offset < self.config_len {
            Some((self.config_len - offset) as usize)
        } else {
            None
        }
    }

    /// Whether an access to the configuration space at `offset` with a buffer of `room` bytes is
    /// one that a message can carry out: the offset fits in 32 bits, and the buffer holds all that
    /// there is from the offset on.
    pub open spec fn config_accessible(self, offset: u64, room: nat) -> bool {
        self.config_window(offset) matches Some(len) ==> {
            &&& offset <= u32::MAX
            &&& len <= room
            &&& CONFIG_HEADER_LEN + len <= usize::MAX
        }
    }

    /// The device that a complete discovery has found.
    pub fn new(discovery: Discovery) -> (device: GenericDevice<E, W>)
        requires
            discovery.stage is Complete,
        ensures
            device.front == FrontEnd::<E, W>::idle(discovery.queue_sizes),
            device.device_id == discovery.device_id,
            device.config_len == discovery.config_len,
    {
        GenericDevice {
            front: FrontEnd::new(discovery.queue_sizes),
            device_id: discovery.device_id,
            config_len: discovery.config_len,
        }
    }

    /// The type of the device.
    pub fn device_type(&self) -> (id: u32)
        ensures
            id == self.device_id,
    {
        self.device_id
    }

    /// The name of the thread that the device's worker runs in.
    pub fn worker_name(&self) -> (name: String)
        ensures
            name@ == "generic "@ + crate::decimal::decimal(self.device_id as nat),
    {
        let mut name: String = String::from_str("generic ");
        append_decimal(&mut name, self.device_id);
        name
    }

    fn window(&self, offset: u64) -> (len: Option<usize>)
        ensures
            len == self.config_window(offset),
    {
        if offset < self.config_len {
            Some((self.config_len - offset) as usize)
        } else {
            None
        }
    }

    /// Starts reading the configuration space from `offset` to its end, into a buffer of `room`
    /// bytes; `None` when `offset` is past the end and there is nothing to read.
    pub fn read_config_request(&self, endian: Endian, offset: u64, room: usize) -> (started: Option<
        (Exchange, Vec<u8>),
    >)
        requires
            self.config_accessible(offset, room as nat),
        ensures
            started is Some <==> self.config_window(offset) is Some,
            started matches Some((exchange, bytes)) ==> self.config_window(offset) matches Some(len)
                && {
                &&& exchange == (Exchange::Writing {
                    endian,
                    request: GET_CONFIG,
                    expect: crate::exchange::Expect::Data,
                })
                &&& bytes@ == crate::exchange::message(
                    endian,
                    GET_CONFIG,
                    crate::exchange::REQUEST_FLAGS,
                    crate::requests::get_config_payload(endian, offset as u32, len as nat),
                )
            },
    {
        match self.window(offset) {
            Some(len) => {
                let payload: Vec<u8> = get_config_request(endian, offset as u32, len);
                Some(Exchange::send_and_recv(endian, GET_CONFIG, payload.as_slice()))
            },
            None => None,
        }
    }

    /// Puts what the reply holds at the front of `data`. A reply that is refused changes nothing.
    pub fn read_config(&self, endian: Endian, offset: u64, reply: &[u8], data: &mut [u8]) -> (outcome:
        Result<(), Error>)
        requires
            self.config_window(offset) is Some,
            self.config_accessible(offset, old(data)@.len()),
        ensures
            self.config_window(offset) matches Some(len) && match outcome {
                Ok(_) => {
                    &&& crate::requests::config_in_reply(
                        endian,
                        offset as u32,
                        len as nat,
                        reply@,
                    ) == Ok::<Seq<u8>, Error>(final(data)@.take(len as int))
                    &&& final(data)@.len() == old(data)@.len()
                    &&& final(data)@.skip(len as int) == old(data)@.skip(len as int)
                },
                Err(error) => {
                    &&& crate::requests::config_in_reply(
                        endian,
                        offset as u32,
                        len as nat,
                        reply@,
                    ) == Err::<Seq<u8>, Error>(error)
                    &&& final(data)@ == old(data)@
                },
            },
    {
        match self.window(offset) {
            Some(len) => match get_config(endian, offset as u32, len, reply) {
                Ok(bytes) => {
                    copy_at(data, 0, bytes.as_slice());
                    assert(data@.take(len as int) =~= bytes@);
                    assert(data@.skip(len as int) =~= old(data)@.skip(len as int));
                    Ok(())
                },
                Err(error) => Err(error),
            },
            None => Ok(()),
        }
    }

    /// Starts writing the configuration space from `offset` to its end with the front of `data`;
    /// `None` when `offset` is past the end and there is nothing to write.
    pub fn write_config(&self, endian: Endian, offset: u64, data: &[u8]) -> (started: Option<
        (Exchange, Vec<u8>),
    >)
        requires
            self.config_accessible(offset, data@.len()),
        ensures
            started is Some <==> self.config_window(offset) is Some,
            started matches Some((exchange, bytes)) ==> self.config_window(offset) matches Some(len)
                && {
                &&& exchange == (Exchange::Writing {
                    endian,
                    request: SET_CONFIG,
                    expect: crate::exchange::Expect::Nothing,
                })
                &&& bytes@ == crate::exchange::message(
                    endian,
                    SET_CONFIG,
                    crate::exchange::REQUEST_FLAGS,
                    crate::requests::set_config_payload(
                        endian,
                        offset as u32,
                        data@.take(len as int),
                    ),
                )
            },
    {
        match self.window(offset) {
            Some(len) => {
                assert(data@.subrange(0, len as int) =~= data@.take(len as int));
                let payload: Vec<u8> = set_config(endian, offset as u32, &data[0..len]);
                Some(Exchange::send_request(endian, SET_CONFIG, payload.as_slice()))
            },
            None => None,
        }
    }

    /// Starts an activation, in the course of which the back end is told that the driver runs.
    pub fn activation(&self) -> (step: Activation)
        ensures
            step == (Activation::Queues { reports_status: true }),
    {
        Activation::Queues { reports_status: true }
    }

    /// Starts a reset.
    pub fn reset(&self) -> (reset: Reset)
        ensures
            reset is Clearing,
    {
        Reset::Clearing
    }

    /// Starts telling the back end that the driver runs.
    pub fn driver_ok_request(&self, endian: Endian) -> (started: (Exchange, Vec<u8>))
        ensures
            started.0 == (Exchange::Writing {
                endian,
                request: SET_STATUS,
                expect: crate::exchange::Expect::Nothing,
            }),
            started.1@ == status_message(
                endian,
                crate::exchange::REQUEST_FLAGS,
                STATUS_DRIVER_OK,
            ),
    {
        let word: Vec<u8> = encode(endian, STATUS_DRIVER_OK, 8);
        Exchange::send_request(endian, SET_STATUS, word.as_slice())
    }
}

/// The message that sets the device's status.
pub open spec fn status_message(e: Endian, flags: u32, status: u64) -> Seq<u8> {
    crate::exchange::message(e, SET_STATUS, flags, crate::bytes::to_bytes(e, status as nat, 8))
}

/// A generic device that is being reset.
#[derive(Clone, Copy, Debug, PartialEq, Eq, Structural)]
pub enum Reset {
    /// The status is being cleared, which the back end acknowledges.
    Clearing,
    /// The status is being set to that of a device that a driver has begun to look at.
    Acknowledging,
    /// The reset is over. `done` tells whether it succeeded.
    Finished { done: bool },
}

impl Reset {
    /// The reset once the transfers of its present stage have succeeded or failed.
    pub open spec fn after(self, succeeded: bool) -> Reset {
        match self {
            Reset::Clearing => if succeeded {
                Reset::Acknowledging
            } else {
                Reset::Finished { done: false }
            },
            Reset::Acknowledging => Reset::Finished { done: succeeded },
            Reset::Finished { .. } => self,
        }
    }

    /// The request to send now, and the bytes to write for it; `None` when there is none left.
    pub fn request(&self, endian: Endian) -> (started: Option<(Exchange, Vec<u8>)>)
        ensures
            match (*self, started) {
                (Reset::Clearing, Some((exchange, bytes))) => {
                    &&& exchange == (Exchange::Writing {
                        endian,
                        request: SET_STATUS,
                        expect: crate::exchange::Expect::Ack,
                    })
                    &&& bytes@ == status_message(endian, crate::exchange::ACK_REQUEST_FLAGS, 0)
                },
                (Reset::Acknowledging, Some((exchange, bytes))) => {
                    &&& exchange == (Exchange::Writing {
                        endian,
                        request: SET_STATUS,
                        expect: crate::exchange::Expect::Nothing,
                    })
                    &&& bytes@ == status_message(
                        endian,
                        crate::exchange::REQUEST_FLAGS,
                        STATUS_ACKNOWLEDGED,
                    )
                },
                (Reset::Finished { .. }, None) => true,
                _ => false,
            },
    {
        match self {
            Reset::Clearing => {
                let word: Vec<u8> = encode(endian, 0, 8);
                Some(Exchange::send_and_ack(endian, SET_STATUS, word.as_slice()))
            },
            Reset::Acknowledging => {
                let word: Vec<u8> = encode(endian, STATUS_ACKNOWLEDGED, 8);
                Some(Exchange::send_request(endian, SET_STATUS, word.as_slice()))
            },
            Reset::Finished { .. } => None,
        }
    }

    /// Moves on after the transfers of the present stage succeeded or failed. The status that
    /// the back end acknowledges with is not looked at.
    pub fn step(self, succeeded: bool) -> (next: Reset)
        ensures
            next == self.after(succeeded),
    {
        match self {
            Reset::Clearing => if succeeded {
                Reset::Acknowledging
            } else {
                Reset::Finished { done: false }
            },
            Reset::Acknowledging => Reset::Finished { done: succeeded },
            Reset::Finished { .. } => self,
        }
    }
}

/// A reset is over after two steps at most, and it succeeds exactly when both do.
pub proof fn law_reset_needs_both_steps(cleared: bool, acknowledged: bool)
    ensures
        Reset::Clearing.after(cleared).after(acknowledged) == (Reset::Finished {
            done: cleared && acknowledged,
        }),
{
}

/// How much of the configuration space an access at an offset transfers, for every offset and every
/// size of the space: from before the end all that is left, so that the offset and what is
/// transferred add up to the size of the space; from the end on nothing.
pub proof fn law_config_window_reaches_the_end<E, W>(device: GenericDevice<E, W>, offset: u64)
    ensures
        device.config_window(offset) is Some <==> offset < device.config_len,
        device.config_window(offset) matches Some(len) ==> {
            &&& device.config_len - offset <= usize::MAX ==> offset + len == device.config_len
            &&& len as int % 0x1_0000_0000 == (device.config_len - offset) % 0x1_0000_0000
        },
{
    let size: u64 = device.config_len;
    if offset < size {
        assert(offset < size ==> ((size - offset) as usize) as int % 0x1_0000_0000 == (size
            - offset) % 0x1_0000_0000) by (bit_vector);
    }
}

/// Two accesses to the same configuration space end at the same place: the one that starts so many
/// bytes later transfers so many bytes less.
pub proof fn law_later_access_transfers_less<E, W>(
    device: GenericDevice<E, W>,
    offset: u64,
    later: u64,
)
    requires
        offset <= later < device.config_len <= usize::MAX,
    ensures
        device.config_window(offset) is Some,
        device.config_window(later) is Some,
        device.config_window(offset)->Some_0 - device.config_window(later)->Some_0 == later
            - offset,
{
}

/// Which accesses a message can carry out: those past the end, which transfer nothing, and those
/// whose offset is below 2^32 and whose buffer holds all that is left from there, as far as a
/// payload of that size can be held in memory.
pub proof fn law_config_access_carried_out<E, W>(
    device: GenericDevice<E, W>,
    offset: u64,
    room: nat,
)
    requires
        device.config_len <= usize::MAX,
    ensures
        device.config_accessible(offset, room) <==> offset >= device.config_len || {
            &&& offset < 0x1_0000_0000
            &&& device.config_len <= offset + room
            &&& 12 + device.config_len - offset <= usize::MAX
        },
{
}

/// What a device asks of its back end to read its configuration space from an offset on, and what
/// it writes there, by the bytes of the messages: code 24 to read and 25 to write, the flags 1,
/// and a payload whose words decode to the offset and to the number of bytes left from there,
/// which for a write are the front of the data.
pub proof fn law_config_messages<E, W>(
    device: GenericDevice<E, W>,
    e: Endian,
    offset: u64,
    data: Seq<u8>,
)
    requires
        offset < device.config_len <= u32::MAX,
        device.config_accessible(offset, data.len()),
    ensures
        ({
            let len = device.config_window(offset)->Some_0;
            let left = device.config_len - offset;
            let read = crate::exchange::message(
                e,
                GET_CONFIG,
                crate::exchange::REQUEST_FLAGS,
                crate::requests::get_config_payload(e, offset as u32, len as nat),
            );
            let write = crate::exchange::message(
                e,
                SET_CONFIG,
                crate::exchange::REQUEST_FLAGS,
                crate::requests::set_config_payload(e, offset as u32, data.take(len as int)),
            );
            &&& read.len() == write.len() == 24 + left
            &&& crate::bytes::from_bytes(e, read.subrange(0, 4)) == 24
            &&& crate::bytes::from_bytes(e, write.subrange(0, 4)) == 25
            &&& crate::bytes::from_bytes(e, read.subrange(4, 8)) == 1
            &&& crate::bytes::from_bytes(e, write.subrange(4, 8)) == 1
            &&& crate::bytes::from_bytes(e, read.subrange(12, 16)) == offset
            &&& crate::bytes::from_bytes(e, write.subrange(12, 16)) == offset
            &&& crate::bytes::from_bytes(e, read.subrange(16, 20)) == left
            &&& crate::bytes::from_bytes(e, write.subrange(16, 20)) == left
            &&& forall|i: int| 20 <= i < read.len() ==> read[i] == 0
            &&& forall|i: int| 20 <= i < 24 ==> write[i] == 0
            &&& forall|i: int| 0 <= i < left ==> #[trigger] data[i] == write[24 + i]
        }),
{
    let len = device.config_window(offset)->Some_0;
    let asked = crate::requests::get_config_payload(e, offset as u32, len as nat);
    let written = crate::requests::set_config_payload(e, offset as u32, data.take(len as int));
    let read = crate::exchange::message(e, GET_CONFIG, crate::exchange::REQUEST_FLAGS, asked);
    let write = crate::exchange::message(e, SET_CONFIG, crate::exchange::REQUEST_FLAGS, written);
    crate::exchange::law_message_layout(e, GET_CONFIG, crate::exchange::REQUEST_FLAGS, asked);
    crate::exchange::law_message_layout(e, SET_CONFIG, crate::exchange::REQUEST_FLAGS, written);
    crate::requests::law_config_read_layout(e, offset as u32, len as nat);
    crate::requests::law_config_write_layout(e, offset as u32, data.take(len as int));
    assert(read.subrange(12, 16) =~= asked.subrange(0, 4));
    assert(write.subrange(12, 16) =~= written.subrange(0, 4));
    assert(read.subrange(16, 20) =~= asked.subrange(4, 8));
    assert(write.subrange(16, 20) =~= written.subrange(4, 8));
    assert forall|i: int| 20 <= i < read.len() implies read[i] == 0 by {
        assert(read[i] == asked[i - 12]);
    }
    assert forall|i: int| 20 <= i < 24 implies write[i] == 0 by {
        assert(write[i] == written[i - 12]);
    }
    assert forall|i: int| 0 <= i < device.config_len - offset implies #[trigger] data[i] == write[24
        + i] by {
        assert(write.skip(12)[12 + i] == written[12 + i]);
        assert(written.skip(12)[i] == data.take(len as int)[i]);
    }
}

/// The message that sets a status, for all flags and every status: twenty bytes, of which the words
/// of the header decode to 39, the flags and eight, and the last eight bytes to the status.
pub proof fn law_status_message_layout(e: Endian, flags: u32, status: u64)
    ensures
        ({
            let bytes = status_message(e, flags, status);
            &&& bytes.len() == 20
            &&& crate::bytes::from_bytes(e, bytes.subrange(0, 4)) == 39
            &&& crate::bytes::from_bytes(e, bytes.subrange(4, 8)) == flags
            &&& crate::bytes::from_bytes(e, bytes.subrange(8, 12)) == 8
            &&& crate::bytes::from_bytes(e, bytes.subrange(12, 20)) == status
        }),
{
    let word = crate::bytes::to_bytes(e, status as nat, 8);
    let bytes = status_message(e, flags, status);
    crate::bytes::lemma_span();
    crate::bytes::lemma_to_bytes_len(e, status as nat, 8);
    crate::bytes::law_decode_encode(e, status as nat, 8);
    crate::exchange::law_message_layout(e, SET_STATUS, flags, word);
    assert(bytes.subrange(12, 20) =~= bytes.skip(12));
}

/// A reset goes on exactly when clearing the status succeeds. A failure ends it at once and without
/// success, and once it is over nothing changes its outcome.
pub proof fn law_reset_stops_at_a_failure(reset: Reset, succeeded: bool)
    ensures
        reset is Clearing ==> (reset.after(succeeded) is Acknowledging <==> succeeded),
        !succeeded && !(reset is Finished) ==> reset.after(succeeded) == (Reset::Finished {
            done: false,
        }),
        reset is Acknowledging && succeeded ==> reset.after(succeeded) == (Reset::Finished {
            done: true,
        }),
        reset is Finished ==> reset.after(succeeded) == reset,
{
}

/// What a device writes to its configuration space is what it reads back from there: when the
/// back end answers a read at `offset` with the payload of the last write at that offset, the
/// reader gets the bytes that were written.
pub proof fn law_written_config_reads_back<E, W>(
    device: GenericDevice<E, W>,
    e: Endian,
    offset: u64,
    data: Seq<u8>,
)
    requires
        device.config_window(offset) is Some,
        device.config_accessible(offset, data.len()),
    ensures
        ({
            let len = device.config_window(offset)->0;
            crate::requests::config_in_reply(
                e,
                offset as u32,
                len as nat,
                crate::requests::set_config_payload(e, offset as u32, data.take(len as int)),
            ) == Ok::<Seq<u8>, Error>(data.take(len as int))
        }),
{
    let len = device.config_window(offset)->0;
    crate::requests::law_config_read_back(e, offset as u32, data.take(len as int));
}

/// A device asks its back end for the configuration space from an offset on exactly when the
/// offset is before the end, and then for every byte that is left from there; it writes exactly
/// these bytes, and takes them from the front of what it is given.
pub proof fn law_config_requests<E, W>(
    device: GenericDevice<E, W>,
    e: Endian,
    offset: u64,
    data: &[u8],
    read: Option<(Exchange, Vec<u8>)>,
    written: Option<(Exchange, Vec<u8>)>,
)
    requires
        device.config_len <= u32::MAX,
        device.config_accessible(offset, data@.len()),
        call_ensures(
            GenericDevice::<E, W>::read_config_request,
            (&device, e, offset, data.len()),
            read,
        ),
        call_ensures(GenericDevice::<E, W>::write_config, (&device, e, offset, data), written),
    ensures
        read is Some <==> offset < device.config_len,
        written is Some <==> offset < device.config_len,
        read matches Some((exchange, bytes)) ==> {
            &&& bytes@.len() == 24 + device.config_len - offset
            &&& crate::bytes::from_bytes(e, bytes@.subrange(0, 4)) == 24
            &&& crate::bytes::from_bytes(e, bytes@.subrange(4, 8)) == 1
            &&& crate::bytes::from_bytes(e, bytes@.subrange(12, 16)) == offset
            &&& crate::bytes::from_bytes(e, bytes@.subrange(16, 20)) == device.config_len - offset
            &&& exchange.after_written().wanted() == Some(12usize)
        },
        written matches Some((exchange, bytes)) ==> {
            &&& bytes@.len() == 24 + device.config_len - offset
            &&& crate::bytes::from_bytes(e, bytes@.subrange(0, 4)) == 25
            &&& crate::bytes::from_bytes(e, bytes@.subrange(4, 8)) == 1
            &&& crate::bytes::from_bytes(e, bytes@.subrange(12, 16)) == offset
            &&& crate::bytes::from_bytes(e, bytes@.subrange(16, 20)) == device.config_len - offset
            &&& bytes@.skip(24) == data@.take(device.config_len - offset)
            &&& exchange.after_written() == Exchange::Done
        },
{
    if offset < device.config_len {
        law_config_messages(device, e, offset, data@);
        if let Some((_, bytes)) = written {
            assert forall|i: int| 0 <= i < device.config_len - offset implies bytes@.skip(24)[i]
                == data@.take(device.config_len - offset)[i] by {
                assert(data@[i] == bytes@[24 + i]);
            }
            assert(bytes@.skip(24) =~= data@.take(device.config_len - offset));
        }
    }
}

/// The statuses that a device reports, by the bytes of the messages: 15 once its driver runs, with
/// nothing awaited. A reset first sets 0 and awaits an acknowledgement, then sets 3 and awaits
/// nothing, and then sends no more.
pub proof fn law_reported_statuses<E, W>(
    device: GenericDevice<E, W>,
    e: Endian,
    running: (Exchange, Vec<u8>),
    cleared: Option<(Exchange, Vec<u8>)>,
    acknowledged: Option<(Exchange, Vec<u8>)>,
    done: bool,
    last: Option<(Exchange, Vec<u8>)>,
)
    requires
        call_ensures(GenericDevice::<E, W>::driver_ok_request, (&device, e), running),
        call_ensures(Reset::request, (&Reset::Clearing, e), cleared),
        call_ensures(Reset::request, (&Reset::Acknowledging, e), acknowledged),
        call_ensures(Reset::request, (&Reset::Finished { done }, e), last),
    ensures
        crate::bytes::from_bytes(e, running.1@.subrange(0, 4)) == 39,
        crate::bytes::from_bytes(e, running.1@.subrange(4, 8)) == 1,
        crate::bytes::from_bytes(e, running.1@.skip(12)) == 15,
        running.0.after_written() == Exchange::Done,
        cleared matches Some((exchange, bytes)) && {
            &&& crate::bytes::from_bytes(e, bytes@.subrange(0, 4)) == 39
            &&& crate::bytes::from_bytes(e, bytes@.subrange(4, 8)) == 9
            &&& crate::bytes::from_bytes(e, bytes@.skip(12)) == 0
            &&& exchange.after_written().wanted() == Some(12usize)
        },
        acknowledged matches Some((exchange, bytes)) && {
            &&& crate::bytes::from_bytes(e, bytes@.subrange(0, 4)) == 39
            &&& crate::bytes::from_bytes(e, bytes@.subrange(4, 8)) == 1
            &&& crate::bytes::from_bytes(e, bytes@.skip(12)) == 3
            &&& exchange.after_written() == Exchange::Done
        },
        last is None,
{
    law_status_message_layout(e, 1, 15);
    law_status_message_layout(e, 9, 0);
    law_status_message_layout(e, 1, 3);
    assert(status_message(e, 1, 15).skip(12) =~= status_message(e, 1, 15).subrange(12, 20));
    assert(status_message(e, 9, 0).skip(12) =~= status_message(e, 9, 0).subrange(12, 20));
    assert(status_message(e, 1, 3).skip(12) =~= status_message(e, 1, 3).subrange(12, 20));
}

/// The activation of a device goes through a status report once its queues are activated, and its
/// reset starts by clearing the status.
pub proof fn law_generic_device_reports<E, W>(
    device: GenericDevice<E, W>,
    step: Activation,
    reset: Reset,
)
    requires
        call_ensures(GenericDevice::<E, W>::activation, (&device,), step),
        call_ensures(GenericDevice::<E, W>::reset, (&device,), reset),
    ensures
        step is Queues,
        step.after_queues(true) is Status,
        reset == Reset::Clearing,
{
}

} // verus!
