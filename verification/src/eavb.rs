//! The front end of an Ethernet audio/video bridging device.
use vstd::prelude::*;

use crate::bytes::{encode, Endian};
use crate::copy::copy_at;
use crate::features::{
    with_feature, HandlerConfig, F_PROTOCOL_FEATURES, PROTOCOL_F_CONFIG, VIRTIO_F_VERSION_1,
    VIRTIO_RING_F_EVENT_IDX,
};
use crate::front_end::{Activation, DeviceReset, FrontEnd, Setup, SetupError, SetupPlan};

verus! {

/// The size of a queue.
pub const QUEUE_SIZE: u16 = 16;

/// The number of queues.
pub const QUEUES: usize = 2;

/// The device has a version in its configuration space.
pub const VIRTIO_EAVB_F_VERSION: u32 = 5;

/// The number of domains is in the configuration space.
pub const VIRTIO_EAVB_F_DOMAIN_NUM: u32 = 6;

/// The queues can be configured.
pub const VIRTIO_EAVB_F_VQUEUE_SETTING: u32 = 7;

/// Memory can be mapped and unmapped.
pub const VIRTIO_EAVB_F_HYBRID: u32 = 9;

/// The version of the configuration space.
pub const VUEAVB_VERSION: u32 = 0x0001_0000;

/// The number of domains.
pub const VUEAVB_DOMAIN_NUM: u32 = 0x0000_0004;

/// The largest buffer that the device takes.
pub const VUEAVB_MAX_BUF_SZ: u32 = 0x0002_0000;

/// The number of bytes in the configuration space.
pub const CONFIG_LEN: usize = 12;

/// The configuration space of the device.
#[allow(non_camel_case_types)]
#[derive(Clone, Copy, Debug, PartialEq, Eq, Structural)]
pub struct vueavb_config_data {
    pub version: u32,
    pub domain_num: u32,
    pub max_buff_size: u32,
}

impl vueavb_config_data {
    /// The configuration space as the driver sees it: its fields in order, each in four bytes with
    /// the least significant first.
    pub open spec fn bytes(self) -> Seq<u8> {
        crate::exchange::word(Endian::Little, self.version) + crate::exchange::word(
            Endian::Little,
            self.domain_num,
        ) + crate::exchange::word(Endian::Little, self.max_buff_size)
    }

    /// Writes the configuration space to `target` at `offset`.
    pub fn copy_cfg_space_at_offset(&self, target: &mut [u8], offset: u64)
        requires
            offset + CONFIG_LEN <= old(target)@.len(),
        ensures
            final(target)@ == crate::copy::overwritten(
                old(target)@,
                offset as int,
                self.bytes(),
            ),
            final(target)@.len() == old(target)@.len(),
    {
        let mut bytes: Vec<u8> = encode(Endian::Little, self.version as u64, 4);
        let mut domain: Vec<u8> = encode(Endian::Little, self.domain_num as u64, 4);
        let mut buffer: Vec<u8> = encode(Endian::Little, self.max_buff_size as u64, 4);
        bytes.append(&mut domain);
        bytes.append(&mut buffer);
        let room: usize = target.len();
        assert(offset <= room);
        copy_at(target, offset as usize, bytes.as_slice());
    }
}

/// The configuration space that every device has.
pub open spec fn config_space() -> vueavb_config_data {
    vueavb_config_data {
        version: VUEAVB_VERSION,
        domain_num: VUEAVB_DOMAIN_NUM,
        max_buff_size: VUEAVB_MAX_BUF_SZ,
    }
}

/// The driver reads each field of a configuration space in its own four bytes, least significant
/// first, whatever the fields are: the version, then the number of domains, then the buffer size,
/// and nothing behind it.
pub proof fn law_config_fields_at_their_places(config: vueavb_config_data)
    ensures
        config.bytes().len() == 12,
        crate::bytes::from_bytes(Endian::Little, config.bytes().subrange(0, 4)) == config.version,
        crate::bytes::from_bytes(Endian::Little, config.bytes().subrange(4, 8))
            == config.domain_num,
        crate::bytes::from_bytes(Endian::Little, config.bytes().subrange(8, 12))
            == config.max_buff_size,
{
    let e = Endian::Little;
    let bytes = config.bytes();
    crate::bytes::lemma_to_bytes_len(e, config.version as nat, 4);
    crate::bytes::lemma_to_bytes_len(e, config.domain_num as nat, 4);
    crate::bytes::lemma_to_bytes_len(e, config.max_buff_size as nat, 4);
    assert(bytes.subrange(0, 4) =~= crate::exchange::word(e, config.version));
    assert(bytes.subrange(4, 8) =~= crate::exchange::word(e, config.domain_num));
    assert(bytes.subrange(8, 12) =~= crate::exchange::word(e, config.max_buff_size));
    crate::exchange::lemma_word_read(e, bytes.subrange(0, 4), config.version);
    crate::exchange::lemma_word_read(e, bytes.subrange(4, 8), config.domain_num);
    crate::exchange::lemma_word_read(e, bytes.subrange(8, 12), config.max_buff_size);
}

/// What a driver reads of the configuration space at any offset into its buffer: version 1.0, four
/// domains, and buffers of 128 KiB at most, and around them what the buffer held before.
pub proof fn law_driver_reads_the_config(data: Seq<u8>, offset: int)
    requires
        0 <= offset,
        offset + 12 <= data.len(),
    ensures
        ({
            let read = crate::copy::overwritten(data, offset, config_space().bytes());
            &&& read.len() == data.len()
            &&& crate::bytes::from_bytes(Endian::Little, read.subrange(offset, offset + 4))
                == 0x1_0000
            &&& crate::bytes::from_bytes(Endian::Little, read.subrange(offset + 4, offset + 8))
                == 4
            &&& crate::bytes::from_bytes(Endian::Little, read.subrange(offset + 8, offset + 12))
                == 0x2_0000
            &&& read.take(offset) == data.take(offset)
            &&& read.skip(offset + 12) == data.skip(offset + 12)
        }),
{
    let bytes = config_space().bytes();
    let read = crate::copy::overwritten(data, offset, bytes);
    law_config_fields_at_their_places(config_space());
    assert(read.subrange(offset, offset + 4) =~= bytes.subrange(0, 4));
    assert(read.subrange(offset + 4, offset + 8) =~= bytes.subrange(4, 8));
    assert(read.subrange(offset + 8, offset + 12) =~= bytes.subrange(8, 12));
    assert(read.take(offset) =~= data.take(offset));
    assert(read.skip(offset + 12) =~= data.skip(offset + 12));
}

/// The front end of the device.
pub struct Eavb<E, W> {
    pub front: FrontEnd<E, W>,
    /// The number by which the transport announces the device's type.
    pub type_number: u32,
}

impl<E, W> Eavb<E, W> {
    /// Starts setting the device up: the features that its driver builds on are acknowledged from
    /// the start, on top of `base_features`, and with them version 1 and event indices may be
    /// offered.
    pub fn setup(base_features: u64) -> (setup: Setup)
        ensures
            setup is Connecting,
            setup.plan().queue_size == QUEUE_SIZE,
            setup.plan().queues == QUEUES,
            setup.plan().handler.queues_num == QUEUES,
            crate::features::features(setup.plan().handler.init_features)
                == crate::features::features(base_features).union(
                set![VIRTIO_EAVB_F_HYBRID as int, VIRTIO_EAVB_F_VERSION as int, VIRTIO_EAVB_F_DOMAIN_NUM as int, VIRTIO_EAVB_F_VQUEUE_SETTING as int, F_PROTOCOL_FEATURES as int],
            ),
            crate::features::features(setup.plan().handler.allow_features)
                == crate::features::features(setup.plan().handler.init_features).union(
                set![VIRTIO_F_VERSION_1 as int, VIRTIO_RING_F_EVENT_IDX as int],
            ),
            crate::features::features(setup.plan().handler.allow_protocol_features) == set![
                PROTOCOL_F_CONFIG as int,
            ],
            setup.plan().handler.coherent(),
    {
        let word0: u64 = with_feature(base_features, VIRTIO_EAVB_F_HYBRID);
        let word1: u64 = with_feature(word0, VIRTIO_EAVB_F_VERSION);
        let word2: u64 = with_feature(word1, VIRTIO_EAVB_F_DOMAIN_NUM);
        let word3: u64 = with_feature(word2, VIRTIO_EAVB_F_VQUEUE_SETTING);
        let init_features: u64 = with_feature(word3, F_PROTOCOL_FEATURES);
        let versioned: u64 = with_feature(init_features, VIRTIO_F_VERSION_1);
        let allow_features: u64 = with_feature(versioned, VIRTIO_RING_F_EVENT_IDX);
        let allow_protocol_features: u64 = with_feature(0, PROTOCOL_F_CONFIG);
        proof {
            crate::features::lemma_no_features();
            assert(crate::features::features(init_features) =~= crate::features::features(
                base_features,
            ).union(set![VIRTIO_EAVB_F_HYBRID as int, VIRTIO_EAVB_F_VERSION as int, VIRTIO_EAVB_F_DOMAIN_NUM as int, VIRTIO_EAVB_F_VQUEUE_SETTING as int, F_PROTOCOL_FEATURES as int]));
            assert(crate::features::features(allow_features) =~= crate::features::features(
                init_features,
            ).union(set![VIRTIO_F_VERSION_1 as int, VIRTIO_RING_F_EVENT_IDX as int]));
            assert(crate::features::features(allow_protocol_features) =~= set![
                PROTOCOL_F_CONFIG as int,
            ]);
        }
        Setup::Connecting(
            SetupPlan {
                handler: HandlerConfig {
                    queues_num: QUEUES as u64,
                    allow_features,
                    init_features,
                    allow_protocol_features,
                },
                queue_size: QUEUE_SIZE,
                queues: QUEUES,
            },
        )
    }

    /// Ends the setup: the device with the queues that its handler named.
    pub fn new<S, H>(
        type_number: u32,
        setup: Setup,
        queue_sizes: Result<Vec<u16>, H>,
    ) -> (device: Result<Eavb<E, W>, SetupError<S, H>>)
        requires
            setup is Sizing,
        ensures
            device == match queue_sizes {
                Ok(sizes) => Ok(
                    Eavb { front: FrontEnd::<E, W>::idle(sizes), type_number },
                ),
                Err(error) => Err(SetupError::<S, H>::Handler(error)),
            },
    {
        match setup.sized(queue_sizes) {
            Ok(front) => Ok(Eavb { front, type_number }),
            Err(error) => Err(error),
        }
    }

    /// The type of the device.
    pub fn device_type(&self) -> (id: u32)
        ensures
            id == self.type_number,
    {
        self.type_number
    }

    /// Starts an activation, in which the back end is not told the device's status.
    pub fn activation(&self) -> (step: Activation)
        ensures
            step == (Activation::Queues { reports_status: false }),
    {
        Activation::Queues { reports_status: false }
    }

    /// Starts a reset, in which the handler resets the device's queues.
    pub fn reset(&self) -> (reset: DeviceReset)
        ensures
            reset == DeviceReset::Pending(
                crate::front_end::ResetAction::Queues { n: self.front.queue_sizes@.len() as usize },
            ),
    {
        self.front.reset_queues()
    }

    /// The name of the thread that the device's worker runs in.
    pub fn worker_name(&self) -> (name: &'static str)
        ensures
            name == "vhost_user_eavb",
    {
        "vhost_user_eavb"
    }

    /// Writes the configuration space to `data` at `offset`.
    pub fn read_config(&self, offset: u64, data: &mut [u8])
        requires
            offset + CONFIG_LEN <= old(data)@.len(),
        ensures
            final(data)@ == crate::copy::overwritten(
                old(data)@,
                offset as int,
                config_space().bytes(),
            ),
    {
        let cspace = vueavb_config_data {
            version: VUEAVB_VERSION,
            domain_num: VUEAVB_DOMAIN_NUM,
            max_buff_size: VUEAVB_MAX_BUF_SZ,
        };
        cspace.copy_cfg_space_at_offset(data, offset);
    }
}

proof fn lemma_acknowledged(n: int)
    ensures
        crate::features::features(0x4000_02e0).contains(n)
            <==> n == 5 || n == 6 || n == 7 || n == 9 || n == 30,
{
    crate::features::law_feature_is_its_bit(0x4000_02e0, 0x4000_02e0, n);
    if 0 <= n < 64 {
        let m: u64 = n as u64;
        assert(m < 64 ==> (0x4000_02e0u64 & (1u64 << m) != 0 <==> m == 5 || m == 6 || m == 7
            || m == 9 || m == 30)) by (bit_vector);
    }
}

proof fn lemma_offered(n: int)
    ensures
        crate::features::features(0x1_6000_02e0).contains(n)
            <==> n == 5 || n == 6 || n == 7 || n == 9 || n == 29 || n == 30 || n == 32,
{
    crate::features::law_feature_is_its_bit(0x1_6000_02e0, 0x1_6000_02e0, n);
    if 0 <= n < 64 {
        let m: u64 = n as u64;
        assert(m < 64 ==> (0x1_6000_02e0u64 & (1u64 << m) != 0 <==> m == 5 || m == 6
            || m == 7 || m == 9 || m == 29 || m == 30 || m == 32)) by (bit_vector);
    }
}

proof fn lemma_protocol(n: int)
    ensures
        crate::features::features(0x200).contains(n) <==> n == 9,
{
    crate::features::law_feature_is_its_bit(0x200, 0x200, n);
    if 0 <= n < 64 {
        let m: u64 = n as u64;
        assert(m < 64 ==> (0x200u64 & (1u64 << m) != 0 <==> m == 9)) by (bit_vector);
    }
}

/// What every setup of the device comes to, in words: to whatever `base_features` holds, five bits
/// are added of what is acknowledged from the start, and two more of what may be offered.
pub proof fn law_setup_words<E, W>(base_features: u64, setup: Setup)
    requires
        call_ensures(Eavb::<E, W>::setup, (base_features,), setup),
    ensures
        setup is Connecting,
        setup.plan().handler.init_features == base_features | 0x4000_02e0,
        setup.plan().handler.allow_features == base_features | 0x1_6000_02e0,
        setup.plan().handler.allow_protocol_features == 0x200,
        setup.plan().handler.queues_num == 2,
        setup.plan().queues == 2,
        setup.plan().queue_size == 16,
{
    let handler = setup.plan().handler;
    crate::features::lemma_no_features();
    assert forall|n: int| #[trigger]
        crate::features::features(handler.init_features).contains(n) <==> crate::features::features(
            base_features,
        ).contains(n) || crate::features::features(0x4000_02e0).contains(n) by {
        lemma_acknowledged(n);
    }
    assert forall|n: int| #[trigger]
        crate::features::features(handler.allow_features).contains(n)
            <==> crate::features::features(
            base_features,
        ).contains(n) || crate::features::features(0x1_6000_02e0).contains(n) by {
        lemma_acknowledged(n);
        lemma_offered(n);
    }
    assert forall|n: int| #[trigger]
        crate::features::features(handler.allow_protocol_features).contains(n)
            <==> crate::features::features(
            0,
        ).contains(n) || crate::features::features(0x200).contains(n) by {
        lemma_protocol(n);
    }
    crate::features::lemma_joined(handler.init_features, base_features, 0x4000_02e0);
    crate::features::lemma_joined(handler.allow_features, base_features, 0x1_6000_02e0);
    crate::features::lemma_joined(handler.allow_protocol_features, 0, 0x200);
    assert(0u64 | 0x200u64 == 0x200u64) by (bit_vector);
}

/// The activation of the device goes from its queues to the kill event, and its reset resets as
/// many queues as it has and does nothing else.
pub proof fn law_activation_and_reset<E, W>(
    device: Eavb<E, W>,
    step: Activation,
    reset: DeviceReset,
    succeeded: bool,
)
    requires
        call_ensures(Eavb::<E, W>::activation, (&device,), step),
        call_ensures(Eavb::<E, W>::reset, (&device,), reset),
    ensures
        step is Queues,
        step.after_queues(true) is KillEvent,
        reset.next_action() matches Some(crate::front_end::ResetAction::Queues { n }) && n
            == device.front.queue_sizes@.len(),
        reset.after(succeeded).next_action() is None,
{
    assert(device.front.queue_sizes.len() == device.front.queue_sizes@.len());
}

} // verus!
