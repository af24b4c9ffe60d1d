//! The front end of a device that passes a G-Link transport through.
use vstd::prelude::*;

use crate::features::{
    with_feature, HandlerConfig, F_PROTOCOL_FEATURES, PROTOCOL_F_CONFIG, VIRTIO_F_VERSION_1,
    VIRTIO_RING_F_EVENT_IDX,
};
use crate::front_end::{Activation, DeviceReset, FrontEnd, Setup, SetupError, SetupPlan};

verus! {

/// The size of a queue.
pub const QUEUE_SIZE: u16 = 256;

/// The number of queues.
pub const QUEUES: usize = 1;

/// The front end of the device.
pub struct GlinkPassthrough<E, W> {
    pub front: FrontEnd<E, W>,
    /// The number by which the transport announces the device's type.
    pub type_number: u32,
}

impl<E, W> GlinkPassthrough<E, W> {
    /// Starts setting the device up: the protocol features are acknowledged from the start, on top
    /// of `base_features`, and with them version 1 and event indices may be offered.
    pub fn setup(base_features: u64) -> (setup: Setup)
        ensures
            setup is Connecting,
            setup.plan().queue_size == QUEUE_SIZE,
            setup.plan().queues == QUEUES,
            setup.plan().handler.queues_num == QUEUES,
            crate::features::features(setup.plan().handler.init_features)
                == crate::features::features(base_features).union(
                set![F_PROTOCOL_FEATURES as int],
            ),
            crate::features::features(setup.plan().handler.allow_features)
                == crate::features::features(setup.plan().handler.init_features).union(
                set![VIRTIO_F_VERSION_1 as int, VIRTIO_RING_F_EVENT_IDX as int],
            ),
            crate::features::features(setup.plan().handler.allow_protocol_features) == set![
                PROTOCOL_F_CONFIG as int,
            ],
            setup.plan().handler.coherent(),
    {
        let init_features: u64 = with_feature(base_features, F_PROTOCOL_FEATURES);
        let versioned: u64 = with_feature(init_features, VIRTIO_F_VERSION_1);
        let allow_features: u64 = with_feature(versioned, VIRTIO_RING_F_EVENT_IDX);
        let allow_protocol_features: u64 = with_feature(0, PROTOCOL_F_CONFIG);
        proof {
            crate::features::lemma_no_features();
            assert(crate::features::features(init_features) =~= crate::features::features(
                base_features,
            ).union(set![F_PROTOCOL_FEATURES as int]));
            assert(crate::features::features(allow_features) =~= crate::features::features(
                init_features,
            ).union(set![VIRTIO_F_VERSION_1 as int, VIRTIO_RING_F_EVENT_IDX as int]));
            assert(crate::features::features(allow_protocol_features) =~= set![
                PROTOCOL_F_CONFIG as int,
            ]);
        }
        Setup::Connecting(
            SetupPlan {
                handler: HandlerConfig {
                    queues_num: QUEUES as u64,
                    allow_features,
                    init_features,
                    allow_protocol_features,
                },
                queue_size: QUEUE_SIZE,
                queues: QUEUES,
            },
        )
    }

    /// Ends the setup: the device with the queues that its handler named.
    pub fn new<S, H>(
        type_number: u32,
        setup: Setup,
        queue_sizes: Result<Vec<u16>, H>,
    ) -> (device: Result<GlinkPassthrough<E, W>, SetupError<S, H>>)
        requires
            setup is Sizing,
        ensures
            device == match queue_sizes {
                Ok(sizes) => Ok(
                    GlinkPassthrough { front: FrontEnd::<E, W>::idle(sizes), type_number },
                ),
                Err(error) => Err(SetupError::<S, H>::Handler(error)),
            },
    {
        match setup.sized(queue_sizes) {
            Ok(front) => Ok(GlinkPassthrough { front, type_number }),
            Err(error) => Err(error),
        }
    }

    /// The type of the device.
    pub fn device_type(&self) -> (id: u32)
        ensures
            id == self.type_number,
    {
        self.type_number
    }

    /// Starts an activation, in which the back end is not told the device's status.
    pub fn activation(&self) -> (step: Activation)
        ensures
            step == (Activation::Queues { reports_status: false }),
    {
        Activation::Queues { reports_status: false }
    }

    /// Starts a reset, in which the handler resets the device's queues.
    pub fn reset(&self) -> (reset: DeviceReset)
        ensures
            reset == DeviceReset::Pending(
                crate::front_end::ResetAction::Queues { n: self.front.queue_sizes@.len() as usize },
            ),
    {
        self.front.reset_queues()
    }

    /// The name of the thread that the device's worker runs in.
    pub fn worker_name(&self) -> (name: &'static str)
        ensures
            name == "vhost_user_gp",
    {
        "vhost_user_gp"
    }
}

proof fn lemma_acknowledged(n: int)
    ensures
        crate::features::features(0x4000_0000).contains(n) <==> n == 30,
{
    crate::features::law_feature_is_its_bit(0x4000_0000, 0x4000_0000, n);
    if 0 <= n < 64 {
        let m: u64 = n as u64;
        assert(m < 64 ==> (0x4000_0000u64 & (1u64 << m) != 0 <==> m == 30)) by (bit_vector);
    }
}

proof fn lemma_offered(n: int)
    ensures
        crate::features::features(0x1_6000_0000).contains(n) <==> n == 29 || n == 30 || n == 32,
{
    crate::features::law_feature_is_its_bit(0x1_6000_0000, 0x1_6000_0000, n);
    if 0 <= n < 64 {
        let m: u64 = n as u64;
        assert(m < 64 ==> (0x1_6000_0000u64 & (1u64 << m) != 0 <==> m == 29 || m == 30 || m == 32))
            by (bit_vector);
    }
}

proof fn lemma_protocol(n: int)
    ensures
        crate::features::features(0x200).contains(n) <==> n == 9,
{
    crate::features::law_feature_is_its_bit(0x200, 0x200, n);
    if 0 <= n < 64 {
        let m: u64 = n as u64;
        assert(m < 64 ==> (0x200u64 & (1u64 << m) != 0 <==> m == 9)) by (bit_vector);
    }
}

/// What every setup of the device comes to, in words: to whatever `base_features` holds, one bit
/// is added of what is acknowledged from the start, and two more of what may be offered.
pub proof fn law_setup_words<E, W>(base_features: u64, setup: Setup)
    requires
        call_ensures(GlinkPassthrough::<E, W>::setup, (base_features,), setup),
    ensures
        setup is Connecting,
        setup.plan().handler.init_features == base_features | 0x4000_0000,
        setup.plan().handler.allow_features == base_features | 0x1_6000_0000,
        setup.plan().handler.allow_protocol_features == 0x200,
        setup.plan().handler.queues_num == 1,
        setup.plan().queues == 1,
        setup.plan().queue_size == 256,
{
    let handler = setup.plan().handler;
    crate::features::lemma_no_features();
    assert forall|n: int| #[trigger]
        crate::features::features(handler.init_features).contains(n) <==> crate::features::features(
            base_features,
        ).contains(n) || crate::features::features(0x4000_0000).contains(n) by {
        lemma_acknowledged(n);
    }
    assert forall|n: int| #[trigger]
        crate::features::features(handler.allow_features).contains(n)
            <==> crate::features::features(
            base_features,
        ).contains(n) || crate::features::features(0x1_6000_0000).contains(n) by {
        lemma_acknowledged(n);
        lemma_offered(n);
    }
    assert forall|n: int| #[trigger]
        crate::features::features(handler.allow_protocol_features).contains(n)
            <==> crate::features::features(
            0,
        ).contains(n) || crate::features::features(0x200).contains(n) by {
        lemma_protocol(n);
    }
    crate::features::lemma_joined(handler.init_features, base_features, 0x4000_0000);
    crate::features::lemma_joined(handler.allow_features, base_features, 0x1_6000_0000);
    crate::features::lemma_joined(handler.allow_protocol_features, 0, 0x200);
    assert(0u64 | 0x200u64 == 0x200u64) by (bit_vector);
}

/// The activation of the device goes from its queues to the kill event, and its reset resets as
/// many queues as it has and does nothing else.
pub proof fn law_activation_and_reset<E, W>(
    device: GlinkPassthrough<E, W>,
    step: Activation,
    reset: DeviceReset,
    succeeded: bool,
)
    requires
        call_ensures(GlinkPassthrough::<E, W>::activation, (&device,), step),
        call_ensures(GlinkPassthrough::<E, W>::reset, (&device,), reset),
    ensures
        step is Queues,
        step.after_queues(true) is KillEvent,
        reset.next_action() matches Some(crate::front_end::ResetAction::Queues { n }) && n
            == device.front.queue_sizes@.len(),
        reset.after(succeeded).next_action() is None,
{
    assert(device.front.queue_sizes.len() == device.front.queue_sizes@.len());
}

} // verus!
