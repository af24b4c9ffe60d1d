//! The front end of a hypervisor abstraction device.
use vstd::prelude::*;

use crate::features::{
    with_feature, HandlerConfig, F_PROTOCOL_FEATURES, PROTOCOL_F_CONFIG, PROTOCOL_F_MQ,
    VIRTIO_F_VERSION_1,
};
use crate::front_end::{
    Activation, DeviceReset, FrontEnd, ResetAction, Setup, SetupError, SetupPlan,
};

verus! {

/// The size of a queue.
pub const QUEUE_SIZE: u16 = 1024;

/// The front end of the device.
pub struct Hab<E, W> {
    pub front: FrontEnd<E, W>,
    pub dev_id: u32,
}

impl<E, W> Hab<E, W> {
    /// Starts setting a device with `queues` queues up. Nothing but version 1 and the protocol
    /// features may be offered, whatever `base_features` holds.
    pub fn setup(base_features: u64, queues: u32) -> (setup: Setup)
        ensures
            setup is Connecting,
            setup.plan().queue_size == QUEUE_SIZE,
            setup.plan().queues == queues,
            setup.plan().handler.queues_num == queues,
            crate::features::features(setup.plan().handler.init_features)
                == crate::features::features(base_features).insert(F_PROTOCOL_FEATURES as int),
            crate::features::features(setup.plan().handler.allow_features) == set![
                VIRTIO_F_VERSION_1 as int,
                F_PROTOCOL_FEATURES as int,
            ],
            crate::features::features(setup.plan().handler.allow_protocol_features) == set![
                PROTOCOL_F_CONFIG as int,
                PROTOCOL_F_MQ as int,
            ],
            setup.plan().handler.coherent() <==> crate::features::features(
                base_features,
            ).subset_of(set![VIRTIO_F_VERSION_1 as int, F_PROTOCOL_FEATURES as int]),
    {
        let init_features: u64 = with_feature(base_features, F_PROTOCOL_FEATURES);
        let versioned: u64 = with_feature(0, VIRTIO_F_VERSION_1);
        let allow_features: u64 = with_feature(versioned, F_PROTOCOL_FEATURES);
        let configurable: u64 = with_feature(0, PROTOCOL_F_CONFIG);
        let allow_protocol_features: u64 = with_feature(configurable, PROTOCOL_F_MQ);
        proof {
            crate::features::lemma_no_features();
            assert(crate::features::features(allow_features) =~= set![
                VIRTIO_F_VERSION_1 as int,
                F_PROTOCOL_FEATURES as int,
            ]);
            assert(crate::features::features(allow_protocol_features) =~= set![
                PROTOCOL_F_CONFIG as int,
                PROTOCOL_F_MQ as int,
            ]);
            let base = crate::features::features(base_features);
            let init = crate::features::features(init_features);
            let allow = crate::features::features(allow_features);
            if init.subset_of(allow) {
                assert forall|n: int| base.contains(n) implies allow.contains(n) by {
                    assert(init.contains(n));
                }
            }
        }
        Setup::Connecting(
            SetupPlan {
                handler: HandlerConfig {
                    queues_num: queues as u64,
                    allow_features,
                    init_features,
                    allow_protocol_features,
                },
                queue_size: QUEUE_SIZE,
                queues: queues as usize,
            },
        )
    }

    /// Ends the setup: the device with the queues that its handler named.
    pub fn new<S, H>(
        device_id: u32,
        setup: Setup,
        queue_sizes: Result<Vec<u16>, H>,
    ) -> (device: Result<Hab<E, W>, SetupError<S, H>>)
        requires
            setup is Sizing,
        ensures
            device == match queue_sizes {
                Ok(sizes) => Ok(
                    Hab { front: FrontEnd::<E, W>::idle(sizes), dev_id: device_id },
                ),
                Err(error) => Err(SetupError::<S, H>::Handler(error)),
            },
    {
        match setup.sized(queue_sizes) {
            Ok(front) => Ok(Hab { front, dev_id: device_id }),
            Err(error) => Err(error),
        }
    }

    /// The type of the device.
    pub fn device_type(&self) -> (id: u32)
        ensures
            id == self.dev_id,
    {
        self.dev_id
    }

    /// Starts an activation, in which the back end is not told the device's status.
    pub fn activation(&self) -> (step: Activation)
        ensures
            step == (Activation::Queues { reports_status: false }),
    {
        Activation::Queues { reports_status: false }
    }

    /// Starts a reset, in which the ownership of the connection is given up; the queues are not
    /// reset one by one.
    pub fn reset(&self) -> (reset: DeviceReset)
        ensures
            reset == DeviceReset::Pending(ResetAction::ResetOwner),
    {
        DeviceReset::Pending(ResetAction::ResetOwner)
    }

    /// The name of the thread that the device's worker runs in.
    pub fn worker_name(&self) -> (name: &'static str)
        ensures
            name == "vhost_user_hab",
    {
        "vhost_user_hab"
    }
}

proof fn lemma_acknowledged(n: int)
    ensures
        crate::features::features(0x4000_0000).contains(n) <==> n == 30,
{
    crate::features::law_feature_is_its_bit(0x4000_0000, 0x4000_0000, n);
    if 0 <= n < 64 {
        let m: u64 = n as u64;
        assert(m < 64 ==> (0x4000_0000u64 & (1u64 << m) != 0 <==> m == 30)) by (bit_vector);
    }
}

proof fn lemma_offered(n: int)
    ensures
        crate::features::features(0x1_4000_0000).contains(n) <==> n == 30 || n == 32,
{
    crate::features::law_feature_is_its_bit(0x1_4000_0000, 0x1_4000_0000, n);
    if 0 <= n < 64 {
        let m: u64 = n as u64;
        assert(m < 64 ==> (0x1_4000_0000u64 & (1u64 << m) != 0 <==> m == 30 || m == 32))
            by (bit_vector);
    }
}

proof fn lemma_protocol(n: int)
    ensures
        crate::features::features(0x201).contains(n) <==> n == 0 || n == 9,
{
    crate::features::law_feature_is_its_bit(0x201, 0x201, n);
    if 0 <= n < 64 {
        let m: u64 = n as u64;
        assert(m < 64 ==> (0x201u64 & (1u64 << m) != 0 <==> m == 0 || m == 9)) by (bit_vector);
    }
}

/// What every setup of the device comes to, in words: to whatever `base_features` holds, one bit
/// is added of what is acknowledged from the start, but only two bits may ever be offered. The
/// number of queues is the one asked for.
pub proof fn law_setup_words<E, W>(base_features: u64, queues: u32, setup: Setup)
    requires
        call_ensures(Hab::<E, W>::setup, (base_features, queues), setup),
    ensures
        setup is Connecting,
        setup.plan().handler.init_features == base_features | 0x4000_0000,
        setup.plan().handler.allow_features == 0x1_4000_0000,
        setup.plan().handler.allow_protocol_features == 0x201,
        setup.plan().handler.queues_num == queues,
        setup.plan().queues == queues,
        setup.plan().queue_size == 1024,
{
    let handler = setup.plan().handler;
    crate::features::lemma_no_features();
    assert forall|n: int| #[trigger]
        crate::features::features(handler.init_features).contains(n) <==> crate::features::features(
            base_features,
        ).contains(n) || crate::features::features(0x4000_0000).contains(n) by {
        lemma_acknowledged(n);
    }
    assert forall|n: int| #[trigger]
        crate::features::features(handler.allow_features).contains(n)
            <==> crate::features::features(
            0,
        ).contains(n) || crate::features::features(0x1_4000_0000).contains(n) by {
        lemma_offered(n);
    }
    assert forall|n: int| #[trigger]
        crate::features::features(handler.allow_protocol_features).contains(n)
            <==> crate::features::features(
            0,
        ).contains(n) || crate::features::features(0x201).contains(n) by {
        lemma_protocol(n);
    }
    crate::features::lemma_joined(handler.init_features, base_features, 0x4000_0000);
    crate::features::lemma_joined(handler.allow_features, 0, 0x1_4000_0000);
    crate::features::lemma_joined(handler.allow_protocol_features, 0, 0x201);
    assert(0u64 | 0x201u64 == 0x201u64 && 0u64 | 0x1_4000_0000u64 == 0x1_4000_0000u64)
        by (bit_vector);
}

/// The activation of the device goes from its queues to the kill event, and its reset gives the
/// ownership of the connection up and does nothing else.
pub proof fn law_activation_and_reset<E, W>(
    device: Hab<E, W>,
    step: Activation,
    reset: DeviceReset,
    succeeded: bool,
)
    requires
        call_ensures(Hab::<E, W>::activation, (&device,), step),
        call_ensures(Hab::<E, W>::reset, (&device,), reset),
    ensures
        step is Queues,
        step.after_queues(true) is KillEvent,
        reset.next_action() is Some,
        reset.next_action()->Some_0 is ResetOwner,
        reset.after(succeeded).next_action() is None,
{
}

} // verus!
