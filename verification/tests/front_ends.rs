use vhost_user_devices::async_tube::{AsyncTube, TubeError};
use vhost_user_devices::eavb::{vueavb_config_data, Eavb};
use vhost_user_devices::features::{has_feature, union, with_feature, without_feature};
use vhost_user_devices::front_end::{
    Activation, DeviceReset, FrontEnd, ResetAction, Setup, SetupAction, SetupError, Shutdown,
    ShutdownAction,
};
use vhost_user_devices::frpc::Frpc;
use vhost_user_devices::glink_cma::GlinkPassthrough;
use vhost_user_devices::hab::Hab;

type Failure = SetupError<&'static str, &'static str>;

fn plan(setup: Setup) -> (u64, u64, u64, u64, u16, usize) {
    let setup: Result<Setup, Failure> = setup.connected(Ok(()));
    let setup = setup.unwrap();
    let SetupAction::CreateHandler(config) = setup.action() else {
        panic!("no handler to create");
    };
    let setup: Result<Setup, Failure> = setup.handler_created(Ok(()));
    let SetupAction::QueueSizes { queue_size, queues } = setup.unwrap().action() else {
        panic!("no queue sizes to ask for");
    };
    (
        config.queues_num,
        config.init_features,
        config.allow_features,
        config.allow_protocol_features,
        queue_size,
        queues,
    )
}

fn sizing(setup: Setup) -> Setup {
    let setup: Result<Setup, Failure> = setup.connected(Ok(()));
    let setup: Result<Setup, Failure> = setup.unwrap().handler_created(Ok(()));
    setup.unwrap()
}

#[test]
fn devices_are_set_up_with_their_features() {
    assert_eq!(
        plan(Frpc::<i32, i32>::setup(0x1)),
        (2, 0x4000_0ae1, 0x1_6000_0ae1, 0x200, 16, 2),
    );
    assert_eq!(plan(Eavb::<i32, i32>::setup(0)), (2, 0x4000_02e0, 0x1_6000_02e0, 0x200, 16, 2));
    assert_eq!(
        plan(GlinkPassthrough::<i32, i32>::setup(0x8)),
        (1, 0x4000_0008, 0x1_6000_0008, 0x200, 256, 1),
    );
    assert_eq!(
        plan(Hab::<i32, i32>::setup(0x8, 5)),
        (5, 0x4000_0008, 0x1_4000_0000, 0x201, 1024, 5),
    );
}

#[test]
fn features_are_bits() {
    assert!(has_feature(0x20, 5));
    assert!(!has_feature(0x20, 6));
    assert_eq!(with_feature(1, 63), 0x8000_0000_0000_0001);
    assert_eq!(without_feature(u64::MAX, 34), 0xffff_fffb_ffff_ffff);
    assert_eq!(union(0x5, 0x3), 0x7);
}

#[test]
fn a_setup_fails_with_its_first_failure() {
    let setup = Frpc::<i32, i32>::setup(0);
    assert_eq!(setup.action(), SetupAction::Connect);
    let failed: Result<Setup, Failure> = setup.connected(Err("no such file"));
    assert_eq!(failed, Err(SetupError::SocketConnect("no such file")));
    let connected: Result<Setup, Failure> = setup.connected(Ok(()));
    let failed: Result<Setup, Failure> = connected.unwrap().handler_created(Err("no owner"));
    assert_eq!(failed, Err(SetupError::Handler("no owner")));
    let failed: Result<Frpc<i32, i32>, Failure> = Frpc::new(1, sizing(setup), Err("no queues"));
    assert_eq!(failed.err(), Some(SetupError::Handler("no queues")));
}

#[test]
fn set_up_devices_are_idle() {
    let frpc: Result<Frpc<i32, i32>, Failure> =
        Frpc::new(77, sizing(Frpc::<i32, i32>::setup(0)), Ok(vec![16, 16]));
    let frpc = frpc.ok().unwrap();
    assert_eq!(frpc.device_type(), 77);
    assert_eq!(frpc.worker_name(), "vhost_user_frpc");
    assert_eq!(frpc.front.queue_max_sizes(), [16, 16]);
    assert_eq!(frpc.front.kill_evt, None);
    assert_eq!(frpc.front.worker_thread, None);

    let glink: Result<GlinkPassthrough<i32, i32>, Failure> = GlinkPassthrough::new(
        78,
        sizing(GlinkPassthrough::<i32, i32>::setup(0)),
        Ok(vec![256]),
    );
    let glink = glink.ok().unwrap();
    assert_eq!(glink.device_type(), 78);
    assert_eq!(glink.worker_name(), "vhost_user_gp");

    let hab: Result<Hab<i32, i32>, Failure> =
        Hab::new(79, sizing(Hab::<i32, i32>::setup(0, 1)), Ok(vec![1024]));
    let hab = hab.ok().unwrap();
    assert_eq!(hab.device_type(), 79);
    assert_eq!(hab.worker_name(), "vhost_user_hab");
}

#[test]
fn eavb_configuration_is_written_at_its_offset() {
    let eavb: Result<Eavb<i32, i32>, Failure> =
        Eavb::new(80, sizing(Eavb::<i32, i32>::setup(0)), Ok(vec![16, 16]));
    let eavb = eavb.ok().unwrap();
    assert_eq!(eavb.device_type(), 80);
    assert_eq!(eavb.worker_name(), "vhost_user_eavb");
    let mut data = [0xffu8; 16];
    eavb.read_config(2, &mut data);
    assert_eq!(data, [0xff, 0xff, 0, 0, 1, 0, 4, 0, 0, 0, 0, 0, 2, 0, 0xff, 0xff]);
}

#[test]
fn configuration_fields_are_little_endian() {
    let config =
        vueavb_config_data { version: 0x0102_0304, domain_num: 5, max_buff_size: 0xa0b0_c0d0 };
    let mut data = [0u8; 12];
    config.copy_cfg_space_at_offset(&mut data, 0);
    assert_eq!(data, [4, 3, 2, 1, 5, 0, 0, 0, 0xd0, 0xc0, 0xb0, 0xa0]);
}

#[test]
fn an_activation_ends_with_a_worker() {
    let mut front: FrontEnd<i32, &'static str> = FrontEnd::new(vec![16]);
    let step = Activation::Queues { reports_status: false }.queues_activated(true);
    assert_eq!(step, Activation::KillEvent);
    let step = front.kill_event_created(step, Some(4));
    assert_eq!(step, Activation::Worker);
    let step = front.worker_spawned(step, Some("worker"));
    assert_eq!(step, Activation::Active);
    let mut shutdown = front.shutdown();
    assert_eq!(shutdown.next_action(), Some(ShutdownAction::Signal(4)));
    assert_eq!(shutdown.next_action(), Some(ShutdownAction::Join("worker")));
    assert_eq!(shutdown.next_action(), None);
    assert_eq!(shutdown.next_action(), None);
    assert_eq!(front.shutdown().next_action(), None);
    assert_eq!(front.queue_max_sizes(), [16]);
}

#[test]
fn a_status_report_makes_no_difference() {
    for (reports_status, reported) in [(false, true), (true, true), (true, false)] {
        let mut front: FrontEnd<i32, i32> = FrontEnd::new(vec![]);
        let mut step = Activation::Queues { reports_status }.queues_activated(true);
        assert_eq!(step == Activation::Status, reports_status);
        if step == Activation::Status {
            step = step.status_reported(reported);
        }
        let step = front.kill_event_created(step, Some(1));
        assert_eq!(front.worker_spawned(step, Some(2)), Activation::Active);
        assert_eq!(
            front.shutdown(),
            Shutdown { kill_evt: Some(1), worker_thread: Some(2) },
        );
    }
}

#[test]
fn an_activation_is_abandoned_at_a_failure() {
    let mut front: FrontEnd<i32, i32> = FrontEnd::new(vec![]);
    let queues = Activation::Queues { reports_status: true };
    assert_eq!(queues.queues_activated(false), Activation::Abandoned);
    let status = queues.queues_activated(true);
    assert_eq!(status, Activation::Status);
    let step = status.status_reported(false);
    assert_eq!(step, Activation::KillEvent);
    assert_eq!(front.kill_event_created(step, None), Activation::Abandoned);
    assert_eq!(front.kill_evt, None);
    let step = front.kill_event_created(step, Some(3));
    assert_eq!(front.worker_spawned(step, None), Activation::Abandoned);
    assert_eq!((front.kill_evt, front.worker_thread), (Some(3), None));
    let mut shutdown = front.shutdown();
    assert_eq!(shutdown.next_action(), Some(ShutdownAction::Signal(3)));
    assert_eq!(shutdown.next_action(), None);
}

#[test]
fn a_reset_is_as_good_as_its_outcome() {
    let front: FrontEnd<i32, i32> = FrontEnd::new(vec![1, 2, 3]);
    assert!(front.keep_rds().is_empty());
    let reset = front.reset_queues();
    assert_eq!(reset.action(), Some(ResetAction::Queues { n: 3 }));
    assert_eq!(reset.step(true), DeviceReset::Finished { done: true });
    assert_eq!(reset.step(false), DeviceReset::Finished { done: false });
    assert_eq!(reset.step(true).action(), None);
    assert_eq!(reset.step(true).step(false), DeviceReset::Finished { done: true });
}

#[test]
fn only_hab_is_reset_by_its_owner() {
    let queues = |n| DeviceReset::Pending(ResetAction::Queues { n });
    let silent = Activation::Queues { reports_status: false };

    let frpc: Result<Frpc<i32, i32>, Failure> =
        Frpc::new(1, sizing(Frpc::<i32, i32>::setup(0)), Ok(vec![16, 16]));
    let frpc = frpc.ok().unwrap();
    assert_eq!(frpc.reset(), queues(2));
    assert_eq!(frpc.activation(), silent);

    let eavb: Result<Eavb<i32, i32>, Failure> =
        Eavb::new(2, sizing(Eavb::<i32, i32>::setup(0)), Ok(vec![16, 16, 16]));
    let eavb = eavb.ok().unwrap();
    assert_eq!(eavb.reset(), queues(3));
    assert_eq!(eavb.activation(), silent);

    let glink: Result<GlinkPassthrough<i32, i32>, Failure> =
        GlinkPassthrough::new(3, sizing(GlinkPassthrough::<i32, i32>::setup(0)), Ok(vec![256]));
    let glink = glink.ok().unwrap();
    assert_eq!(glink.reset(), queues(1));
    assert_eq!(glink.activation(), silent);

    let hab: Result<Hab<i32, i32>, Failure> =
        Hab::new(4, sizing(Hab::<i32, i32>::setup(0, 2)), Ok(vec![1024, 1024]));
    let hab = hab.ok().unwrap();
    assert_eq!(hab.reset().action(), Some(ResetAction::ResetOwner));
    assert_eq!(hab.reset().step(true).action(), None);
    assert_eq!(hab.activation(), silent);
}

#[test]
fn a_tube_is_received_from_after_a_wait() {
    let tube = AsyncTube::new::<&str>(Ok(11)).ok().unwrap();
    assert_eq!(tube.next::<(), &str>(Ok(())), Ok(&11));
    assert_eq!(tube.next::<(), &str>(Err("interrupted")), Err(TubeError::Recv("interrupted")));
    assert_eq!(*tube.send(), 11);
    assert_eq!(*tube.as_source(), 11);
    assert_eq!(tube.into_source(), 11);
    assert_eq!(AsyncTube::<i32>::new(Err("closed")).err(), Some("closed"));
}
