use vhost_user_devices::bytes::{encode, Endian};
use vhost_user_devices::discovery::{Discovery, Stage, DISCOVERY_FEATURE};
use vhost_user_devices::error::Error;
use vhost_user_devices::exchange::{frame, Exchange};
use vhost_user_devices::front_end::Activation;
use vhost_user_devices::generic::{GenericDevice, Reset};
use vhost_user_devices::requests::set_config;

const E: Endian = Endian::Little;

fn code(message: &[u8]) -> u32 {
    u32::from_le_bytes([message[0], message[1], message[2], message[3]])
}

/// Answers the requests of a discovery until it is complete or fails. Gives the codes sent.
fn discover(
    discovery: &mut Discovery,
    features: u64,
    protocol_features: u64,
    sizes: &[u32],
) -> Result<Vec<u32>, Error> {
    let mut codes = Vec::new();
    while let Some((_, message)) = discovery.request(E) {
        let asked = code(&message);
        codes.push(asked);
        let number = match asked {
            1 => features,
            15 => protocol_features,
            5057 => 0x7_0000_002a,
            5059 => sizes.len() as u64,
            5058 => 20,
            5060 => {
                let vqn = code(&message[12..]);
                let mut reply = encode(E, vqn as u64, 4);
                reply.extend(encode(E, sizes[vqn as usize] as u64, 4));
                discovery.transferred(E, &reply)?;
                continue;
            }
            _ => {
                discovery.transferred(E, &[])?;
                continue;
            }
        };
        discovery.transferred(E, &encode(E, number, 8))?;
    }
    Ok(codes)
}

fn device() -> GenericDevice<i32, i32> {
    let mut discovery = Discovery::new(None);
    discover(&mut discovery, 1 << 30, 1 << 40, &[16, 32]).unwrap();
    GenericDevice::new(discovery)
}

#[test]
fn discovery_finds_what_the_back_end_answers() {
    let mut discovery = Discovery::new(None);
    let codes = discover(&mut discovery, 0x4_4000_0001, 1 << 40, &[256, 0x1_0080]).unwrap();
    assert_eq!(codes, vec![3, 1, 15, 16, 5057, 5059, 5058, 5060, 5060]);
    assert_eq!(discovery.stage, Stage::Complete);
    assert_eq!(discovery.device_id, 0x2a);
    assert_eq!(discovery.config_len, 20);
    assert_eq!(discovery.queue_sizes, vec![256, 0x80]);

    let config = discovery.handler_config(0x10);
    assert_eq!(config.queues_num, 2);
    assert_eq!(config.init_features, 0x4000_0010);
    assert_eq!(config.allow_features, 0x4000_0011);
    assert_eq!(config.allow_protocol_features, 0x1_0209);
    // Packed rings that the base features hold stay.
    assert_eq!(discovery.handler_config(0x4_0000_0000).allow_features, 0x4_4000_0001);
}

#[test]
fn a_prescribed_number_of_queues_is_not_asked_for() {
    let mut discovery = Discovery::new(Some(1));
    let codes = discover(&mut discovery, 1 << 30, 1 << 40, &[8, 9, 10]).unwrap();
    assert_eq!(codes, vec![3, 1, 15, 16, 5057, 5058, 5060]);
    assert_eq!(discovery.queue_sizes, vec![8]);
}

#[test]
fn a_device_may_have_no_queues() {
    let mut discovery = Discovery::new(Some(0));
    let codes = discover(&mut discovery, 1 << 30, 1 << 40, &[]).unwrap();
    assert_eq!(codes, vec![3, 1, 15, 16, 5057, 5058]);
    assert_eq!(discovery.stage, Stage::Complete);
}

#[test]
fn undiscoverable_back_ends_are_refused() {
    let Err(Error::SocketConnect(e)) = discover(&mut Discovery::new(None), 0, 1 << 40, &[]) else {
        panic!("discovered");
    };
    assert_eq!(e.message, "protocol features are not supported");
    let Err(Error::SocketConnect(e)) = discover(&mut Discovery::new(None), 1 << 30, 0, &[]) else {
        panic!("discovered");
    };
    assert_eq!(e.message, "discovery feature is not supported");
}

#[test]
fn a_wrong_answer_leaves_the_discovery_where_it_was() {
    let mut discovery = Discovery::new(None);
    discovery.sent();
    let Err(Error::SocketConnect(e)) = discovery.replied(E, &[1, 2, 3]) else {
        panic!("accepted");
    };
    assert_eq!(e.message, "wrong reply, expected u64");
    assert_eq!(discovery.stage, Stage::ReadingFeatures);
}

#[test]
fn discovery_is_enabled_by_one_feature() {
    let mut discovery = Discovery::new(None);
    discovery.sent();
    discovery.replied(E, &encode(E, 1 << 30, 8)).unwrap();
    discovery.replied(E, &encode(E, u64::MAX, 8)).unwrap();
    let (exchange, message) = discovery.request(E).unwrap();
    assert_eq!(DISCOVERY_FEATURE, 1 << 40);
    assert_eq!(message, frame(E, 16, 1, &(1u64 << 40).to_le_bytes()));
    assert_eq!(exchange.written(), Exchange::Done);
}

#[test]
fn a_generic_device_is_what_was_discovered() {
    let device = device();
    assert_eq!(device.device_type(), 42);
    assert_eq!(device.front.queue_max_sizes(), [16, 32]);
    assert_eq!(device.worker_name(), "generic 42");
    assert!(device.front.kill_evt.is_none());
    assert!(device.front.worker_thread.is_none());
}

#[test]
fn worker_names_are_decimal() {
    let mut device = device();
    for id in [0, 7, 10, 99, 100, 4294967295u32] {
        device.device_id = id;
        assert_eq!(device.worker_name(), format!("generic {}", id));
    }
}

#[test]
fn configuration_is_read_to_its_end() {
    let device = device();
    let mut data = [0xeeu8; 8];
    let (exchange, message) = device.read_config_request(E, 17, data.len()).unwrap();
    assert_eq!(message, frame(E, 24, 1, &[17, 0, 0, 0, 3, 0, 0, 0, 0, 0, 0, 0, 0, 0, 0]));
    assert_eq!(exchange.written().wants(), Some(12));
    let reply = set_config(E, 17, &[1, 2, 3]);
    assert_eq!(device.read_config(E, 17, &reply, &mut data), Ok(()));
    assert_eq!(data, [1, 2, 3, 0xee, 0xee, 0xee, 0xee, 0xee]);

    let wrong = set_config(E, 16, &[7, 7, 7]);
    assert!(device.read_config(E, 17, &wrong, &mut data).is_err());
    assert_eq!(data, [1, 2, 3, 0xee, 0xee, 0xee, 0xee, 0xee]);
    assert!(device.read_config_request(E, 20, 0).is_none());
}

#[test]
fn configuration_is_written_to_its_end() {
    let device = device();
    let (exchange, message) = device.write_config(E, 18, &[9, 8, 7, 6]).unwrap();
    assert_eq!(message, frame(E, 25, 1, &[18, 0, 0, 0, 2, 0, 0, 0, 0, 0, 0, 0, 9, 8]));
    assert_eq!(exchange.written(), Exchange::Done);
    assert!(device.write_config(E, 21, &[]).is_none());
}

#[test]
fn a_running_driver_is_reported() {
    assert_eq!(device().activation(), Activation::Queues { reports_status: true });
    let (exchange, message) = device().driver_ok_request(E);
    assert_eq!(message, frame(E, 39, 1, &[15, 0, 0, 0, 0, 0, 0, 0]));
    assert_eq!(exchange.written(), Exchange::Done);
}

#[test]
fn a_reset_takes_two_steps() {
    let reset = device().reset();
    assert_eq!(reset, Reset::Clearing);
    let (exchange, message) = reset.request(E).unwrap();
    assert_eq!(message, frame(E, 39, 9, &[0; 8]));
    assert_eq!(exchange.written().wants(), Some(12));
    assert_eq!(reset.step(false), Reset::Finished { done: false });
    let reset = reset.step(true);
    let (_, message) = reset.request(E).unwrap();
    assert_eq!(message, frame(E, 39, 1, &[3, 0, 0, 0, 0, 0, 0, 0]));
    assert_eq!(reset.step(true), Reset::Finished { done: true });
    assert_eq!(reset.step(false), Reset::Finished { done: false });
    assert!(reset.step(true).request(E).is_none());
    assert_eq!(reset.step(true).step(false), Reset::Finished { done: true });
}
