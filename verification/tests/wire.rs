use vhost_user_devices::bytes::{decode, encode, endian_of, native_endian, Endian};
use vhost_user_devices::error::{refused, str_as_error, Error, ErrorKind, IoError};
use vhost_user_devices::exchange::{
    ack_status, frame, reply_size, same_bytes, size_field, Exchange, Expect,
};
use vhost_user_devices::requests::{
    get_config, get_config_request, get_queue_size, get_u64, queue_size_request, set_config,
};

fn message_of(error: Error) -> &'static str {
    match error {
        Error::SocketConnect(e) => e.message,
    }
}

#[test]
fn integers_are_laid_out_in_either_order() {
    assert_eq!(encode(Endian::Little, 0x0102_0304, 4), vec![4, 3, 2, 1]);
    assert_eq!(encode(Endian::Big, 0x0102_0304, 4), vec![1, 2, 3, 4]);
    assert_eq!(encode(Endian::Little, 0x1_0000_0002, 4), vec![2, 0, 0, 0]);
    assert_eq!(encode(Endian::Big, u64::MAX, 8), vec![0xff; 8]);
    assert_eq!(encode(Endian::Big, 7, 0), Vec::<u8>::new());
}

#[test]
fn integers_read_back() {
    for endian in [Endian::Little, Endian::Big] {
        for x in [0, 1, 0xff, 0x100, 0x0123_4567_89ab_cdef, u64::MAX] {
            assert_eq!(decode(endian, &encode(endian, x, 8)), x);
        }
    }
    assert_eq!(decode(Endian::Little, &[1, 2]), 0x0201);
    assert_eq!(decode(Endian::Big, &[1, 2]), 0x0102);
    assert_eq!(decode(Endian::Big, &[]), 0);
}

#[test]
fn native_order_is_the_order_of_this_machine() {
    assert_eq!(encode(native_endian(), 0x0a0b_0c0d, 4), 0x0a0b_0c0du32.to_ne_bytes().to_vec());
    assert_eq!(endian_of([1, 0, 0, 0]), Endian::Little);
    assert_eq!(endian_of([0, 0, 0, 1]), Endian::Big);
}

#[test]
fn errors_carry_their_message() {
    let error = str_as_error("wrong reply");
    assert_eq!(error, IoError { kind: ErrorKind::Other, message: "wrong reply" });
    assert_eq!(refused("wrong reply"), Error::SocketConnect(error));
}

#[test]
fn a_message_is_a_header_and_its_payload() {
    assert_eq!(
        frame(Endian::Little, 5057, 1, &[7, 8]),
        vec![0xc1, 0x13, 0, 0, 1, 0, 0, 0, 2, 0, 0, 0, 7, 8],
    );
    assert_eq!(frame(Endian::Big, 3, 9, &[]), vec![0, 0, 0, 3, 0, 0, 0, 9, 0, 0, 0, 0]);
    assert_ne!(frame(Endian::Big, 3, 9, &[]), frame(Endian::Big, 3, 1, &[]));
    assert_ne!(frame(Endian::Big, 3, 9, &[]), frame(Endian::Big, 9, 3, &[]));
    assert_eq!(size_field(300), 300);
    assert!(same_bytes(&[1, 2], &[1, 2]));
    assert!(!same_bytes(&[1, 2], &[1, 3]));
    assert!(!same_bytes(&[1, 2], &[1]));
}

#[test]
fn a_reply_with_data_is_read_in_two_parts() {
    let (exchange, message) = Exchange::send_and_recv(Endian::Little, 1, &[]);
    assert_eq!(message, vec![1, 0, 0, 0, 1, 0, 0, 0, 0, 0, 0, 0]);
    assert_eq!(exchange.wants(), None);
    let exchange = exchange.written();
    assert_eq!(exchange.wants(), Some(12));
    let reply = frame(Endian::Little, 1, 5, &[9, 9, 9]);
    let exchange = exchange.received(&reply[..12]).unwrap();
    assert_eq!(exchange.wants(), Some(3));
    let exchange = exchange.received(&reply[12..]).unwrap();
    assert_eq!(exchange, Exchange::Done);
    assert_eq!(exchange.wants(), None);
}

#[test]
fn a_request_without_a_reply_ends_when_written() {
    let (exchange, message) = Exchange::send_request(Endian::Big, 25, &[4]);
    assert_eq!(message, vec![0, 0, 0, 25, 0, 0, 0, 1, 0, 0, 0, 1, 4]);
    assert_eq!(exchange.written(), Exchange::Done);
}

#[test]
fn an_acknowledgement_is_a_status() {
    let (exchange, message) = Exchange::send_and_ack(Endian::Little, 39, &[0; 8]);
    assert_eq!(message[..12], [39, 0, 0, 0, 9, 0, 0, 0, 8, 0, 0, 0]);
    let exchange = exchange.written();
    let reply = frame(Endian::Little, 39, 5, &[0, 1, 0, 0, 0, 0, 0, 0]);
    let exchange = exchange.received(&reply[..12]).unwrap();
    assert_eq!(exchange.wants(), Some(8));
    assert_eq!(ack_status(Endian::Little, &reply[12..]), 256);
}

#[test]
fn stray_replies_are_refused() {
    let refusal = |expect, header: &[u8]| {
        message_of(reply_size(Endian::Little, 39, expect, header).unwrap_err())
    };
    let other = frame(Endian::Little, 38, 5, &[]);
    let request = frame(Endian::Little, 39, 1, &[]);
    let short = frame(Endian::Little, 39, 5, &[0; 4]);
    assert_eq!(refusal(Expect::Data, &other[..12]), "wrong reply");
    assert_eq!(refusal(Expect::Data, &request[..12]), "wrong flags in reply");
    assert_eq!(refusal(Expect::Ack, &short[..12]), "wrong size of ack");
    assert_eq!(reply_size(Endian::Little, 39, Expect::Data, &short[..12]), Ok(4));
    // Both mismatch: the request code is looked at first.
    let both = frame(Endian::Little, 1, 1, &[]);
    assert_eq!(refusal(Expect::Ack, &both[..12]), "wrong reply");
}

#[test]
fn replies_with_a_number() {
    assert_eq!(get_u64(Endian::Little, &[1, 2, 0, 0, 0, 0, 0, 0]), Ok(0x201));
    assert_eq!(
        message_of(get_u64(Endian::Little, &[1, 2, 0, 0]).unwrap_err()),
        "wrong reply, expected u64",
    );
}

#[test]
fn replies_with_a_queue_size() {
    assert_eq!(queue_size_request(Endian::Little, 3), vec![3, 0, 0, 0, 0, 0, 0, 0]);
    assert_eq!(queue_size_request(Endian::Big, 3), vec![0, 0, 0, 3, 0, 0, 0, 0]);
    assert_eq!(get_queue_size(Endian::Little, 3, &[3, 0, 0, 0, 0, 1, 0, 0]), Ok(256));
    // Only 16 bits of the size are kept.
    assert_eq!(get_queue_size(Endian::Little, 3, &[3, 0, 0, 0, 0, 1, 7, 0]), Ok(256));
    assert_eq!(
        message_of(get_queue_size(Endian::Little, 3, &[3, 0, 0, 0]).unwrap_err()),
        "wrong reply size",
    );
    assert_eq!(
        message_of(get_queue_size(Endian::Little, 3, &[4, 0, 0, 0, 0, 1, 0, 0]).unwrap_err()),
        "wrong queue num in reply",
    );
}

#[test]
fn configuration_reads_back() {
    let written = set_config(Endian::Little, 6, &[5, 4, 3]);
    assert_eq!(written, vec![6, 0, 0, 0, 3, 0, 0, 0, 0, 0, 0, 0, 5, 4, 3]);
    assert_eq!(
        get_config_request(Endian::Little, 6, 3),
        vec![6, 0, 0, 0, 3, 0, 0, 0, 0, 0, 0, 0, 0, 0, 0],
    );
    assert_eq!(get_config(Endian::Little, 6, 3, &written), Ok(vec![5, 4, 3]));
    assert_eq!(
        message_of(get_config(Endian::Little, 6, 2, &written).unwrap_err()),
        "wrong reply size",
    );
    assert_eq!(
        message_of(get_config(Endian::Little, 7, 3, &written).unwrap_err()),
        "wrong config offset/size/flags in reply",
    );
}
