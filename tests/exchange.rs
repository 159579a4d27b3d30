use dubbo_extensions::entries::{
    doGetConfigKeyItem, doSelect, getLocalAddressHost, getRemoteAddressHost,
    getRemoteAddressPort, impls, isAvailable,
};
use dubbo_extensions::{
    reported_length, run_in, AddressSlot, Channel, EntryPlan, HostStore, Status, TransferBuffer,
    ADDRESS_NAME, CAPACITY, RESULT_TEXT,
};

fn host_with(id: i64, payload: &[u8]) -> HostStore {
    let mut host = HostStore::new();
    host.set_argument(id, payload);
    host
}

#[test]
fn fetch_returns_short_payload_unmodified() {
    let host = host_with(5, b"hello");
    let mut buf = TransferBuffer::new();
    let n = host.get_args(5, &mut buf);
    assert_eq!(n, 5);
    assert_eq!(buf.contents(), b"hello");
}

#[test]
fn fetch_returns_payload_of_exactly_capacity() {
    let payload: Vec<u8> = (0..32u8).collect();
    let host = host_with(1, &payload);
    let mut buf = TransferBuffer::new();
    assert_eq!(host.get_args(1, &mut buf), 32);
    assert_eq!(buf.contents(), &payload[..]);
}

#[test]
fn fetch_truncates_long_payload_to_capacity() {
    let payload: Vec<u8> = (0..40u8).collect();
    let host = host_with(2, &payload);
    let mut buf = TransferBuffer::new();
    let n = host.get_args(2, &mut buf);
    assert_eq!(n, CAPACITY);
    assert_eq!(buf.len(), 32);
    assert_eq!(buf.contents(), &payload[..32]);
}

#[test]
fn fetch_of_unknown_id_stages_nothing() {
    let host = host_with(2, b"abc");
    let mut buf = TransferBuffer::new();
    buf.fill(b"stale");
    assert_eq!(host.get_args(3, &mut buf), 0);
    assert_eq!(buf.contents(), b"");
}

#[test]
fn buffer_starts_empty_and_has_fixed_capacity() {
    let buf = TransferBuffer::new();
    assert_eq!(buf.len(), 0);
    assert_eq!(buf.capacity(), 32);
}

#[test]
fn reported_length_accepts_zero_to_capacity_only() {
    assert_eq!(reported_length(0), Some(0));
    assert_eq!(reported_length(32), Some(32));
    assert_eq!(reported_length(33), None);
    assert_eq!(reported_length(-1), None);
}

#[test]
fn delivery_keeps_exact_bytes_including_empty_and_non_text() {
    let mut host = HostStore::new();
    assert_eq!(host.delivered_to(Channel::Result, 4), None);
    host.deliver(Channel::Result, 4, &[0xff, 0x00, 0xfe]);
    host.deliver(Channel::Result, 5, &[]);
    assert_eq!(host.delivered_to(Channel::Result, 4), Some(&[0xffu8, 0x00, 0xfe][..]));
    assert_eq!(host.delivered_to(Channel::Result, 5), Some(&[][..]));
    assert_eq!(host.delivered_to(Channel::RemoteAddressHost, 4), None);
    host.deliver(Channel::Result, 4, b"again");
    assert_eq!(host.delivered_to(Channel::Result, 4), Some(&b"again"[..]));
}

#[test]
fn invalid_utf8_aborts_without_delivery() {
    let mut host = host_with(7, &[b'o', b'k', 0xff, b'!']);
    let r = run_in(&mut host, &impls(7));
    let e = r.unwrap_err();
    assert_eq!(e.valid_up_to, 2);
    assert_eq!(host.delivered_to(Channel::Result, 7), None);
}

#[test]
fn invalid_utf8_aborts_address_entry_too() {
    let mut host = host_with(9, &[0xc3]);
    assert!(run_in(&mut host, &getRemoteAddressHost()).is_err());
    assert_eq!(host.delivered_to(Channel::Result, 9), None);
    assert_eq!(host.delivered_to(Channel::RemoteAddressHost, 9), None);
}

#[test]
fn respond_decodes_argument_and_plans_deliveries() {
    let plan = getLocalAddressHost();
    let reply = plan.respond("héllo".as_bytes()).unwrap();
    assert_eq!(reply.argument, "héllo");
    assert_eq!(reply.status, Status::Int64(9));
    assert_eq!(reply.deliveries.len(), 2);
    assert_eq!(reply.deliveries[0].channel, Channel::Result);
    assert_eq!(reply.deliveries[0].id, 9);
    assert_eq!(reply.deliveries[0].bytes, b"rust result".to_vec());
    assert_eq!(reply.deliveries[1].channel, Channel::LocalAddressHost);
    assert_eq!(reply.deliveries[1].id, 9);
    assert_eq!(reply.deliveries[1].bytes, b"localhost".to_vec());
}

#[test]
fn respond_reports_decode_error_position() {
    let e = impls(1).respond(&[b'a', b'b', b'c', 0x80]).unwrap_err();
    assert_eq!(e.valid_up_to, 3);
}

#[test]
fn shared_exchange_delivers_general_result() {
    let mut host = host_with(11, b"java arg");
    assert_eq!(run_in(&mut host, &impls(11)), Ok(Status::Nothing));
    assert_eq!(host.delivered_to(Channel::Result, 11), Some(RESULT_TEXT.as_bytes()));
    assert_eq!(RESULT_TEXT, "rust result");
    assert_eq!(ADDRESS_NAME, "localhost");
}

#[test]
fn remote_address_host_fetches_nine_and_reports_localhost() {
    let plan = getRemoteAddressHost();
    assert_eq!(plan.fetch_id, 9);
    let mut host = host_with(9, b"channel");
    assert_eq!(run_in(&mut host, &plan), Ok(Status::Int64(9)));
    assert_eq!(host.delivered_to(Channel::RemoteAddressHost, 9), Some(&b"localhost"[..]));
    assert_eq!(host.delivered_to(Channel::Result, 9), Some(&b"rust result"[..]));
    assert_eq!(host.delivered_to(Channel::LocalAddressHost, 9), None);
}

#[test]
fn remote_address_port_is_fixed_whatever_is_fetched() {
    let plan = getRemoteAddressPort();
    assert_eq!(plan.fetch_id, 9);
    let mut a = host_with(9, b"one");
    let mut b = host_with(9, b"something else entirely");
    assert_eq!(run_in(&mut a, &plan), Ok(Status::Int32(9999)));
    assert_eq!(run_in(&mut b, &plan), Ok(Status::Int32(9999)));
    assert_eq!(a.delivered_to(Channel::RemoteAddressHost, 9), None);
}

#[test]
fn is_available_fetches_six_and_returns_one() {
    let plan = isAvailable();
    assert_eq!(plan.fetch_id, 6);
    let mut host = host_with(6, b"registry");
    assert_eq!(run_in(&mut host, &plan), Ok(Status::Int32(1)));
    assert_eq!(host.delivered_to(Channel::Result, 6), Some(&b"rust result"[..]));
}

#[test]
fn config_key_item_index_does_not_change_the_exchange() {
    let with_three = doGetConfigKeyItem(21, 3);
    assert_eq!(with_three.fetch_id, 21);
    assert_eq!(with_three, doGetConfigKeyItem(21, 0));
    assert_eq!(with_three, doGetConfigKeyItem(21, -7));
    assert_eq!(with_three, impls(21));
    let mut a = host_with(21, b"key");
    let mut b = host_with(21, b"key");
    assert_eq!(run_in(&mut a, &with_three), run_in(&mut b, &doGetConfigKeyItem(21, 8)));
    assert_eq!(a.delivered_to(Channel::Result, 21), b.delivered_to(Channel::Result, 21));
}

#[test]
fn select_passes_its_identifier_and_returns_one() {
    assert_eq!(
        doSelect(42),
        EntryPlan { fetch_id: 42, address: None, status: Status::Int32(1) }
    );
    assert_eq!(getRemoteAddressHost().address, Some(AddressSlot::Remote));
    assert_eq!(AddressSlot::Local.channel(), Channel::LocalAddressHost);
}
