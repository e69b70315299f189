use hid_proxy::drain::{drain_decision, DrainStep};
use hid_proxy::dump::{hexdump, shown_char};
use hid_proxy::hci::{
    exit_sniff_mode_request, request_outcome, sniff_mode_request, HciDev, HciError, HciFilter,
};
use hid_proxy::l2cap::{L2CAPListener, L2CAPStream, L2capSockAddr};
use hid_proxy::os::{libc_check_error, OsError};

#[test]
fn drain_stops_on_signal() {
    assert!(matches!(drain_decision(Ok(Some(()))), DrainStep::HandBack));
    assert!(matches!(drain_decision(Ok(None)), DrainStep::KeepReading));
    assert!(matches!(
        drain_decision(Err(futures::channel::oneshot::Canceled)),
        DrainStep::Abort(_)
    ));
}

#[test]
fn drain_signal_through_channel() {
    let (tx, mut rx) = futures::channel::oneshot::channel::<()>();
    assert!(matches!(hid_proxy::drain::check_cancellation(&mut rx), DrainStep::KeepReading));
    tx.send(()).unwrap();
    assert!(matches!(hid_proxy::drain::check_cancellation(&mut rx), DrainStep::HandBack));
    let (tx2, mut rx2) = futures::channel::oneshot::channel::<()>();
    drop(tx2);
    assert!(matches!(hid_proxy::drain::check_cancellation(&mut rx2), DrainStep::Abort(_)));
}

#[test]
fn hexdump_one_short_line() {
    let out = hexdump(&[0x41, 0x2e, 0x00, 0x7a]);
    let expected = format!("41 2e 00 7a {} A..z\n", " ".repeat(36));
    assert_eq!(out, expected);
}

#[test]
fn hexdump_two_lines_and_latin1() {
    let mut buf: Vec<u8> = (0x30..0x40).collect();
    buf.push(0xaa);
    buf.push(0xd7);
    let out = hexdump(&buf);
    let first = "30 31 32 33 34 35 36 37 38 39 3a 3b 3c 3d 3e 3f  0123456789......\n";
    let second = format!("aa d7 {} \u{aa}.\n", " ".repeat(42));
    assert_eq!(out, format!("{}{}", first, second));
    assert_eq!(hexdump(&[]), "");
}

#[test]
fn sockaddr_encoding() {
    let a = L2CAPStream::connect_address([1, 2, 3, 4, 5, 6], 19);
    assert_eq!(a.to_bytes(), vec![31, 0, 19, 0, 1, 2, 3, 4, 5, 6, 0, 0, 0, 0]);
    let b = L2CAPListener::bind_address(0x1234);
    assert_eq!(b.to_bytes(), vec![31, 0, 0x34, 0x12, 0, 0, 0, 0, 0, 0, 0, 0, 0, 0]);
    let back = L2capSockAddr::from_bytes(&a.to_bytes()).unwrap();
    assert_eq!((back.family, back.psm, back.bdaddr, back.cid), (31, 19, [1, 2, 3, 4, 5, 6], 0));
    assert!(L2capSockAddr::from_bytes(&vec![0u8; 13]).is_none());
}

#[test]
fn socket_descriptors() {
    assert_eq!(L2CAPListener::from_descriptor(7).as_raw_fd(), 7);
    assert_eq!(L2CAPStream::from_descriptor(9).as_raw_fd(), 9);
}

#[test]
fn hci_filter_accepts_all_events() {
    let f = HciFilter::all_events();
    assert_eq!(f.type_mask, 0x10);
    assert_eq!(f.event_mask, [u32::MAX, u32::MAX]);
    assert_eq!(f.opcode, 0);
}

#[test]
fn hci_requests_and_outcomes() {
    let r = sniff_mode_request(0x0102, 100, 4, 40, 0x0304);
    assert_eq!((r.ogf, r.ocf, r.event, r.response_len), (2, 3, 0x0f, 4));
    assert_eq!(r.params, vec![0x02, 0x01, 100, 0, 4, 0, 40, 0, 0x04, 0x03]);
    let e = exit_sniff_mode_request(0x00ab);
    assert_eq!((e.ocf, e.params.clone()), (4, vec![0xab, 0]));
    assert_eq!(request_outcome(-1, 5, &vec![0, 0, 0, 0]), Err(HciError::Io(OsError { code: 5 })));
    assert_eq!(request_outcome(0, 0, &vec![0x0c, 1, 0, 0]), Err(HciError::Status(0x0c)));
    assert_eq!(request_outcome(0, 0, &vec![0, 1, 0, 0]), Ok(()));
}

#[test]
fn hci_device_values() {
    assert_eq!(HciDev::class_from_bytes([0x08, 0x25, 0x00]), 0x002508);
    assert_eq!(HciDev::class_from_bytes([0x56, 0x34, 0x12]), 0x123456);
    assert_eq!(HciDev::event_reply(vec![4, 0x0e, 4, 1, 9, 9], 4), vec![4, 0x0e, 4, 1]);
    let d = HciDev::new(2, 11);
    assert_eq!((d.hdev(), d.socket()), (2, 11));
}

#[test]
fn os_error_check() {
    assert_eq!(libc_check_error(-1, 13), Err(OsError { code: 13 }));
    assert_eq!(libc_check_error(0, 13), Ok(0));
    assert_eq!(libc_check_error(42, 0), Ok(42));
}

#[test]
fn shown_char_choice() {
    assert_eq!(shown_char(0x41, true), 'A');
    assert_eq!(shown_char(0x41, false), '.');
    assert_eq!(shown_char(0xaa, true), '\u{aa}');
    assert_eq!(shown_char(0x00, false), '.');
}

#[test]
fn drain_keeps_reading_until_signal() {
    let polls = [Ok(None), Ok(None), Ok(None), Ok(Some(())), Ok(None)];
    let mut reads = 0;
    for p in polls {
        reads += 1;
        match drain_decision(p) {
            DrainStep::KeepReading => continue,
            DrainStep::HandBack => break,
            DrainStep::Abort(_) => panic!("no sender was dropped"),
        }
    }
    assert_eq!(reads, 4);
}
