use hid_proxy::address::BtAddr;
use hid_proxy::relay::{ChannelRole, ReadOutcome, RelayAction, RelayEngine, Side};
use hid_proxy::report::{is_device_info_reply, rewrite_device_info};

const OLD_ADDR: [u8; 6] = [0x98, 0xb6, 0xe9, 0x11, 0x22, 0x33];
const NEW_ADDR: [u8; 6] = [0xdc, 0xa6, 0x32, 0x44, 0x55, 0x66];

fn device_info_report() -> Vec<u8> {
    let mut r: Vec<u8> = (0..50u8).map(|i| i.wrapping_mul(7)).collect();
    r[0] = 0xa1;
    r[1] = 0x21;
    r[15] = 0x02;
    r[20..26].copy_from_slice(&OLD_ADDR);
    r
}

#[test]
fn device_info_reply_gets_adapter_address() {
    let mut engine = RelayEngine::new(ChannelRole::Interrupt, BtAddr(NEW_ADDR));
    let input = device_info_report();
    let mut report = input.clone();
    let action = engine.step(Side::Controller, ReadOutcome::Received, &mut report);
    assert_eq!(action, RelayAction::Forward { to: Side::Console });
    assert_eq!(report.len(), 50);
    assert_eq!(&report[20..26], &NEW_ADDR);
    assert_eq!(&report[..20], &input[..20]);
    assert_eq!(&report[26..], &input[26..]);
    assert_eq!(engine.total_read(Side::Controller), 50);
    assert_eq!(engine.last_report(Side::Controller), &report);
}

#[test]
fn short_report_forwarded_verbatim() {
    let mut engine = RelayEngine::new(ChannelRole::Interrupt, BtAddr(NEW_ADDR));
    let input: Vec<u8> = vec![0xa1, 0x21, 3, 4, 5, 6, 7, 8, 9, 10];
    let mut report = input.clone();
    let action = engine.step(Side::Controller, ReadOutcome::Received, &mut report);
    assert_eq!(action, RelayAction::Forward { to: Side::Console });
    assert_eq!(report, input);
    assert_eq!(report.len(), 10);
}

#[test]
fn near_miss_reports_not_rewritten() {
    let mut wrong_id = device_info_report();
    wrong_id[1] = 0x30;
    let mut wrong_sub = device_info_report();
    wrong_sub[15] = 0x03;
    let mut longer = device_info_report();
    longer.push(0);
    for input in [wrong_id, wrong_sub, longer] {
        let mut engine = RelayEngine::new(ChannelRole::Interrupt, BtAddr(NEW_ADDR));
        let mut report = input.clone();
        engine.step(Side::Controller, ReadOutcome::Received, &mut report);
        assert_eq!(report, input);
    }
}

#[test]
fn console_and_control_reports_not_rewritten() {
    let input = device_info_report();
    let mut engine = RelayEngine::new(ChannelRole::Interrupt, BtAddr(NEW_ADDR));
    let mut report = input.clone();
    let action = engine.step(Side::Console, ReadOutcome::Received, &mut report);
    assert_eq!(action, RelayAction::Forward { to: Side::Controller });
    assert_eq!(report, input);

    let mut engine = RelayEngine::new(ChannelRole::Control, BtAddr(NEW_ADDR));
    let mut report = input.clone();
    engine.step(Side::Controller, ReadOutcome::Received, &mut report);
    assert_eq!(report, input);
}

#[test]
fn zero_length_read_closes() {
    let mut engine = RelayEngine::new(ChannelRole::Interrupt, BtAddr(NEW_ADDR));
    let mut data = vec![1u8, 2, 3];
    engine.step(Side::Console, ReadOutcome::Received, &mut data);
    let mut empty: Vec<u8> = Vec::new();
    let action = engine.step(Side::Console, ReadOutcome::Received, &mut empty);
    assert_eq!(action, RelayAction::Closed { side: Side::Console });
    assert!(engine.is_finished());
    let mut late = vec![9u8, 9];
    let action = engine.step(Side::Controller, ReadOutcome::Received, &mut late);
    assert_eq!(action, RelayAction::Finished);
    assert_eq!(late, vec![9u8, 9]);
    assert_eq!(engine.total_read(Side::Controller), 0);
    assert_eq!(engine.total_read(Side::Console), 3);
}

#[test]
fn both_sides_closed_terminates_once() {
    let mut engine = RelayEngine::new(ChannelRole::Interrupt, BtAddr(NEW_ADDR));
    let mut a = vec![1u8; 5];
    engine.step(Side::Controller, ReadOutcome::Received, &mut a);
    let mut b = vec![2u8; 7];
    engine.step(Side::Console, ReadOutcome::Received, &mut b);
    let mut e1: Vec<u8> = Vec::new();
    let mut e2: Vec<u8> = Vec::new();
    let first = engine.step(Side::Controller, ReadOutcome::Received, &mut e1);
    let second = engine.step(Side::Console, ReadOutcome::Received, &mut e2);
    assert_eq!(first, RelayAction::Closed { side: Side::Controller });
    assert_eq!(second, RelayAction::Finished);
    assert_eq!(engine.total_read(Side::Controller), 5);
    assert_eq!(engine.total_read(Side::Console), 7);
    assert_eq!(engine.last_report(Side::Console), &vec![2u8; 7]);
}

#[test]
fn failed_read_stops_relay() {
    let mut engine = RelayEngine::new(ChannelRole::Control, BtAddr(NEW_ADDR));
    let mut r: Vec<u8> = Vec::new();
    let action = engine.step(Side::Controller, ReadOutcome::Failed, &mut r);
    assert_eq!(action, RelayAction::Failed { side: Side::Controller });
    assert!(engine.is_finished());
    let mut more = vec![1u8];
    assert_eq!(engine.step(Side::Console, ReadOutcome::Received, &mut more), RelayAction::Finished);
}

#[test]
fn counters_accumulate_per_direction() {
    let mut engine = RelayEngine::new(ChannelRole::Interrupt, BtAddr(NEW_ADDR));
    for n in 1..=4usize {
        let mut r = vec![0u8; n];
        engine.step(Side::Console, ReadOutcome::Received, &mut r);
    }
    let mut r = vec![0u8; 49];
    engine.step(Side::Controller, ReadOutcome::Received, &mut r);
    assert_eq!(engine.total_read(Side::Console), 10);
    assert_eq!(engine.total_read(Side::Controller), 49);
    assert_eq!(engine.role(), ChannelRole::Interrupt);
}

#[test]
fn roles_and_sides() {
    assert_eq!(ChannelRole::Control.psm(), 17);
    assert_eq!(ChannelRole::Interrupt.psm(), 19);
    assert_eq!(ChannelRole::Interrupt.read_buffer_len(), 128);
    assert_eq!(ChannelRole::Control.read_buffer_len(), 512);
    assert_eq!(Side::Console.opposite(), Side::Controller);
    assert_eq!(Side::Controller.opposite(), Side::Console);
}

#[test]
fn rewrite_report_directly() {
    let mut r = device_info_report();
    assert!(is_device_info_reply(&r));
    rewrite_device_info(&mut r, &BtAddr(NEW_ADDR));
    assert_eq!(&r[20..26], &NEW_ADDR);
    let mut short = vec![0u8, 0x21];
    assert!(!is_device_info_reply(&short));
    rewrite_device_info(&mut short, &BtAddr(NEW_ADDR));
    assert_eq!(short, vec![0u8, 0x21]);
}

#[test]
fn many_reports_then_both_closed_counts_each_once() {
    let mut engine = RelayEngine::new(ChannelRole::Interrupt, BtAddr(NEW_ADDR));
    let controller_lens = [50usize, 10, 49, 1];
    let console_lens = [3usize, 64, 12];
    for (i, n) in controller_lens.iter().enumerate() {
        let mut r = if *n == 50 { device_info_report() } else { vec![0u8; *n] };
        assert_eq!(
            engine.step(Side::Controller, ReadOutcome::Received, &mut r),
            RelayAction::Forward { to: Side::Console }
        );
        assert_eq!(r.len(), *n);
        if let Some(m) = console_lens.get(i) {
            let mut c = vec![7u8; *m];
            engine.step(Side::Console, ReadOutcome::Received, &mut c);
        }
    }
    let mut e1: Vec<u8> = Vec::new();
    let mut e2: Vec<u8> = Vec::new();
    assert_eq!(
        engine.step(Side::Console, ReadOutcome::Received, &mut e1),
        RelayAction::Closed { side: Side::Console }
    );
    assert_eq!(engine.step(Side::Controller, ReadOutcome::Received, &mut e2), RelayAction::Finished);
    assert_eq!(engine.total_read(Side::Controller), 110);
    assert_eq!(engine.total_read(Side::Console), 79);
}
