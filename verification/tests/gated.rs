use chardev::errors::DeviceError;
use chardev::gate::CompletionGate;
use chardev::gated::{read_returns_immediately, GatedDevice, MAX_MESSAGE_LEN};

#[test]
fn write_signals_gate_and_message_reads_back() {
    let mut dev = GatedDevice::new();
    assert!(!dev.message_ready());
    assert_eq!(dev.write(b"hello"), Ok(5));
    assert!(dev.message_ready());
    assert_eq!(dev.take_message(), b"hello".to_vec());
    assert!(!dev.message_ready());
}

#[test]
fn zero_byte_write_still_signals_and_reads_empty() {
    let mut dev = GatedDevice::new();
    assert_eq!(dev.write(&[]), Ok(0));
    assert!(dev.message_ready());
    assert_eq!(dev.take_message(), Vec::<u8>::new());
}

#[test]
fn longest_message_round_trips() {
    let mut dev = GatedDevice::new();
    let data: Vec<u8> = (0..MAX_MESSAGE_LEN).map(|i| i as u8).collect();
    assert_eq!(dev.write(&data), Ok(MAX_MESSAGE_LEN));
    assert_eq!(dev.take_message(), data);
}

#[test]
fn oversize_message_rejected_whole() {
    let mut dev = GatedDevice::new();
    let data = vec![9u8; MAX_MESSAGE_LEN + 1];
    assert_eq!(dev.write(&data), Err(DeviceError::CapacityExceeded));
    assert!(!dev.message_ready());
    assert_eq!(dev.try_take_message(), None);
}

#[test]
fn rejected_write_leaves_previous_message() {
    let mut dev = GatedDevice::new();
    assert_eq!(dev.write(b"keep"), Ok(4));
    let too_long = vec![1u8; MAX_MESSAGE_LEN + 1];
    assert_eq!(dev.write(&too_long), Err(DeviceError::CapacityExceeded));
    assert!(dev.message_ready());
    assert_eq!(dev.take_message(), b"keep".to_vec());
}

#[test]
fn later_write_replaces_message_whole() {
    let mut dev = GatedDevice::new();
    assert_eq!(dev.write(b"a much longer first message"), Ok(27));
    assert_eq!(dev.write(b"short"), Ok(5));
    assert_eq!(dev.take_message(), b"short".to_vec());
}

#[test]
fn handoff_is_reusable_cycle_by_cycle() {
    let mut dev = GatedDevice::new();
    assert_eq!(dev.write(b"first"), Ok(5));
    assert_eq!(dev.take_message(), b"first".to_vec());
    assert!(!dev.message_ready());
    assert_eq!(dev.write(b"second"), Ok(6));
    assert_eq!(dev.take_message(), b"second".to_vec());
    assert!(!dev.message_ready());
}

#[test]
fn try_take_returns_nothing_until_a_write() {
    let mut dev = GatedDevice::new();
    assert_eq!(dev.try_take_message(), None);
    assert_eq!(dev.write(b"now"), Ok(3));
    assert_eq!(dev.try_take_message(), Some(b"now".to_vec()));
    assert_eq!(dev.try_take_message(), None);
}

#[test]
fn read_decision_bypasses_only_degenerate_requests() {
    assert!(read_returns_immediately(0, 0));
    assert!(read_returns_immediately(0, 3));
    assert!(read_returns_immediately(16, 1));
    assert!(!read_returns_immediately(16, 0));
    assert!(!read_returns_immediately(1, 0));
}

#[test]
fn gate_signal_is_not_cumulative() {
    let mut gate = CompletionGate::new();
    assert!(!gate.is_ready());
    gate.signal();
    gate.signal();
    assert!(gate.is_ready());
    gate.consume();
    assert!(!gate.is_ready());
}
