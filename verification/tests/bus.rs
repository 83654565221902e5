use helium::devices::device::Device;
use helium::devices::stdout_ascii_buffer::CharIOBuffer;
use helium::devices::term_link::TermLinkPort;
use helium::helium::io_controller::IOController;

#[test]
fn unmapped_read_returns_zero() {
    let mut bus: IOController<CharIOBuffer> = IOController::new(false);
    bus.mount_device(10..20, CharIOBuffer::new());
    assert_eq!(bus.read(5), 0);
    assert_eq!(bus.read(20), 0);
}

#[test]
fn unmapped_write_is_a_no_op() {
    let mut bus: IOController<CharIOBuffer> = IOController::new(false);
    bus.mount_device(10..20, CharIOBuffer::new());
    bus.write(25, 7);
    bus.write(9, 7);
    for cell in bus.devices[0].device.buffer.iter() {
        assert_eq!(*cell, 0);
    }
}

#[test]
fn overlapping_reads_are_or_combined() {
    let mut bus: IOController<CharIOBuffer> = IOController::new(false);
    bus.mount_device(0..10, CharIOBuffer::new());
    bus.mount_device(5..15, CharIOBuffer::new());
    // Address 7 is cell 7 of the first device and cell 2 of the second.
    bus.devices[0].device.buffer[7] = 0b0000_0101;
    bus.devices[1].device.buffer[2] = 0b0011_0000;
    assert_eq!(bus.read(7), 0b0011_0101);
}

#[test]
fn overlapping_write_reaches_both_devices() {
    let mut bus: IOController<CharIOBuffer> = IOController::new(false);
    bus.mount_device(0..10, CharIOBuffer::new());
    bus.mount_device(5..15, CharIOBuffer::new());
    bus.write(7, 42);
    assert_eq!(bus.devices[0].device.buffer[7], 42);
    assert_eq!(bus.devices[1].device.buffer[2], 42);
    assert_eq!(bus.devices[0].device.buffer[2], 0);
}

#[test]
fn poll_with_no_requests_returns_none() {
    let mut bus: IOController<TermLinkPort> = IOController::new(false);
    bus.mount_device(0..3, TermLinkPort::new(1));
    assert_eq!(bus.device_has_interrupt_request(), None);
}

#[test]
fn poll_ors_interrupt_codes() {
    let mut bus: IOController<TermLinkPort> = IOController::new(false);
    let mut a = TermLinkPort::new(0b01);
    let mut b = TermLinkPort::new(0b10);
    a.note_connected();
    b.note_connected();
    bus.mount_device(0..3, a);
    bus.mount_device(3..6, b);
    assert_eq!(bus.device_has_interrupt_request(), Some(0b11));
    // The poll consumed both requests.
    assert_eq!(bus.device_has_interrupt_request(), None);
}

#[test]
fn poll_logs_one_entry_per_reporting_device() {
    let mut bus: IOController<TermLinkPort> = IOController::new(true);
    let mut a = TermLinkPort::new(4);
    a.note_byte(b'x');
    bus.mount_device(0..3, a);
    bus.mount_device(3..6, TermLinkPort::new(8));
    assert_eq!(bus.device_has_interrupt_request(), Some(4));
    let log = bus.interrupt_log.as_ref().unwrap();
    assert_eq!(log.len(), 1);
    assert_eq!(log[0].code, 4);
    assert_eq!(log[0].message, "byte received; ");
}

#[test]
fn mount_warns_on_size_mismatch() {
    let mut bus: IOController<CharIOBuffer> = IOController::new(false);
    // The character buffer declares 50 cells.
    assert!(bus.mount_device(0..10, CharIOBuffer::new()));
    assert!(!bus.mount_device(0..50, CharIOBuffer::new()));
}

#[test]
fn term_link_registers() {
    let mut port = TermLinkPort::new(1);
    assert_eq!(port.read(0), 0);
    port.note_connected();
    assert_eq!(port.read(0), 1);
    port.note_byte(65);
    assert_eq!(port.read(1), 65);
    // The write slot reads as 0 and feeds the transport.
    port.write(2, 99);
    assert_eq!(port.read(2), 0);
    assert_eq!(port.take_output(), Some(99));
    assert_eq!(port.take_output(), None);
    port.note_connection_lost();
    assert_eq!(port.read(0), 0);
}

#[test]
fn char_buffer_ascii_rendering() {
    let mut dev = CharIOBuffer::new();
    dev.buffer[0] = b'H';
    dev.buffer[1] = b'i';
    let text = dev.as_ascii_str();
    assert_eq!(text.len(), 50);
    assert!(text.starts_with("Hi"));
    assert!(text[2..].chars().all(|c| c == '\0'));
    dev.buffer[3] = 200;
    assert_eq!(dev.as_ascii_str(), "ERROR STR");
}
