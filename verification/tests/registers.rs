use hwio::EchoBackend;
use hwio::Io;
use hwio::Mmio;
use hwio::Pio;
use hwio::PortRequest;
use hwio::decode_le;
use hwio::encode_le;
use hwio::port_read;
use hwio::port_write;
use hwio::width_is_valid;

#[test]
fn encode_decode_round_trip_width_1() {
    for v in [0u32, 1, 0x41, 0x7f, 0xff] {
        let bytes = encode_le(v, 1);
        assert_eq!(bytes.len(), 1);
        assert_eq!(decode_le(&bytes), v);
    }
}

#[test]
fn encode_decode_round_trip_width_2() {
    for v in [0u32, 1, 0x1234, 0x8000, 0xffff] {
        let bytes = encode_le(v, 2);
        assert_eq!(bytes.len(), 2);
        assert_eq!(decode_le(&bytes), v);
    }
}

#[test]
fn encode_decode_round_trip_width_4() {
    for v in [0u32, 1, 0xdead_beef, 0x8000_0000, 0xffff_ffff] {
        let bytes = encode_le(v, 4);
        assert_eq!(bytes.len(), 4);
        assert_eq!(decode_le(&bytes), v);
    }
}

#[test]
fn encode_is_little_endian() {
    assert_eq!(encode_le(0x41, 1), vec![0x41]);
    assert_eq!(encode_le(0x1234, 2), vec![0x34, 0x12]);
    assert_eq!(encode_le(0xdead_beef, 4), vec![0xef, 0xbe, 0xad, 0xde]);
}

#[test]
fn decode_is_little_endian() {
    assert_eq!(decode_le(&[0x34, 0x12]), 0x1234);
    assert_eq!(decode_le(&[0xef, 0xbe, 0xad, 0xde]), 0xdead_beef);
}

#[test]
fn widths_other_than_1_2_4_are_invalid() {
    assert!(width_is_valid(1));
    assert!(width_is_valid(2));
    assert!(width_is_valid(4));
    for w in [0usize, 3, 5, 8, 16] {
        assert!(!width_is_valid(w));
    }
}

#[test]
fn invalid_width_read_is_refused_before_any_transfer() {
    let mut dev = EchoBackend::new();
    let reg: Pio<u16> = Pio::new(0x1F0);
    reg.write(&mut dev, 0x1234);
    let before = dev.recorded();

    assert!(port_read(&mut dev, 0x1F0, 3).is_none());
    assert!(port_read(&mut dev, 0x1F0, 0).is_none());

    // The device observed nothing: its record is exactly what it was.
    assert_eq!(dev.recorded(), before);
}

#[test]
fn invalid_width_write_is_refused_before_any_transfer() {
    let mut dev = EchoBackend::new();
    let reg: Pio<u8> = Pio::new(0x60);
    reg.write(&mut dev, 0xAA);
    let before = dev.recorded();

    assert!(!port_write(&mut dev, 0x60, &[1, 2, 3]));
    assert!(!port_write(&mut dev, 0x60, &[]));

    assert_eq!(dev.recorded(), before);
}

#[test]
fn valid_width_dispatch_reaches_the_device() {
    let mut dev = EchoBackend::new();
    assert!(port_write(&mut dev, 0x3F8, &[0x41]));
    assert_eq!(dev.recorded(), Some((0x3F8, vec![0x41])));
    let back = port_read(&mut dev, 0x3F8, 1).unwrap();
    assert_eq!(back, vec![0x41]);
}

#[test]
fn scenario_serial_port_byte_echoes_back() {
    let mut dev = EchoBackend::new();
    let reg: Pio<u8> = Pio::new(0x3F8);
    reg.write(&mut dev, 0x41);
    assert_eq!(reg.read(&mut dev), 0x41);
}

#[test]
fn scenario_ata_port_word_is_little_endian_on_the_wire() {
    let mut dev = EchoBackend::new();
    let reg: Pio<u16> = Pio::new(0x1F0);
    reg.write(&mut dev, 0x1234);
    assert_eq!(dev.recorded(), Some((0x1F0, vec![0x34, 0x12])));
}

#[test]
fn port_word_read_after_write_returns_the_value() {
    let mut dev = EchoBackend::new();
    let reg: Pio<u16> = Pio::new(0x1F0);
    reg.write(&mut dev, 0x1234);
    assert_eq!(reg.read(&mut dev), 0x1234);
}

#[test]
fn port_doubleword_read_after_write_returns_the_value() {
    let mut dev = EchoBackend::new();
    let reg: Pio<u32> = Pio::new(0xCF8);
    reg.write(&mut dev, 0xdead_beef);
    assert_eq!(reg.read(&mut dev), 0xdead_beef);
}

#[test]
fn read_of_unwritten_port_returns_zero() {
    let mut dev = EchoBackend::new();
    let reg: Pio<u32> = Pio::new(0x170);
    assert_eq!(reg.read(&mut dev), 0);
}

#[test]
fn read_of_other_port_than_written_returns_zero() {
    let mut dev = EchoBackend::new();
    let written: Pio<u8> = Pio::new(0x60);
    let other: Pio<u8> = Pio::new(0x64);
    written.write(&mut dev, 0x5A);
    assert_eq!(other.read(&mut dev), 0);
}

#[test]
fn port_register_is_copyable_and_stateless() {
    let reg: Pio<u8> = Pio::new(0x3F8);
    let copy = reg;
    assert_eq!(reg.port, 0x3F8);
    assert_eq!(copy.port, 0x3F8);
}

#[test]
fn scenario_mmio_doubleword_round_trip() {
    let mut reg: Mmio<u32> = Mmio::new();
    reg.write(0xdead_beef);
    assert_eq!(reg.read(), 0xdead_beef);
}

#[test]
fn mmio_with_known_reset_value_reads_it() {
    let reg: Mmio<u16> = Mmio::with_value(0x8086);
    assert_eq!(reg.read(), 0x8086);
}

#[test]
fn mmio_last_write_wins() {
    let mut reg: Mmio<u8> = Mmio::new();
    reg.write(0x01);
    reg.write(0x02);
    assert_eq!(reg.read(), 0x02);
}

#[test]
fn driver_write_request_zero_extends_the_value() {
    let req = PortRequest::write_request(0x1F0, &[0x34, 0x12]);
    assert!(req.write);
    assert_eq!(req.port, 0x1F0);
    assert_eq!(req.width, 2);
    assert_eq!(req.value, 0x0000_1234);
}

#[test]
fn driver_read_request_has_no_value() {
    let req = PortRequest::read_request(0x3F8, 1);
    assert!(!req.write);
    assert_eq!(req.port, 0x3F8);
    assert_eq!(req.width, 1);
    assert_eq!(req.value, 0);
}

#[test]
fn driver_response_is_truncated_to_the_requested_width() {
    let req = PortRequest::read_request(0x3F8, 1);
    assert_eq!(req.response_bytes(0x0000_1234), vec![0x34]);
    let req2 = PortRequest::read_request(0x1F0, 2);
    assert_eq!(req2.response_bytes(0xdead_beef), vec![0xef, 0xbe]);
    let req4 = PortRequest::read_request(0xCF8, 4);
    assert_eq!(req4.response_bytes(0xdead_beef), vec![0xef, 0xbe, 0xad, 0xde]);
}
