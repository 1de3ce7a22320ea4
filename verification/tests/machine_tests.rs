//! Tests of the register file, the memory, and the device table.

use sicxe_vm::device::DeviceKind;
use sicxe_vm::errors::Error;
use sicxe_vm::machine::{Machine, MAX_ADDRESS};
use sicxe_vm::register::Register;

#[test]
fn registers_start_zeroed() {
    let m = Machine::new();
    assert_eq!(m.get_reg(&Register::A), 0);
    assert_eq!(m.get_reg(&Register::X), 0);
    assert_eq!(m.get_reg(&Register::L), 0);
    assert_eq!(m.get_reg(&Register::B), 0);
    assert_eq!(m.get_reg(&Register::S), 0);
    assert_eq!(m.get_reg(&Register::T), 0);
    assert_eq!(m.get_reg(&Register::F), 0);
    assert_eq!(m.get_reg(&Register::PC), 0);
    assert_eq!(m.get_reg(&Register::SW), 0);
}

#[test]
fn set_and_get_registers() {
    let mut m = Machine::new();
    m.set_reg(&Register::A, 0x123456);
    m.set_reg(&Register::PC, 0x42);
    assert_eq!(m.get_reg(&Register::A), 0x123456);
    assert_eq!(m.get_reg(&Register::PC), 0x42);
}

#[test]
fn register_index_round_trip() {
    let named = [
        Register::A,
        Register::X,
        Register::L,
        Register::B,
        Register::S,
        Register::T,
        Register::F,
        Register::PC,
        Register::SW,
    ];
    for r in named {
        let index = r.to_index();
        assert_eq!(Register::from_index(index as u8), Ok(r));
    }
}

#[test]
fn register_names_keep_their_indices() {
    assert_eq!(Register::A.to_index(), 0);
    assert_eq!(Register::X.to_index(), 1);
    assert_eq!(Register::L.to_index(), 2);
    assert_eq!(Register::B.to_index(), 3);
    assert_eq!(Register::S.to_index(), 4);
    assert_eq!(Register::T.to_index(), 5);
    assert_eq!(Register::F.to_index(), 6);
    assert_eq!(Register::PC.to_index(), 8);
    assert_eq!(Register::SW.to_index(), 9);
}

#[test]
fn invalid_register_indices_are_rejected() {
    for index in [7u8, 10, 11, 0x7F, 0xFF] {
        let r = Register::from_index(index);
        assert!(r.is_err());
        assert_eq!(r.unwrap_err().index, index);
    }
}

#[test]
fn get_reg_from_index_reads_the_named_register() {
    let mut m = Machine::new();
    m.set_reg(&Register::T, 99);
    assert_eq!(m.get_reg_from_index(5), Ok(99));
    assert!(m.get_reg_from_index(7).is_err());
}

#[test]
fn unwritten_memory_reads_zero() {
    let m = Machine::new();
    assert_eq!(m.read_byte(0), 0);
    assert_eq!(m.read_byte(0x1234), 0);
    assert_eq!(m.read_byte(MAX_ADDRESS), 0);
}

#[test]
fn byte_write_read_round_trip() {
    let mut m = Machine::new();
    m.write_byte(0x10, 0xAB);
    m.write_byte(MAX_ADDRESS, 0xCD);
    assert_eq!(m.read_byte(0x10), 0xAB);
    assert_eq!(m.read_byte(MAX_ADDRESS), 0xCD);
    assert_eq!(m.read_byte(0x11), 0);
}

#[test]
fn word_round_trip_is_big_endian() {
    let mut m = Machine::new();
    m.write_word(0x100, 0x123456);
    assert_eq!(m.read_word(0x100), 0x123456);
    assert_eq!(m.read_byte(0x100), 0x12);
    assert_eq!(m.read_byte(0x101), 0x34);
    assert_eq!(m.read_byte(0x102), 0x56);
}

#[test]
fn word_write_truncates_to_24_bits() {
    let mut m = Machine::new();
    m.write_word(0x200, 0xFF123456);
    assert_eq!(m.read_word(0x200), 0x123456);
    m.write_word(0x200, 0xFFFFFFFF);
    assert_eq!(m.read_word(0x200), 0xFFFFFF);
    m.write_word(0, 0);
    assert_eq!(m.read_word(0), 0);
}

#[test]
fn float_bit_patterns_survive_a_word_round_trip() {
    // The float helpers store a 32-bit IEEE-754 pattern in a 24-bit
    // word, so a pattern that fits in 24 bits survives unchanged.
    let f = f32::from_bits(0x00123456);
    let mut m = Machine::new();
    m.write_word(0x300, f.to_bits());
    let back = f32::from_bits(m.read_word(0x300));
    assert_eq!(back.to_bits(), f.to_bits());
    // A pattern that does not fit loses its top byte.
    let g = 1.5f32;
    m.write_word(0x300, g.to_bits());
    assert_eq!(m.read_word(0x300), g.to_bits() & 0x00FF_FFFF);
}

#[test]
fn cmp_vals_uses_the_three_condition_codes() {
    let mut m = Machine::new();
    m.cmp_vals(1, 2);
    assert_eq!(m.get_reg(&Register::SW), 0x10);
    m.cmp_vals(2, 2);
    assert_eq!(m.get_reg(&Register::SW), 0x00);
    m.cmp_vals(3, 2);
    assert_eq!(m.get_reg(&Register::SW), 0x01);
}

#[test]
fn cmp_reg_compares_the_register_value() {
    let mut m = Machine::new();
    m.set_reg(&Register::S, 5);
    m.cmp_reg(&Register::S, 9);
    assert_eq!(m.get_reg(&Register::SW), 0x10);
}

#[test]
fn inc_x_increments_and_wraps() {
    let mut m = Machine::new();
    m.inc_x();
    assert_eq!(m.get_reg(&Register::X), 1);
    m.set_reg(&Register::X, 0xFFFFFF);
    m.inc_x();
    assert_eq!(m.get_reg(&Register::X), 0);
}

#[test]
fn standard_devices_are_installed() {
    let mut m = Machine::new();
    assert_eq!(m.get_device(0), DeviceKind::StdIn);
    assert_eq!(m.get_device(1), DeviceKind::StdOut);
    assert_eq!(m.get_device(2), DeviceKind::StdErr);
}

#[test]
fn unknown_device_ids_materialise_file_devices() {
    let mut m = Machine::new();
    assert_eq!(m.get_device(0x10), DeviceKind::FileBacked);
    // A second reference finds the same device.
    assert_eq!(m.get_device(0x10), DeviceKind::FileBacked);
    // The standard streams are never replaced.
    assert_eq!(m.get_device(0), DeviceKind::StdIn);
}

#[test]
fn reset_clears_state_and_reinstalls_standard_devices() {
    let mut m = Machine::new();
    m.set_reg(&Register::A, 5);
    m.write_byte(0, 0xFF);
    m.get_device(0x10);
    m.reset();
    assert_eq!(m.get_reg(&Register::A), 0);
    assert_eq!(m.read_byte(0), 0);
    assert_eq!(m.get_device(0), DeviceKind::StdIn);
    assert_eq!(m.get_device(1), DeviceKind::StdOut);
    assert_eq!(m.get_device(2), DeviceKind::StdErr);
}

#[test]
fn register_error_message_mentions_the_register() {
    let e = Register::from_index(12).unwrap_err();
    assert!(e.message().contains("register"));
}
