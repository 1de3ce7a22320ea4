//! Tests of the execute dispatcher, one instruction at a time.

use sicxe_vm::errors::VmError;
use sicxe_vm::format::{Effect, FloatOp, Format1, Format2, Format34, Instruction};
use sicxe_vm::machine::Machine;
use sicxe_vm::opcode;
use sicxe_vm::register::Register;

// Addressing flags `n i x b p e`, `e` lowest.
const SIMPLE: u8 = 0b110000;
const IMMEDIATE: u8 = 0b010000;
const INDIRECT: u8 = 0b100000;
const SIMPLE_PCREL: u8 = 0b110010;

fn f2(opcode: u8, r1: Register, r2: Register) -> Format2 {
    Format2 { opcode, r1, r2 }
}

fn f34(opcode: u8, address: u32, flags: u8) -> Format34 {
    Format34 { opcode, address, flags }
}

#[test]
fn clear_zeroes_every_general_register() {
    for r in [Register::A, Register::X, Register::L, Register::B, Register::S, Register::T] {
        let mut m = Machine::new();
        m.set_reg(&r, 0x123456);
        let result = f2(opcode::CLEAR, r, Register::A).exec(&mut m);
        assert_eq!(result, Ok(Effect::Done));
        assert_eq!(m.get_reg(&r), 0);
    }
}

#[test]
fn addr_adds_into_r2() {
    let mut m = Machine::new();
    m.set_reg(&Register::S, 2);
    m.set_reg(&Register::T, 3);
    assert_eq!(f2(opcode::ADDR, Register::S, Register::T).exec(&mut m), Ok(Effect::Done));
    assert_eq!(m.get_reg(&Register::T), 5);
}

#[test]
fn subr_subtracts_r1_from_r2() {
    let mut m = Machine::new();
    m.set_reg(&Register::S, 2);
    m.set_reg(&Register::T, 3);
    assert_eq!(f2(opcode::SUBR, Register::S, Register::T).exec(&mut m), Ok(Effect::Done));
    assert_eq!(m.get_reg(&Register::T), 1);
    // Subtraction wraps modulo 2^24.
    m.set_reg(&Register::A, 5);
    m.set_reg(&Register::X, 3);
    assert_eq!(f2(opcode::SUBR, Register::A, Register::X).exec(&mut m), Ok(Effect::Done));
    assert_eq!(m.get_reg(&Register::X), 0xFFFFFE);
}

#[test]
fn mulr_and_divr_compute_into_r2() {
    let mut m = Machine::new();
    m.set_reg(&Register::S, 6);
    m.set_reg(&Register::T, 7);
    assert_eq!(f2(opcode::MULR, Register::S, Register::T).exec(&mut m), Ok(Effect::Done));
    assert_eq!(m.get_reg(&Register::T), 42);
    m.set_reg(&Register::S, 5);
    assert_eq!(f2(opcode::DIVR, Register::S, Register::T).exec(&mut m), Ok(Effect::Done));
    assert_eq!(m.get_reg(&Register::T), 8);
}

#[test]
fn divr_by_zero_fails() {
    let mut m = Machine::new();
    m.set_reg(&Register::T, 9);
    assert_eq!(
        f2(opcode::DIVR, Register::S, Register::T).exec(&mut m),
        Err(VmError::DivisionByZero)
    );
    assert_eq!(m.get_reg(&Register::T), 9);
}

#[test]
fn compr_sets_the_condition_code() {
    let mut m = Machine::new();
    m.set_reg(&Register::S, 1);
    m.set_reg(&Register::T, 2);
    assert_eq!(f2(opcode::COMPR, Register::S, Register::T).exec(&mut m), Ok(Effect::Done));
    assert_eq!(m.get_reg(&Register::SW), 0x10);
    assert_eq!(f2(opcode::COMPR, Register::T, Register::S).exec(&mut m), Ok(Effect::Done));
    assert_eq!(m.get_reg(&Register::SW), 0x01);
    assert_eq!(f2(opcode::COMPR, Register::T, Register::T).exec(&mut m), Ok(Effect::Done));
    assert_eq!(m.get_reg(&Register::SW), 0x00);
}

#[test]
fn shifts_work_and_truncate_to_24_bits() {
    let mut m = Machine::new();
    m.set_reg(&Register::A, 0x800001);
    m.set_reg(&Register::X, 1);
    assert_eq!(f2(opcode::SHIFTL, Register::A, Register::X).exec(&mut m), Ok(Effect::Done));
    assert_eq!(m.get_reg(&Register::A), 0x000002);
    m.set_reg(&Register::A, 0x800001);
    assert_eq!(f2(opcode::SHIFTR, Register::A, Register::X).exec(&mut m), Ok(Effect::Done));
    assert_eq!(m.get_reg(&Register::A), 0x400000);
}

#[test]
fn rmo_moves_r1_into_r2() {
    let mut m = Machine::new();
    m.set_reg(&Register::A, 0x1234);
    assert_eq!(f2(opcode::RMO, Register::A, Register::X).exec(&mut m), Ok(Effect::Done));
    assert_eq!(m.get_reg(&Register::X), 0x1234);
}

#[test]
fn tixr_increments_x_then_compares() {
    // CLEAR X then TIXR with X itself: X becomes 1 and the compare
    // sees the incremented value on both sides, so SW reads equal.
    let mut m = Machine::new();
    m.set_reg(&Register::X, 7);
    assert_eq!(f2(opcode::CLEAR, Register::X, Register::X).exec(&mut m), Ok(Effect::Done));
    assert_eq!(f2(opcode::TIXR, Register::X, Register::X).exec(&mut m), Ok(Effect::Done));
    assert_eq!(m.get_reg(&Register::X), 1);
    assert_eq!(m.get_reg(&Register::SW), 0x00);
}

#[test]
fn svc_is_unimplemented() {
    let mut m = Machine::new();
    assert_eq!(
        f2(opcode::SVC, Register::A, Register::A).exec(&mut m),
        Err(VmError::Unimplemented { opcode: opcode::SVC })
    );
}

#[test]
fn format2_rejects_foreign_opcodes() {
    let mut m = Machine::new();
    assert_eq!(
        f2(opcode::LDA, Register::A, Register::A).exec(&mut m),
        Err(VmError::InvalidOpcode { opcode: opcode::LDA })
    );
}

#[test]
fn float_and_fix_hand_back_conversions() {
    let mut m = Machine::new();
    m.set_reg(&Register::A, 42);
    assert_eq!(
        Format1 { opcode: opcode::FLOAT }.exec(&mut m),
        Ok(Effect::Float { op: FloatOp::IntToFloat, x: 42, y: 0 })
    );
    m.set_reg(&Register::F, 0x123456);
    assert_eq!(
        Format1 { opcode: opcode::FIX }.exec(&mut m),
        Ok(Effect::Float { op: FloatOp::FloatToInt, x: 0x123456, y: 0 })
    );
}

#[test]
fn norm_is_unimplemented() {
    let mut m = Machine::new();
    assert_eq!(
        Format1 { opcode: opcode::NORM }.exec(&mut m),
        Err(VmError::Unimplemented { opcode: opcode::NORM })
    );
}

#[test]
fn lda_immediate_loads_the_address_itself() {
    let mut m = Machine::new();
    assert_eq!(f34(opcode::LDA, 0x123, IMMEDIATE).exec(&mut m), Ok(Effect::Done));
    assert_eq!(m.get_reg(&Register::A), 0x123);
}

#[test]
fn lda_simple_loads_the_word_at_the_address() {
    let mut m = Machine::new();
    m.write_word(0x80, 0xABCDEF);
    assert_eq!(f34(opcode::LDA, 0x80, SIMPLE).exec(&mut m), Ok(Effect::Done));
    assert_eq!(m.get_reg(&Register::A), 0xABCDEF);
}

#[test]
fn lda_indirect_follows_the_pointer() {
    let mut m = Machine::new();
    m.write_word(0x80, 0x000200);
    m.write_word(0x200, 0x424242);
    assert_eq!(f34(opcode::LDA, 0x80, INDIRECT).exec(&mut m), Ok(Effect::Done));
    assert_eq!(m.get_reg(&Register::A), 0x424242);
}

#[test]
fn twenty_four_bit_wrap_on_add() {
    // Load the largest 24-bit value immediately, add one, and the
    // accumulator wraps to zero.
    let mut m = Machine::new();
    assert_eq!(f34(opcode::LDA, 0xFFFFFF, IMMEDIATE).exec(&mut m), Ok(Effect::Done));
    assert_eq!(m.get_reg(&Register::A), 0xFFFFFF);
    assert_eq!(f34(opcode::ADD, 1, IMMEDIATE).exec(&mut m), Ok(Effect::Done));
    assert_eq!(m.get_reg(&Register::A), 0);
}

#[test]
fn arithmetic_on_a_with_memory_operands() {
    let mut m = Machine::new();
    m.write_word(0x90, 10);
    m.set_reg(&Register::A, 7);
    assert_eq!(f34(opcode::ADD, 0x90, SIMPLE).exec(&mut m), Ok(Effect::Done));
    assert_eq!(m.get_reg(&Register::A), 17);
    assert_eq!(f34(opcode::SUB, 0x90, SIMPLE).exec(&mut m), Ok(Effect::Done));
    assert_eq!(m.get_reg(&Register::A), 7);
    assert_eq!(f34(opcode::MUL, 0x90, SIMPLE).exec(&mut m), Ok(Effect::Done));
    assert_eq!(m.get_reg(&Register::A), 70);
    assert_eq!(f34(opcode::DIV, 0x90, SIMPLE).exec(&mut m), Ok(Effect::Done));
    assert_eq!(m.get_reg(&Register::A), 7);
}

#[test]
fn div_by_zero_word_fails() {
    let mut m = Machine::new();
    m.set_reg(&Register::A, 7);
    assert_eq!(f34(opcode::DIV, 0x90, SIMPLE).exec(&mut m), Err(VmError::DivisionByZero));
}

#[test]
fn stores_write_the_register_word() {
    let mut m = Machine::new();
    m.set_reg(&Register::A, 0x111111);
    m.set_reg(&Register::X, 0x222222);
    m.set_reg(&Register::L, 0x333333);
    assert_eq!(f34(opcode::STA, 0x400, IMMEDIATE).exec(&mut m), Ok(Effect::Done));
    assert_eq!(f34(opcode::STX, 0x404, IMMEDIATE).exec(&mut m), Ok(Effect::Done));
    assert_eq!(f34(opcode::STL, 0x408, IMMEDIATE).exec(&mut m), Ok(Effect::Done));
    assert_eq!(m.read_word(0x400), 0x111111);
    assert_eq!(m.read_word(0x404), 0x222222);
    assert_eq!(m.read_word(0x408), 0x333333);
}

#[test]
fn store_beyond_memory_fails() {
    let mut m = Machine::new();
    assert_eq!(
        f34(opcode::STA, 0xFFFFFF, IMMEDIATE).exec(&mut m),
        Err(VmError::AddressOutOfBounds { address: 0xFFFFFF })
    );
}

#[test]
fn comp_and_branches_follow_the_condition_code() {
    let mut m = Machine::new();
    m.set_reg(&Register::A, 5);
    assert_eq!(f34(opcode::COMP, 9, IMMEDIATE).exec(&mut m), Ok(Effect::Done));
    assert_eq!(m.get_reg(&Register::SW), 0x10);
    // JLT takes the branch.
    assert_eq!(f34(opcode::JLT, 0x600, IMMEDIATE).exec(&mut m), Ok(Effect::Done));
    assert_eq!(m.get_reg(&Register::PC), 0x600);
    // JEQ does not.
    assert_eq!(f34(opcode::JEQ, 0x700, IMMEDIATE).exec(&mut m), Ok(Effect::Done));
    assert_eq!(m.get_reg(&Register::PC), 0x600);
    // J always does.
    assert_eq!(f34(opcode::J, 0x123, IMMEDIATE).exec(&mut m), Ok(Effect::Done));
    assert_eq!(m.get_reg(&Register::PC), 0x123);
}

#[test]
fn jgt_branches_on_greater() {
    let mut m = Machine::new();
    m.set_reg(&Register::A, 5);
    assert_eq!(f34(opcode::COMP, 1, IMMEDIATE).exec(&mut m), Ok(Effect::Done));
    assert_eq!(m.get_reg(&Register::SW), 0x01);
    assert_eq!(f34(opcode::JGT, 0x900, IMMEDIATE).exec(&mut m), Ok(Effect::Done));
    assert_eq!(m.get_reg(&Register::PC), 0x900);
}

#[test]
fn tix_increments_x_and_compares_with_the_operand() {
    let mut m = Machine::new();
    assert_eq!(f34(opcode::TIX, 1, IMMEDIATE).exec(&mut m), Ok(Effect::Done));
    assert_eq!(m.get_reg(&Register::X), 1);
    assert_eq!(m.get_reg(&Register::SW), 0x00);
}

#[test]
fn and_or_mask_the_accumulator() {
    let mut m = Machine::new();
    m.set_reg(&Register::A, 0xF0F0F0);
    assert_eq!(f34(opcode::AND, 0x0F00F0, IMMEDIATE).exec(&mut m), Ok(Effect::Done));
    assert_eq!(m.get_reg(&Register::A), 0x0000F0);
    assert_eq!(f34(opcode::OR, 0x0F0000, IMMEDIATE).exec(&mut m), Ok(Effect::Done));
    assert_eq!(m.get_reg(&Register::A), 0x0F00F0);
}

#[test]
fn jsub_links_and_rsub_returns() {
    let mut m = Machine::new();
    m.set_reg(&Register::PC, 0x103);
    assert_eq!(f34(opcode::JSUB, 0x500, IMMEDIATE).exec(&mut m), Ok(Effect::Done));
    assert_eq!(m.get_reg(&Register::L), 0x103);
    assert_eq!(m.get_reg(&Register::PC), 0x500);
    // The subroutine body leaves L alone; RSUB resumes after the JSUB.
    assert_eq!(f34(opcode::RSUB, 0, SIMPLE).exec(&mut m), Ok(Effect::Done));
    assert_eq!(m.get_reg(&Register::PC), 0x103);
}

#[test]
fn ldch_replaces_only_the_low_byte() {
    let mut m = Machine::new();
    m.set_reg(&Register::A, 0xAABBCC);
    m.write_byte(0x40, 0x99);
    // The word at 0x3E..0x40 has 0x99 as its low byte.
    assert_eq!(f34(opcode::LDCH, 0x3E, SIMPLE).exec(&mut m), Ok(Effect::Done));
    assert_eq!(m.get_reg(&Register::A), 0xAABB99);
}

#[test]
fn stch_stores_only_the_low_byte() {
    let mut m = Machine::new();
    m.set_reg(&Register::A, 0xAABBCC);
    assert_eq!(f34(opcode::STCH, 0x50, IMMEDIATE).exec(&mut m), Ok(Effect::Done));
    assert_eq!(m.read_byte(0x50), 0xCC);
}

#[test]
fn float_arithmetic_hands_back_effects() {
    let mut m = Machine::new();
    m.set_reg(&Register::F, 0x111111);
    assert_eq!(
        f34(opcode::ADDF, 0x222222, IMMEDIATE).exec(&mut m),
        Ok(Effect::Float { op: FloatOp::Add, x: 0x111111, y: 0x222222 })
    );
    assert_eq!(
        f34(opcode::SUBF, 0x222222, IMMEDIATE).exec(&mut m),
        Ok(Effect::Float { op: FloatOp::Sub, x: 0x111111, y: 0x222222 })
    );
    assert_eq!(
        f34(opcode::MULF, 0x222222, IMMEDIATE).exec(&mut m),
        Ok(Effect::Float { op: FloatOp::Mul, x: 0x111111, y: 0x222222 })
    );
    assert_eq!(
        f34(opcode::DIVF, 0x222222, IMMEDIATE).exec(&mut m),
        Ok(Effect::Float { op: FloatOp::Div, x: 0x111111, y: 0x222222 })
    );
}

#[test]
fn divf_by_the_zero_pattern_fails() {
    let mut m = Machine::new();
    assert_eq!(f34(opcode::DIVF, 0, IMMEDIATE).exec(&mut m), Err(VmError::DivisionByZero));
}

#[test]
fn compf_compares_bit_patterns() {
    let mut m = Machine::new();
    m.set_reg(&Register::F, 0x100);
    assert_eq!(f34(opcode::COMPF, 0x200, IMMEDIATE).exec(&mut m), Ok(Effect::Done));
    assert_eq!(m.get_reg(&Register::SW), 0x10);
}

#[test]
fn device_instructions_hand_back_effects() {
    let mut m = Machine::new();
    // The device id lives in memory at the re-merged displacement.
    // With all flags zero the displacement is the byte address.
    m.write_byte(0x77, 0x10);
    assert_eq!(
        f34(opcode::RD, 0x77, 0).exec(&mut m),
        Ok(Effect::DeviceRead { device: 0x10 })
    );
    m.set_reg(&Register::A, 0xAABBCC);
    assert_eq!(
        f34(opcode::WD, 0x77, 0).exec(&mut m),
        Ok(Effect::DeviceWrite { device: 0x10, value: 0xCC })
    );
    assert_eq!(
        f34(opcode::TD, 0x77, 0).exec(&mut m),
        Ok(Effect::DeviceTest { device: 0x10 })
    );
}

#[test]
fn device_input_and_status_complete_the_effects() {
    let mut m = Machine::new();
    m.device_input(0x5A);
    assert_eq!(m.get_reg(&Register::A), 0x5A);
    m.device_status(true);
    assert_eq!(m.get_reg(&Register::SW), 0x00);
    m.device_status(false);
    assert_eq!(m.get_reg(&Register::SW), 0x01);
}

#[test]
fn lps_sti_ssk_are_unimplemented() {
    for op in [opcode::LPS, opcode::STI, opcode::SSK] {
        let mut m = Machine::new();
        assert_eq!(
            f34(op, 0, IMMEDIATE).exec(&mut m),
            Err(VmError::Unimplemented { opcode: op })
        );
    }
}

#[test]
fn pc_relative_negative_displacement() {
    // With PC already advanced to 0x100, a displacement of 0xFFE
    // (minus two) addresses 0x0FE.
    let mut m = Machine::new();
    m.set_reg(&Register::PC, 0x100);
    assert_eq!(f34(opcode::J, 0xFFE, SIMPLE_PCREL).exec(&mut m), Ok(Effect::Done));
    assert_eq!(m.get_reg(&Register::PC), 0x0FE);
}

#[test]
fn base_relative_addressing_adds_the_displacement_to_b() {
    let mut m = Machine::new();
    m.set_reg(&Register::B, 0x1000);
    m.write_word(0x1010, 0x654321);
    // Flags: simple addressing with the base flag set.
    assert_eq!(f34(opcode::LDA, 0x10, 0b110100).exec(&mut m), Ok(Effect::Done));
    assert_eq!(m.get_reg(&Register::A), 0x654321);
}

#[test]
fn shifts_by_large_counts_clear_the_register() {
    let mut m = Machine::new();
    m.set_reg(&Register::A, 0x123456);
    m.set_reg(&Register::X, 24);
    assert_eq!(f2(opcode::SHIFTL, Register::A, Register::X).exec(&mut m), Ok(Effect::Done));
    assert_eq!(m.get_reg(&Register::A), 0);
    m.set_reg(&Register::A, 0x123456);
    m.set_reg(&Register::X, 32);
    assert_eq!(f2(opcode::SHIFTR, Register::A, Register::X).exec(&mut m), Ok(Effect::Done));
    assert_eq!(m.get_reg(&Register::A), 0);
}

#[test]
fn stsw_stores_the_status_word_at_the_operand() {
    let mut m = Machine::new();
    m.cmp_vals(1, 2);
    assert_eq!(f34(opcode::STSW, 0x500, IMMEDIATE).exec(&mut m), Ok(Effect::Done));
    assert_eq!(m.read_word(0x500), 0x10);
}
