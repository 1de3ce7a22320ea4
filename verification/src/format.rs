//! The three instruction shapes, their addressing modes, and the
//! execute dispatcher.
//!
//! Every instruction's semantics is a pure function of the machine
//! state, written once as a specification (`f1_step`, `f2_step`,
//! `f34_step`) and implemented by the `exec` methods, whose contracts
//! say exactly that they realize it.  Work the machine cannot do
//! itself — device byte transfers and floating-point arithmetic — is
//! returned as an [`Effect`] for the embedding program to carry out.

use vstd::prelude::*;
use crate::errors::VmError;
use crate::machine::{
    add24, add32, cmp_code, mask24, mul24, sub24, Machine, MachineView, MAX_ADDRESS,
};
use crate::opcode;
use crate::register::Register;

verus! {

/// A floating-point computation the caller performs on behalf of the
/// machine.  Operands and results travel as IEEE-754 bit patterns.
///
/// For `IntToFloat`, `Add`, `Sub`, `Mul` and `Div` the caller stores
/// the resulting bit pattern into `F`; for `FloatToInt` it stores the
/// integer part into `A`.
#[derive(Debug, Clone, Copy, PartialEq, Eq, Structural)]
pub enum FloatOp {
    /// Convert the integer `x` to a float (the FLOAT instruction).
    IntToFloat,
    /// Convert the float with bit pattern `x` to an integer (FIX).
    FloatToInt,
    /// The sum of the floats with bit patterns `x` and `y` (ADDF).
    Add,
    /// The difference `x - y` (SUBF).
    Sub,
    /// The product (MULF).
    Mul,
    /// The quotient `x / y` (DIVF); `y` is never the zero pattern.
    Div,
}

/// What an executed instruction asks of the embedding program.
#[derive(Debug, Clone, Copy, PartialEq, Eq, Structural)]
pub enum Effect {
    /// The instruction is complete; nothing to do.
    Done,
    /// Read one byte from the device and hand it to
    /// [`Machine::device_input`].
    DeviceRead { device: u8 },
    /// Write `value` to the device.
    DeviceWrite { device: u8, value: u8 },
    /// Test the device and hand the result to
    /// [`Machine::device_status`].
    DeviceTest { device: u8 },
    /// Perform the floating-point computation and store its result as
    /// the operation's description says.
    Float { op: FloatOp, x: u32, y: u32 },
}

/// A one-byte instruction: just an opcode.
pub struct Format1 {
    pub opcode: u8,
}

/// A two-byte register-to-register instruction.
pub struct Format2 {
    pub opcode: u8,
    pub r1: Register,
    pub r2: Register,
}

/// A three- or four-byte instruction with an addressing mode.
///
/// `address` is the 12-bit or 20-bit displacement field zero-extended;
/// `flags` packs the addressing bits `n i x b p e`, `e` lowest.
pub struct Format34 {
    pub opcode: u8,
    pub address: u32,
    pub flags: u8,
}

/// An instruction that can execute against a machine.
pub trait Instruction {
    fn exec(&self, machine: &mut Machine) -> Result<Effect, VmError>;
}

/// Whether a first byte selects Format 1.
pub open spec fn is_format1(first_byte: u8) -> bool {
    (0xC0 <= first_byte && first_byte <= 0xC8) || (0xF0 <= first_byte && first_byte <= 0xF8)
}

/// Whether a first byte selects Format 2.
pub open spec fn is_format2(first_byte: u8) -> bool {
    0x90 <= first_byte && first_byte <= 0xB8
}

/// Whether a first byte selects Format 3 or 4.
pub open spec fn is_format34(first_byte: u8) -> bool {
    first_byte <= 0x88 || (0xD0 <= first_byte && first_byte <= 0xE0)
}

/// The `e` (extended) flag.
pub open spec fn flag_e(flags: u8) -> bool {
    flags & 1 == 1
}

/// The `b` (base-relative) flag.
pub open spec fn flag_b(flags: u8) -> bool {
    (flags >> 1) & 0b10 != 0
}

/// The `p` (PC-relative) flag.
pub open spec fn flag_p(flags: u8) -> bool {
    (flags >> 1) & 1 == 1
}

/// Immediate addressing: `n = 0, i = 1`.
pub open spec fn flag_immediate(flags: u8) -> bool {
    (flags >> 4) & 1 == 1 && (flags >> 4) & 0b10 == 0
}

/// Indirect addressing: `n = 1, i = 0`.
pub open spec fn flag_indirect(flags: u8) -> bool {
    (flags >> 4) & 0b10 != 0 && (flags >> 4) & 1 == 0
}

/// A 12-bit displacement sign-extended to 32 bits.
pub open spec fn sext12(address: u32) -> u32 {
    if address & 0x800 != 0 {
        address | 0xFFFF_F000
    } else {
        address
    }
}

/// A 20-bit displacement sign-extended to 32 bits.
pub open spec fn sext20(address: u32) -> u32 {
    if address & 0x8_0000 != 0 {
        address | 0xFFF0_0000
    } else {
        address
    }
}

/// The effective address of a Format 3/4 instruction.
///
/// Base-relative addressing adds the unsigned displacement to `B`;
/// PC-relative addressing adds the sign-extended displacement (12 bits
/// for Format 3, 20 bits for Format 4) to the already-advanced `PC`;
/// otherwise the displacement is the address itself.
pub open spec fn effective_address(m: MachineView, address: u32, flags: u8) -> u32 {
    if flag_b(flags) {
        add32(m.b, address)
    } else if flag_p(flags) {
        add32(m.pc, if flag_e(flags) { sext20(address) } else { sext12(address) })
    } else {
        address
    }
}

/// The operand value and the address stores and jumps use, or the
/// out-of-bounds failure of a memory read the mode called for.
///
/// Immediate: the operand is the effective address itself.  Indirect:
/// the word at the effective address is a pointer; the operand is the
/// word it points at, and the pointer is what stores and jumps use.
/// Simple: the operand is the word at the effective address.
pub open spec fn operand(m: MachineView, address: u32, flags: u8) -> Result<(u32, u32), VmError> {
    let ea = effective_address(m, address, flags);
    if flag_immediate(flags) {
        Ok((ea, ea))
    } else if flag_indirect(flags) {
        if ea > MAX_ADDRESS - 2 {
            Err(VmError::AddressOutOfBounds { address: ea })
        } else {
            let ptr = m.word_at(ea);
            if ptr > MAX_ADDRESS - 2 {
                Err(VmError::AddressOutOfBounds { address: ptr })
            } else {
                Ok((m.word_at(ptr), ptr))
            }
        }
    } else {
        if ea > MAX_ADDRESS - 2 {
            Err(VmError::AddressOutOfBounds { address: ea })
        } else {
            Ok((m.word_at(ea), ea))
        }
    }
}

/// The byte address holding a device id: for RD, WD and TD the flag
/// bits are merged back into the displacement.
pub open spec fn device_pointer(address: u32, flags: u8) -> u32 {
    ((flags as u32) << 6) | address
}

/// A 24-bit value shifted left, truncated to 24 bits.
pub open spec fn shl24(v: u32, n: u32) -> u32 {
    if n >= 24 {
        0
    } else {
        (v << n) & 0x00FF_FFFF
    }
}

/// A value shifted right, truncated to 24 bits.
pub open spec fn shr24(v: u32, n: u32) -> u32 {
    if n >= 32 {
        0
    } else {
        (v >> n) & 0x00FF_FFFF
    }
}

/// What a Format 1 instruction does: the float conversions hand the
/// work back as an effect; the supervisor opcodes are recognized but
/// not executed.
pub open spec fn f1_step(m: MachineView, op: u8) -> (MachineView, Result<Effect, VmError>) {
    if op == opcode::FLOAT {
        (m, Ok(Effect::Float { op: FloatOp::IntToFloat, x: m.a, y: 0 }))
    } else if op == opcode::FIX {
        (m, Ok(Effect::Float { op: FloatOp::FloatToInt, x: m.f, y: 0 }))
    } else if op == opcode::NORM || op == opcode::SIO || op == opcode::HIO || op == opcode::TIO {
        (m, Err(VmError::Unimplemented { opcode: op }))
    } else {
        (m, Err(VmError::InvalidOpcode { opcode: op }))
    }
}

/// What a Format 2 instruction does.  Arithmetic is modular in 24
/// bits; a failing instruction leaves the machine unchanged.
pub open spec fn f2_step(m: MachineView, op: u8, r1: Register, r2: Register) -> (
    MachineView,
    Result<Effect, VmError>,
) {
    let v1 = m.reg(r1);
    let v2 = m.reg(r2);
    if op == opcode::ADDR {
        (m.with_reg(r2, add24(v1, v2)), Ok(Effect::Done))
    } else if op == opcode::SUBR {
        (m.with_reg(r2, sub24(v2, v1)), Ok(Effect::Done))
    } else if op == opcode::MULR {
        (m.with_reg(r2, mul24(v1, v2)), Ok(Effect::Done))
    } else if op == opcode::DIVR {
        if v1 == 0 {
            (m, Err(VmError::DivisionByZero))
        } else {
            (m.with_reg(r2, mask24(v2 / v1)), Ok(Effect::Done))
        }
    } else if op == opcode::COMPR {
        (m.with_reg(Register::SW, cmp_code(v1, v2)), Ok(Effect::Done))
    } else if op == opcode::SHIFTL {
        (m.with_reg(r1, shl24(v1, v2)), Ok(Effect::Done))
    } else if op == opcode::SHIFTR {
        (m.with_reg(r1, shr24(v1, v2)), Ok(Effect::Done))
    } else if op == opcode::RMO {
        (m.with_reg(r2, mask24(v1)), Ok(Effect::Done))
    } else if op == opcode::SVC {
        (m, Err(VmError::Unimplemented { opcode: op }))
    } else if op == opcode::CLEAR {
        (m.with_reg(r1, 0), Ok(Effect::Done))
    } else if op == opcode::TIXR {
        let m1 = m.with_reg(Register::X, add24(m.x, 1));
        (m1.with_reg(Register::SW, cmp_code(m1.x, m1.reg(r1))), Ok(Effect::Done))
    } else {
        (m, Err(VmError::InvalidOpcode { opcode: op }))
    }
}

/// The dispatch of a Format 3/4 instruction once its operand resolved.
pub open spec fn f34_dispatch(
    m: MachineView,
    op: u8,
    address: u32,
    flags: u8,
    opvalue: u32,
    use_addr: u32,
) -> (MachineView, Result<Effect, VmError>) {
    if op == opcode::LDA {
        (m.with_reg(Register::A, mask24(opvalue)), Ok(Effect::Done))
    } else if op == opcode::LDX {
        (m.with_reg(Register::X, mask24(opvalue)), Ok(Effect::Done))
    } else if op == opcode::LDL {
        (m.with_reg(Register::L, mask24(opvalue)), Ok(Effect::Done))
    } else if op == opcode::LDB {
        (m.with_reg(Register::B, mask24(opvalue)), Ok(Effect::Done))
    } else if op == opcode::LDS {
        (m.with_reg(Register::S, mask24(opvalue)), Ok(Effect::Done))
    } else if op == opcode::LDF {
        (m.with_reg(Register::F, mask24(opvalue)), Ok(Effect::Done))
    } else if op == opcode::LDT {
        (m.with_reg(Register::T, mask24(opvalue)), Ok(Effect::Done))
    } else if op == opcode::STA || op == opcode::STX || op == opcode::STL || op == opcode::STB
        || op == opcode::STS || op == opcode::STF || op == opcode::STT {
        let value = if op == opcode::STA {
            m.a
        } else if op == opcode::STX {
            m.x
        } else if op == opcode::STL {
            m.l
        } else if op == opcode::STB {
            m.b
        } else if op == opcode::STS {
            m.s
        } else if op == opcode::STF {
            m.f
        } else {
            m.t
        };
        if use_addr > MAX_ADDRESS - 2 {
            (m, Err(VmError::AddressOutOfBounds { address: use_addr }))
        } else {
            (m.with_word(use_addr, value), Ok(Effect::Done))
        }
    } else if op == opcode::STSW {
        if opvalue > MAX_ADDRESS - 2 {
            (m, Err(VmError::AddressOutOfBounds { address: opvalue }))
        } else {
            (m.with_word(opvalue, m.sw), Ok(Effect::Done))
        }
    } else if op == opcode::ADD {
        (m.with_reg(Register::A, add24(m.a, opvalue)), Ok(Effect::Done))
    } else if op == opcode::SUB {
        (m.with_reg(Register::A, sub24(m.a, opvalue)), Ok(Effect::Done))
    } else if op == opcode::MUL {
        (m.with_reg(Register::A, mul24(m.a, opvalue)), Ok(Effect::Done))
    } else if op == opcode::DIV {
        if opvalue == 0 {
            (m, Err(VmError::DivisionByZero))
        } else {
            (m.with_reg(Register::A, mask24(m.a / opvalue)), Ok(Effect::Done))
        }
    } else if op == opcode::COMP {
        (m.with_reg(Register::SW, cmp_code(m.a, opvalue)), Ok(Effect::Done))
    } else if op == opcode::TIX {
        let m1 = m.with_reg(Register::X, add24(m.x, 1));
        (m1.with_reg(Register::SW, cmp_code(m1.x, opvalue)), Ok(Effect::Done))
    } else if op == opcode::JEQ {
        (if m.sw == 0x00 { m.with_reg(Register::PC, mask24(use_addr)) } else { m }, Ok(Effect::Done))
    } else if op == opcode::JGT {
        (if m.sw == 0x01 { m.with_reg(Register::PC, mask24(use_addr)) } else { m }, Ok(Effect::Done))
    } else if op == opcode::JLT {
        (if m.sw == 0x10 { m.with_reg(Register::PC, mask24(use_addr)) } else { m }, Ok(Effect::Done))
    } else if op == opcode::J {
        (m.with_reg(Register::PC, mask24(use_addr)), Ok(Effect::Done))
    } else if op == opcode::AND {
        (m.with_reg(Register::A, mask24(m.a & opvalue)), Ok(Effect::Done))
    } else if op == opcode::OR {
        (m.with_reg(Register::A, mask24(m.a | opvalue)), Ok(Effect::Done))
    } else if op == opcode::JSUB {
        (m.with_reg(Register::L, mask24(m.pc)).with_reg(Register::PC, mask24(use_addr)), Ok(
        Effect::Done))
    } else if op == opcode::RSUB {
        (m.with_reg(Register::PC, mask24(m.l)), Ok(Effect::Done))
    } else if op == opcode::LDCH {
        (m.with_reg(Register::A, (m.a & 0x00FF_FF00) | (opvalue & 0xFF)), Ok(Effect::Done))
    } else if op == opcode::STCH {
        if use_addr > MAX_ADDRESS {
            (m, Err(VmError::AddressOutOfBounds { address: use_addr }))
        } else {
            (m.with_byte(use_addr, (m.a & 0xFF) as u8), Ok(Effect::Done))
        }
    } else if op == opcode::ADDF {
        (m, Ok(Effect::Float { op: FloatOp::Add, x: m.f, y: opvalue }))
    } else if op == opcode::SUBF {
        (m, Ok(Effect::Float { op: FloatOp::Sub, x: m.f, y: opvalue }))
    } else if op == opcode::MULF {
        (m, Ok(Effect::Float { op: FloatOp::Mul, x: m.f, y: opvalue }))
    } else if op == opcode::DIVF {
        if opvalue == 0 {
            (m, Err(VmError::DivisionByZero))
        } else {
            (m, Ok(Effect::Float { op: FloatOp::Div, x: m.f, y: opvalue }))
        }
    } else if op == opcode::COMPF {
        (m.with_reg(Register::SW, cmp_code(m.f, opvalue)), Ok(Effect::Done))
    } else if op == opcode::RD || op == opcode::WD || op == opcode::TD {
        let dp = device_pointer(address, flags);
        if dp > MAX_ADDRESS {
            (m, Err(VmError::AddressOutOfBounds { address: dp }))
        } else {
            let id = m.byte_at(dp);
            let effect = if op == opcode::RD {
                Effect::DeviceRead { device: id }
            } else if op == opcode::WD {
                Effect::DeviceWrite { device: id, value: (m.a & 0xFF) as u8 }
            } else {
                Effect::DeviceTest { device: id }
            };
            (m.with_device(id), Ok(effect))
        }
    } else if op == opcode::LPS || op == opcode::STI || op == opcode::SSK {
        (m, Err(VmError::Unimplemented { opcode: op }))
    } else {
        (m, Err(VmError::InvalidOpcode { opcode: op }))
    }
}

/// What a Format 3/4 instruction does: resolve the operand, then
/// dispatch.  A failing operand resolution leaves the machine
/// unchanged.
pub open spec fn f34_step(m: MachineView, op: u8, address: u32, flags: u8) -> (
    MachineView,
    Result<Effect, VmError>,
) {
    match operand(m, address, flags) {
        Err(e) => (m, Err(e)),
        Ok(resolved) => f34_dispatch(m, op, address, flags, resolved.0, resolved.1),
    }
}

/// Addition modulo `2^32`, as the address arithmetic wraps.
fn wrap_add32(a: u32, b: u32) -> (r: u32)
    ensures
        r == add32(a, b),
{
    (((a as u64) + (b as u64)) % 0x1_0000_0000) as u32
}

/// Addition modulo `2^24`.
fn wrap_add24(a: u32, b: u32) -> (r: u32)
    ensures
        r == add24(a, b),
{
    (((a as u64) + (b as u64)) % 0x0100_0000) as u32
}

/// Subtraction modulo `2^24`.
fn wrap_sub24(a: u32, b: u32) -> (r: u32)
    ensures
        r == sub24(a, b),
{
    (((a as u64) + 0x1_0000_0000 - (b as u64)) % 0x0100_0000) as u32
}

/// Multiplication modulo `2^24`.
fn wrap_mul24(a: u32, b: u32) -> (r: u32)
    ensures
        r == mul24(a, b),
{
    proof {
        assert((a as int) * (b as int) <= 0xFFFF_FFFF * 0xFFFF_FFFF) by (nonlinear_arith)
            requires
                a <= 0xFFFF_FFFF && b <= 0xFFFF_FFFF,
        ;
    }
    (((a as u128) * (b as u128)) % 0x0100_0000) as u32
}

impl Instruction for Format1 {
    /// Executes this instruction: exactly the transition `f1_step`
    /// describes.
    fn exec(&self, machine: &mut Machine) -> (result: Result<Effect, VmError>)
        ensures
            final(machine)@ == f1_step(old(machine)@, self.opcode).0,
            result == f1_step(old(machine)@, self.opcode).1,
    {
        if self.opcode == opcode::FLOAT {
            let a = machine.get_reg(&Register::A);
            Ok(Effect::Float { op: FloatOp::IntToFloat, x: a, y: 0 })
        } else if self.opcode == opcode::FIX {
            let f = machine.get_reg(&Register::F);
            Ok(Effect::Float { op: FloatOp::FloatToInt, x: f, y: 0 })
        } else if self.opcode == opcode::NORM || self.opcode == opcode::SIO || self.opcode
            == opcode::HIO || self.opcode == opcode::TIO {
            Err(VmError::Unimplemented { opcode: self.opcode })
        } else {
            Err(VmError::InvalidOpcode { opcode: self.opcode })
        }
    }
}

impl Instruction for Format2 {
    /// Executes this instruction: exactly the transition `f2_step`
    /// describes.
    fn exec(&self, machine: &mut Machine) -> (result: Result<Effect, VmError>)
        ensures
            final(machine)@ == f2_step(old(machine)@, self.opcode, self.r1, self.r2).0,
            result == f2_step(old(machine)@, self.opcode, self.r1, self.r2).1,
    {
        let v1 = machine.get_reg(&self.r1);
        let v2 = machine.get_reg(&self.r2);
        if self.opcode == opcode::ADDR {
            machine.set_reg(&self.r2, wrap_add24(v1, v2));
            Ok(Effect::Done)
        } else if self.opcode == opcode::SUBR {
            machine.set_reg(&self.r2, wrap_sub24(v2, v1));
            Ok(Effect::Done)
        } else if self.opcode == opcode::MULR {
            machine.set_reg(&self.r2, wrap_mul24(v1, v2));
            Ok(Effect::Done)
        } else if self.opcode == opcode::DIVR {
            if v1 == 0 {
                return Err(VmError::DivisionByZero);
            }
            machine.set_reg(&self.r2, (v2 / v1) & 0x00FF_FFFF);
            Ok(Effect::Done)
        } else if self.opcode == opcode::COMPR {
            machine.cmp_vals(v1, v2);
            Ok(Effect::Done)
        } else if self.opcode == opcode::SHIFTL {
            let shifted: u32 = if v2 >= 24 {
                0
            } else {
                (v1 << v2) & 0x00FF_FFFF
            };
            machine.set_reg(&self.r1, shifted);
            Ok(Effect::Done)
        } else if self.opcode == opcode::SHIFTR {
            let shifted: u32 = if v2 >= 32 {
                0
            } else {
                (v1 >> v2) & 0x00FF_FFFF
            };
            machine.set_reg(&self.r1, shifted);
            Ok(Effect::Done)
        } else if self.opcode == opcode::RMO {
            machine.set_reg(&self.r2, v1 & 0x00FF_FFFF);
            Ok(Effect::Done)
        } else if self.opcode == opcode::SVC {
            Err(VmError::Unimplemented { opcode: self.opcode })
        } else if self.opcode == opcode::CLEAR {
            machine.set_reg(&self.r1, 0);
            Ok(Effect::Done)
        } else if self.opcode == opcode::TIXR {
            machine.inc_x();
            let r1_now = machine.get_reg(&self.r1);
            machine.cmp_reg(&Register::X, r1_now);
            Ok(Effect::Done)
        } else {
            Err(VmError::InvalidOpcode { opcode: self.opcode })
        }
    }
}

impl Instruction for Format34 {
    /// Executes this instruction: exactly the transition `f34_step`
    /// describes.
    fn exec(&self, machine: &mut Machine) -> (result: Result<Effect, VmError>)
        ensures
            final(machine)@ == f34_step(old(machine)@, self.opcode, self.address, self.flags).0,
            result == f34_step(old(machine)@, self.opcode, self.address, self.flags).1,
    {
        // Effective address.
        let extended = self.flags & 1 == 1;
        let fl = self.flags >> 1;
        let ea: u32 = if fl & 0b10 != 0 {
            let base = machine.get_reg(&Register::B);
            wrap_add32(base, self.address)
        } else if fl & 1 == 1 {
            let pc = machine.get_reg(&Register::PC);
            let disp: u32 = if extended {
                if self.address & 0x8_0000 != 0 {
                    self.address | 0xFFF0_0000
                } else {
                    self.address
                }
            } else {
                if self.address & 0x800 != 0 {
                    self.address | 0xFFFF_F000
                } else {
                    self.address
                }
            };
            wrap_add32(pc, disp)
        } else {
            self.address
        };
        // Operand value and the address stores and jumps use.
        let ni = self.flags >> 4;
        let resolved: (u32, u32) = if ni & 1 == 1 && ni & 0b10 == 0 {
            (ea, ea)
        } else if ni & 0b10 != 0 && ni & 1 == 0 {
            if ea > MAX_ADDRESS - 2 {
                return Err(VmError::AddressOutOfBounds { address: ea });
            }
            let ptr = machine.read_word(ea);
            if ptr > MAX_ADDRESS - 2 {
                return Err(VmError::AddressOutOfBounds { address: ptr });
            }
            (machine.read_word(ptr), ptr)
        } else {
            if ea > MAX_ADDRESS - 2 {
                return Err(VmError::AddressOutOfBounds { address: ea });
            }
            (machine.read_word(ea), ea)
        };
        proof {
            assert(Ok::<(u32, u32), VmError>(resolved) == operand(
                old(machine)@,
                self.address,
                self.flags,
            ));
        }
        dispatch34(machine, self.opcode, self.address, self.flags, resolved.0, resolved.1)
    }
}

/// The Format 3/4 dispatch once the operand resolved: exactly the
/// transition `f34_dispatch` describes.
#[verifier::rlimit(50)]
fn dispatch34(
    machine: &mut Machine,
    op: u8,
    address: u32,
    flags: u8,
    opvalue: u32,
    use_addr: u32,
) -> (result: Result<Effect, VmError>)
    ensures
        final(machine)@ == f34_dispatch(old(machine)@, op, address, flags, opvalue, use_addr).0,
        result == f34_dispatch(old(machine)@, op, address, flags, opvalue, use_addr).1,
{
    if op == opcode::LDA {
            machine.set_reg(&Register::A, opvalue & 0x00FF_FFFF);
            Ok(Effect::Done)
        } else if op == opcode::LDX {
            machine.set_reg(&Register::X, opvalue & 0x00FF_FFFF);
            Ok(Effect::Done)
        } else if op == opcode::LDL {
            machine.set_reg(&Register::L, opvalue & 0x00FF_FFFF);
            Ok(Effect::Done)
        } else if op == opcode::LDB {
            machine.set_reg(&Register::B, opvalue & 0x00FF_FFFF);
            Ok(Effect::Done)
        } else if op == opcode::LDS {
            machine.set_reg(&Register::S, opvalue & 0x00FF_FFFF);
            Ok(Effect::Done)
        } else if op == opcode::LDF {
            machine.set_reg(&Register::F, opvalue & 0x00FF_FFFF);
            Ok(Effect::Done)
        } else if op == opcode::LDT {
            machine.set_reg(&Register::T, opvalue & 0x00FF_FFFF);
            Ok(Effect::Done)
        } else if op == opcode::STA || op == opcode::STX || op
            == opcode::STL || op == opcode::STB || op == opcode::STS
            || op == opcode::STF || op == opcode::STT {
            let value = if op == opcode::STA {
                machine.get_reg(&Register::A)
            } else if op == opcode::STX {
                machine.get_reg(&Register::X)
            } else if op == opcode::STL {
                machine.get_reg(&Register::L)
            } else if op == opcode::STB {
                machine.get_reg(&Register::B)
            } else if op == opcode::STS {
                machine.get_reg(&Register::S)
            } else if op == opcode::STF {
                machine.get_reg(&Register::F)
            } else {
                machine.get_reg(&Register::T)
            };
            if use_addr > MAX_ADDRESS - 2 {
                return Err(VmError::AddressOutOfBounds { address: use_addr });
            }
            machine.write_word(use_addr, value);
            Ok(Effect::Done)
        } else if op == opcode::STSW {
            if opvalue > MAX_ADDRESS - 2 {
                return Err(VmError::AddressOutOfBounds { address: opvalue });
            }
            let value = machine.get_reg(&Register::SW);
            machine.write_word(opvalue, value);
            Ok(Effect::Done)
        } else if op == opcode::ADD {
            let a = machine.get_reg(&Register::A);
            machine.set_reg(&Register::A, wrap_add24(a, opvalue));
            Ok(Effect::Done)
        } else if op == opcode::SUB {
            let a = machine.get_reg(&Register::A);
            machine.set_reg(&Register::A, wrap_sub24(a, opvalue));
            Ok(Effect::Done)
        } else if op == opcode::MUL {
            let a = machine.get_reg(&Register::A);
            machine.set_reg(&Register::A, wrap_mul24(a, opvalue));
            Ok(Effect::Done)
        } else if op == opcode::DIV {
            if opvalue == 0 {
                return Err(VmError::DivisionByZero);
            }
            let a = machine.get_reg(&Register::A);
            machine.set_reg(&Register::A, (a / opvalue) & 0x00FF_FFFF);
            Ok(Effect::Done)
        } else if op == opcode::COMP {
            machine.cmp_reg(&Register::A, opvalue);
            Ok(Effect::Done)
        } else if op == opcode::TIX {
            machine.inc_x();
            machine.cmp_reg(&Register::X, opvalue);
            Ok(Effect::Done)
        } else if op == opcode::JEQ {
            if machine.get_reg(&Register::SW) == 0x00 {
                machine.set_reg(&Register::PC, use_addr & 0x00FF_FFFF);
            }
            Ok(Effect::Done)
        } else if op == opcode::JGT {
            if machine.get_reg(&Register::SW) == 0x01 {
                machine.set_reg(&Register::PC, use_addr & 0x00FF_FFFF);
            }
            Ok(Effect::Done)
        } else if op == opcode::JLT {
            if machine.get_reg(&Register::SW) == 0x10 {
                machine.set_reg(&Register::PC, use_addr & 0x00FF_FFFF);
            }
            Ok(Effect::Done)
        } else if op == opcode::J {
            machine.set_reg(&Register::PC, use_addr & 0x00FF_FFFF);
            Ok(Effect::Done)
        } else if op == opcode::AND {
            let a = machine.get_reg(&Register::A);
            machine.set_reg(&Register::A, (a & opvalue) & 0x00FF_FFFF);
            Ok(Effect::Done)
        } else if op == opcode::OR {
            let a = machine.get_reg(&Register::A);
            machine.set_reg(&Register::A, (a | opvalue) & 0x00FF_FFFF);
            Ok(Effect::Done)
        } else if op == opcode::JSUB {
            let pc = machine.get_reg(&Register::PC);
            machine.set_reg(&Register::L, pc & 0x00FF_FFFF);
            machine.set_reg(&Register::PC, use_addr & 0x00FF_FFFF);
            Ok(Effect::Done)
        } else if op == opcode::RSUB {
            let l = machine.get_reg(&Register::L);
            machine.set_reg(&Register::PC, l & 0x00FF_FFFF);
            Ok(Effect::Done)
        } else if op == opcode::LDCH {
            let a = machine.get_reg(&Register::A);
            machine.set_reg(&Register::A, (a & 0x00FF_FF00) | (opvalue & 0xFF));
            Ok(Effect::Done)
        } else if op == opcode::STCH {
            if use_addr > MAX_ADDRESS {
                return Err(VmError::AddressOutOfBounds { address: use_addr });
            }
            let a = machine.get_reg(&Register::A);
            machine.write_byte(use_addr, (a & 0xFF) as u8);
            Ok(Effect::Done)
        } else if op == opcode::ADDF {
            let f = machine.get_reg(&Register::F);
            Ok(Effect::Float { op: FloatOp::Add, x: f, y: opvalue })
        } else if op == opcode::SUBF {
            let f = machine.get_reg(&Register::F);
            Ok(Effect::Float { op: FloatOp::Sub, x: f, y: opvalue })
        } else if op == opcode::MULF {
            let f = machine.get_reg(&Register::F);
            Ok(Effect::Float { op: FloatOp::Mul, x: f, y: opvalue })
        } else if op == opcode::DIVF {
            if opvalue == 0 {
                return Err(VmError::DivisionByZero);
            }
            let f = machine.get_reg(&Register::F);
            Ok(Effect::Float { op: FloatOp::Div, x: f, y: opvalue })
        } else if op == opcode::COMPF {
            machine.cmp_reg(&Register::F, opvalue);
            Ok(Effect::Done)
        } else if op == opcode::RD || op == opcode::WD || op
            == opcode::TD {
            let dp = ((flags as u32) << 6) | address;
            if dp > MAX_ADDRESS {
                return Err(VmError::AddressOutOfBounds { address: dp });
            }
            let id = machine.read_byte(dp);
            let effect = if op == opcode::RD {
                Effect::DeviceRead { device: id }
            } else if op == opcode::WD {
                let a = machine.get_reg(&Register::A);
                Effect::DeviceWrite { device: id, value: (a & 0xFF) as u8 }
            } else {
                Effect::DeviceTest { device: id }
            };
            machine.get_device(id);
            Ok(effect)
        } else if op == opcode::LPS || op == opcode::STI || op
            == opcode::SSK {
            Err(VmError::Unimplemented { opcode: op })
        } else {
            Err(VmError::InvalidOpcode { opcode: op })
        }
}

impl Machine {
    /// Completes an RD instruction: the byte a device handed back goes
    /// into `A`, zero-extended to a word.
    pub fn device_input(&mut self, value: u8)
        ensures
            final(self)@ == old(self)@.with_reg(Register::A, value as u32),
    {
        self.set_reg(&Register::A, value as u32);
    }

    /// Completes a TD instruction: `SW` becomes `0x00` when the device
    /// is ready and `0x01` otherwise.
    pub fn device_status(&mut self, ready: bool)
        ensures
            final(self)@ == old(self)@.with_reg(Register::SW, if ready { 0x00u32 } else { 0x01u32 }),
    {
        self.set_reg(&Register::SW, if ready { 0x00 } else { 0x01 });
    }
}

} // verus!
