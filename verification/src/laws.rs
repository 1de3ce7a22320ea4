//! Properties of the machine that hold across instructions, stated
//! and proved once over the specification functions the executable
//! contracts use.

use vstd::prelude::*;
use crate::device::DeviceKind;
use crate::errors::RegisterError;
use crate::format::{f2_step, f34_step, Effect};
use crate::machine::{mask24, MachineView, MAX_ADDRESS};
use crate::opcode;
use crate::register::{spec_from_index, spec_index, Register};
use crate::runner::vm_step;

verus! {

/// Reading a byte no write ever touched yields zero.
pub proof fn lemma_unwritten_byte_reads_zero(m: MachineView, address: u32)
    requires
        !m.mem.contains_key(address),
    ensures
        m.byte_at(address) == 0,
{
}

/// Writing a word and reading it back yields the value's low 24
/// bits, at any in-range address and for any value.
pub proof fn lemma_word_round_trip(m: MachineView, address: u32, value: u32)
    requires
        address + 2 <= MAX_ADDRESS,
    ensures
        m.with_word(address, value).word_at(address) == value & 0x00FF_FFFF,
{
    assert((((((value >> 16) as u8) as u32) << 16) | ((((value >> 8) as u8) as u32) << 8) | ((
    value as u8) as u32)) == value & 0x00FF_FFFF) by (bit_vector);
}

/// CLEAR zeroes its register: after a Format 2 CLEAR of any
/// register, that register reads zero, and the instruction never
/// fails.
pub proof fn lemma_clear_zeroes_register(m: MachineView, r1: Register, r2: Register)
    ensures
        f2_step(m, opcode::CLEAR, r1, r2).0.reg(r1) == 0,
        f2_step(m, opcode::CLEAR, r1, r2).1 == Ok::<Effect, crate::errors::VmError>(Effect::Done),
{
}

/// After any Format 2 arithmetic, shift or comparison instruction
/// that succeeds, the status word holds one of the three condition
/// codes `{0x00, 0x01, 0x10}` — provided it did before, and the
/// instruction's destination register is not `SW` itself.
pub proof fn lemma_sw_valid_after_f2(m: MachineView, op: u8, r1: Register, r2: Register)
    requires
        m.sw_valid(),
        op == opcode::ADDR || op == opcode::SUBR || op == opcode::MULR || op == opcode::DIVR
            || op == opcode::COMPR || op == opcode::SHIFTL || op == opcode::SHIFTR || op
            == opcode::TIXR,
        (op == opcode::ADDR || op == opcode::SUBR || op == opcode::MULR || op == opcode::DIVR)
            ==> r2 != Register::SW,
        (op == opcode::SHIFTL || op == opcode::SHIFTR) ==> r1 != Register::SW,
    ensures
        f2_step(m, op, r1, r2).1 is Ok ==> f2_step(m, op, r1, r2).0.sw_valid(),
{
}

/// After any Format 3/4 arithmetic, logical or comparison
/// instruction that succeeds, the status word holds one of the three
/// condition codes `{0x00, 0x01, 0x10}` — provided it did before.
pub proof fn lemma_sw_valid_after_f34(m: MachineView, op: u8, address: u32, flags: u8)
    requires
        m.sw_valid(),
        op == opcode::ADD || op == opcode::SUB || op == opcode::MUL || op == opcode::DIV || op
            == opcode::COMP || op == opcode::TIX || op == opcode::AND || op == opcode::OR || op
            == opcode::COMPF,
    ensures
        f34_step(m, op, address, flags).1 is Ok ==> f34_step(m, op, address, flags).0.sw_valid(),
{
}

/// JSUB followed by RSUB returns: if a JSUB executes, the subroutine
/// hands back the link register untouched, and an RSUB then
/// executes, the machine resumes at the instruction that followed
/// the JSUB.
pub proof fn lemma_jsub_rsub_returns(
    m: MachineView,
    jsub_address: u32,
    jsub_flags: u8,
    sub_end: MachineView,
    rsub_address: u32,
    rsub_flags: u8,
)
    requires
        f34_step(m, opcode::JSUB, jsub_address, jsub_flags).1 is Ok,
        sub_end.l == f34_step(m, opcode::JSUB, jsub_address, jsub_flags).0.l,
        f34_step(sub_end, opcode::RSUB, rsub_address, rsub_flags).1 is Ok,
    ensures
        f34_step(sub_end, opcode::RSUB, rsub_address, rsub_flags).0.pc == mask24(m.pc),
        m.pc <= MAX_ADDRESS ==> f34_step(sub_end, opcode::RSUB, rsub_address, rsub_flags).0.pc
            == m.pc,
{
    let pc = m.pc;
    assert((pc & 0x00FF_FFFF) & 0x00FF_FFFF == pc & 0x00FF_FFFF) by (bit_vector);
    assert(pc <= 0x00FF_FFFFu32 ==> pc & 0x00FF_FFFF == pc) by (bit_vector);
}

/// The standard streams on device ids 0, 1 and 2 are never replaced:
/// any device reference keeps them installed.
pub proof fn lemma_standard_devices_preserved(m: MachineView, id: u8)
    requires
        m.std_devices_installed(),
    ensures
        m.with_device(id).std_devices_installed(),
        m.device_kind(0) == DeviceKind::StdIn,
        m.device_kind(1) == DeviceKind::StdOut,
        m.device_kind(2) == DeviceKind::StdErr,
{
}

/// A whole fetch-decode-execute cycle never replaces the standard
/// streams on device ids 0, 1 and 2.
#[verifier::rlimit(100)]
pub proof fn lemma_step_keeps_standard_devices(m: MachineView)
    requires
        m.std_devices_installed(),
    ensures
        vm_step(m).0.std_devices_installed(),
{
}

/// Looking a register's own index back up finds the same register.
pub proof fn lemma_register_index_round_trip(r: Register)
    ensures
        spec_from_index(spec_index(r)) == Ok::<Register, RegisterError>(r),
{
}

} // verus!
