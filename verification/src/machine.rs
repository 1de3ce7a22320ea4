//! The register file and the 24-bit byte-addressable memory.

use vstd::prelude::*;
use std::collections::BTreeMap;
use crate::device::{std_devices, DeviceKind};
use crate::errors::RegisterError;
use crate::register::{spec_from_index, Register};

verus! {

broadcast use vstd::laws_cmp::group_laws_cmp;

/// The largest valid memory address: memory spans `0..=MAX_ADDRESS`.
pub const MAX_ADDRESS: u32 = 0x00FF_FFFF;

/// Addition modulo `2^32`.
pub open spec fn add32(a: u32, b: u32) -> u32 {
    ((a + b) % 0x1_0000_0000) as u32
}

/// Addition modulo `2^24`: how the emulated machine adds.
pub open spec fn add24(a: u32, b: u32) -> u32 {
    ((a + b) % 0x100_0000) as u32
}

/// Subtraction modulo `2^24`.
pub open spec fn sub24(a: u32, b: u32) -> u32 {
    ((a + 0x1_0000_0000 - b) % 0x100_0000) as u32
}

/// Multiplication modulo `2^24`.
pub open spec fn mul24(a: u32, b: u32) -> u32 {
    ((a * b) % 0x100_0000) as u32
}

/// A value truncated to the 24 bits a register cell keeps of an
/// emulated result.
pub open spec fn mask24(v: u32) -> u32 {
    v & 0x00FF_FFFF
}

/// The 24-bit big-endian word formed from three bytes.
pub open spec fn word_of(b0: u8, b1: u8, b2: u8) -> u32 {
    ((b0 as u32) << 16) | ((b1 as u32) << 8) | (b2 as u32)
}

/// The condition code a comparison stores into `SW`:
/// `0x10` for less, `0x00` for equal, `0x01` for greater.
pub open spec fn cmp_code(a: u32, b: u32) -> u32 {
    if a < b {
        0x10
    } else if a == b {
        0x00
    } else {
        0x01
    }
}

/// The mathematical state of a machine: one 32-bit cell per register,
/// the written memory bytes, and the kind of each installed device.
///
/// An address absent from `mem` reads as `0x00`.
#[verifier::ext_equal]
pub struct MachineView {
    pub a: u32,
    pub x: u32,
    pub l: u32,
    pub b: u32,
    pub s: u32,
    pub t: u32,
    pub f: u32,
    pub pc: u32,
    pub sw: u32,
    pub mem: Map<u32, u8>,
    pub devs: Map<u8, DeviceKind>,
}

impl MachineView {
    /// The value of a register.
    pub open spec fn reg(self, r: Register) -> u32 {
        match r {
            Register::A => self.a,
            Register::X => self.x,
            Register::L => self.l,
            Register::B => self.b,
            Register::S => self.s,
            Register::T => self.t,
            Register::F => self.f,
            Register::PC => self.pc,
            Register::SW => self.sw,
        }
    }

    /// This state with one register replaced.
    pub open spec fn with_reg(self, r: Register, v: u32) -> MachineView {
        match r {
            Register::A => MachineView { a: v, ..self },
            Register::X => MachineView { x: v, ..self },
            Register::L => MachineView { l: v, ..self },
            Register::B => MachineView { b: v, ..self },
            Register::S => MachineView { s: v, ..self },
            Register::T => MachineView { t: v, ..self },
            Register::F => MachineView { f: v, ..self },
            Register::PC => MachineView { pc: v, ..self },
            Register::SW => MachineView { sw: v, ..self },
        }
    }

    /// The byte stored at an address; an unwritten address reads as zero.
    pub open spec fn byte_at(self, address: u32) -> u8 {
        if self.mem.contains_key(address) {
            self.mem[address]
        } else {
            0
        }
    }

    /// This state with one memory byte replaced.
    pub open spec fn with_byte(self, address: u32, value: u8) -> MachineView {
        MachineView { mem: self.mem.insert(address, value), ..self }
    }

    /// The 24-bit big-endian word starting at an address.
    pub open spec fn word_at(self, address: u32) -> u32 {
        word_of(self.byte_at(address), self.byte_at(add32(address, 1)), self.byte_at(add32(address, 2)))
    }

    /// This state with a 24-bit big-endian word written at an address:
    /// the most significant of the word's three bytes goes first.
    pub open spec fn with_word(self, address: u32, value: u32) -> MachineView {
        self.with_byte(address, (value >> 16) as u8).with_byte(
            add32(address, 1),
            (value >> 8) as u8,
        ).with_byte(add32(address, 2), value as u8)
    }

    /// This state after a reference to a device id: an unknown id
    /// materialises as a file-backed device, a known one is kept.
    pub open spec fn with_device(self, id: u8) -> MachineView {
        if self.devs.contains_key(id) {
            self
        } else {
            MachineView { devs: self.devs.insert(id, DeviceKind::FileBacked), ..self }
        }
    }

    /// The kind of the device a reference to `id` yields.
    pub open spec fn device_kind(self, id: u8) -> DeviceKind {
        if self.devs.contains_key(id) {
            self.devs[id]
        } else {
            DeviceKind::FileBacked
        }
    }

    /// Whether `SW` holds one of the three condition codes.
    pub open spec fn sw_valid(self) -> bool {
        self.sw == 0x00 || self.sw == 0x01 || self.sw == 0x10
    }

    /// Whether the three standard streams hold their reserved ids.
    pub open spec fn std_devices_installed(self) -> bool {
        &&& self.devs.contains_key(0) && self.devs[0] == DeviceKind::StdIn
        &&& self.devs.contains_key(1) && self.devs[1] == DeviceKind::StdOut
        &&& self.devs.contains_key(2) && self.devs[2] == DeviceKind::StdErr
    }
}

/// The state of a machine that was just constructed or reset:
/// registers zeroed, memory empty, the standard streams installed.
pub open spec fn initial_view() -> MachineView {
    MachineView {
        a: 0,
        x: 0,
        l: 0,
        b: 0,
        s: 0,
        t: 0,
        f: 0,
        pc: 0,
        sw: 0,
        mem: Map::empty(),
        devs: std_devices(),
    }
}

/// A SIC/XE machine: nine registers, a sparse memory and a device table.
pub struct Machine {
    reg_a: u32,
    reg_x: u32,
    reg_l: u32,
    reg_b: u32,
    reg_s: u32,
    reg_t: u32,
    reg_f: u32,
    reg_pc: u32,
    reg_sw: u32,
    memory: BTreeMap<u32, u8>,
    devices: BTreeMap<u8, DeviceKind>,
}

impl View for Machine {
    type V = MachineView;

    closed spec fn view(&self) -> MachineView {
        MachineView {
            a: self.reg_a,
            x: self.reg_x,
            l: self.reg_l,
            b: self.reg_b,
            s: self.reg_s,
            t: self.reg_t,
            f: self.reg_f,
            pc: self.reg_pc,
            sw: self.reg_sw,
            mem: self.memory@,
            devs: self.devices@,
        }
    }
}

impl Machine {
    /// A machine with zeroed registers, empty memory, and the three
    /// standard devices installed on ids 0, 1 and 2.
    pub fn new() -> (machine: Machine)
        ensures
            machine@ == initial_view(),
    {
        let mut devices: BTreeMap<u8, DeviceKind> = BTreeMap::new();
        devices.insert(0, DeviceKind::StdIn);
        devices.insert(1, DeviceKind::StdOut);
        devices.insert(2, DeviceKind::StdErr);
        let machine = Machine {
            reg_a: 0,
            reg_x: 0,
            reg_l: 0,
            reg_b: 0,
            reg_s: 0,
            reg_t: 0,
            reg_f: 0,
            reg_pc: 0,
            reg_sw: 0,
            memory: BTreeMap::new(),
            devices,
        };
        assert(machine@ =~= initial_view());
        machine
    }

    /// Returns the machine to its initial state: registers zeroed,
    /// memory cleared, and the device table reduced to the three
    /// standard streams.
    pub fn reset(&mut self)
        ensures
            final(self)@ == initial_view(),
    {
        self.reset_registers();
        self.reset_memory();
        self.reset_devices();
        assert(self@ =~= initial_view());
    }

    fn reset_registers(&mut self)
        ensures
            final(self)@ == (MachineView {
                a: 0,
                x: 0,
                l: 0,
                b: 0,
                s: 0,
                t: 0,
                f: 0,
                pc: 0,
                sw: 0,
                ..old(self)@
            }),
    {
        self.reg_a = 0;
        self.reg_x = 0;
        self.reg_l = 0;
        self.reg_b = 0;
        self.reg_s = 0;
        self.reg_t = 0;
        self.reg_f = 0;
        self.reg_pc = 0;
        self.reg_sw = 0;
    }

    fn reset_memory(&mut self)
        ensures
            final(self)@ == (MachineView { mem: Map::empty(), ..old(self)@ }),
    {
        self.memory.clear();
    }

    fn reset_devices(&mut self)
        ensures
            final(self)@ == (MachineView { devs: std_devices(), ..old(self)@ }),
    {
        self.devices.clear();
        self.devices.insert(0, DeviceKind::StdIn);
        self.devices.insert(1, DeviceKind::StdOut);
        self.devices.insert(2, DeviceKind::StdErr);
    }

    /// The value of a register.
    pub fn get_reg(&self, register: &Register) -> (value: u32)
        ensures
            value == self@.reg(*register),
    {
        match register {
            Register::A => self.reg_a,
            Register::X => self.reg_x,
            Register::L => self.reg_l,
            Register::B => self.reg_b,
            Register::S => self.reg_s,
            Register::T => self.reg_t,
            Register::F => self.reg_f,
            Register::PC => self.reg_pc,
            Register::SW => self.reg_sw,
        }
    }

    /// Stores a value into a register, untouched: callers that write an
    /// emulated result mask it to 24 bits themselves.
    pub fn set_reg(&mut self, register: &Register, value: u32)
        ensures
            final(self)@ == old(self)@.with_reg(*register, value),
    {
        match register {
            Register::A => self.reg_a = value,
            Register::X => self.reg_x = value,
            Register::L => self.reg_l = value,
            Register::B => self.reg_b = value,
            Register::S => self.reg_s = value,
            Register::T => self.reg_t = value,
            Register::F => self.reg_f = value,
            Register::PC => self.reg_pc = value,
            Register::SW => self.reg_sw = value,
        }
    }

    /// The value of the register a raw index names, or the index's
    /// error when it names none.
    pub fn get_reg_from_index(&self, index: u8) -> (result: Result<u32, RegisterError>)
        ensures
            match spec_from_index(index) {
                Ok(r) => result == Ok::<u32, RegisterError>(self@.reg(r)),
                Err(e) => result == Err::<u32, RegisterError>(e),
            },
    {
        let reg = match Register::from_index(index) {
            Ok(reg) => reg,
            Err(e) => {
                return Err(e);
            },
        };
        Ok(self.get_reg(&reg))
    }

    /// Increments `X` by one, modulo `2^24`.
    pub fn inc_x(&mut self)
        ensures
            final(self)@ == old(self)@.with_reg(Register::X, add24(old(self)@.x, 1)),
    {
        let x = self.get_reg(&Register::X);
        let incremented: u32 = (((x as u64) + 1) % 0x0100_0000) as u32;
        self.set_reg(&Register::X, incremented);
    }

    /// Compares two values and stores the condition code into `SW`.
    pub fn cmp_vals(&mut self, val1: u32, val2: u32)
        ensures
            final(self)@ == old(self)@.with_reg(Register::SW, cmp_code(val1, val2)),
    {
        let code: u32 = if val1 < val2 {
            0x10
        } else if val1 == val2 {
            0x00
        } else {
            0x01
        };
        self.set_reg(&Register::SW, code);
    }

    /// Compares a register against a value and stores the condition
    /// code into `SW`.
    pub fn cmp_reg(&mut self, register: &Register, value: u32)
        ensures
            final(self)@ == old(self)@.with_reg(
                Register::SW,
                cmp_code(old(self)@.reg(*register), value),
            ),
    {
        let x = self.get_reg(register);
        self.cmp_vals(x, value);
    }

    /// The byte stored at an address; an unwritten address reads as
    /// `0x00`.
    pub fn read_byte(&self, address: u32) -> (value: u8)
        requires
            address <= MAX_ADDRESS,
        ensures
            value == self@.byte_at(address),
    {
        match self.memory.get(&address) {
            Some(value) => *value,
            None => 0,
        }
    }

    /// Stores a byte at an address.
    pub fn write_byte(&mut self, address: u32, value: u8)
        requires
            address <= MAX_ADDRESS,
        ensures
            final(self)@ == old(self)@.with_byte(address, value),
    {
        self.memory.insert(address, value);
        assert(self@ =~= old(self)@.with_byte(address, value));
    }

    /// The 24-bit big-endian word starting at an address.  The top
    /// eight bits of the result are zero.
    pub fn read_word(&self, address: u32) -> (value: u32)
        requires
            address + 2 <= MAX_ADDRESS,
        ensures
            value == self@.word_at(address),
            value <= 0x00FF_FFFF,
    {
        let b0 = self.read_byte(address);
        let b1 = self.read_byte(address + 1);
        let b2 = self.read_byte(address + 2);
        let value = ((b0 as u32) << 16) | ((b1 as u32) << 8) | (b2 as u32);
        proof {
            assert(add32(address, 1) == address + 1 && add32(address, 2) == address + 2);
            lemma_word_of_bound(b0, b1, b2);
        }
        value
    }

    /// Writes the low 24 bits of a value at an address, most
    /// significant byte first.
    pub fn write_word(&mut self, address: u32, value: u32)
        requires
            address + 2 <= MAX_ADDRESS,
        ensures
            final(self)@ == old(self)@.with_word(address, value),
    {
        self.write_byte(address, (value >> 16) as u8);
        self.write_byte(address + 1, (value >> 8) as u8);
        self.write_byte(address + 2, value as u8);
        proof {
            assert(add32(address, 1) == address + 1 && add32(address, 2) == address + 2);
        }
    }

    /// The device bound to an id.  An id without a device materialises
    /// a file-backed one; the standard streams on ids 0, 1 and 2 are
    /// never replaced.
    pub fn get_device(&mut self, address: u8) -> (kind: DeviceKind)
        ensures
            final(self)@ == old(self)@.with_device(address),
            kind == old(self)@.device_kind(address),
    {
        let existing = match self.devices.get(&address) {
            Some(kind) => Some(*kind),
            None => None,
        };
        match existing {
            Some(kind) => {
                assert(self@ =~= old(self)@.with_device(address));
                kind
            },
            None => {
                self.devices.insert(address, DeviceKind::FileBacked);
                assert(self@ =~= old(self)@.with_device(address));
                DeviceKind::FileBacked
            },
        }
    }

    /// Reads the byte at `PC` and advances `PC` past it.
    pub(crate) fn fetch(&mut self) -> (value: u8)
        requires
            old(self)@.pc <= MAX_ADDRESS,
        ensures
            value == old(self)@.byte_at(old(self)@.pc),
            final(self)@ == old(self)@.with_reg(Register::PC, (old(self)@.pc + 1) as u32),
    {
        let pc = self.get_reg(&Register::PC);
        let value = self.read_byte(pc);
        self.set_reg(&Register::PC, pc + 1);
        value
    }
}

/// A 24-bit word assembled from three bytes never has its top eight
/// bits set.
pub proof fn lemma_word_of_bound(b0: u8, b1: u8, b2: u8)
    ensures
        word_of(b0, b1, b2) <= 0x00FF_FFFF,
{
    assert(((b0 as u32) << 16) | ((b1 as u32) << 8) | (b2 as u32) <= 0x00FF_FFFFu32)
        by (bit_vector);
}

} // verus!
