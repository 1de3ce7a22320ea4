//! The step driver: fetch, decode, execute, and optional rate-limited
//! stepping.

use vstd::prelude::*;
use crate::errors::{LoaderError, VmError};
use crate::format::{
    f1_step, f2_step, f34_step, is_format1, is_format2, is_format34, Effect, Format1, Format2,
    Format34, Instruction,
};
use crate::loader;
use crate::machine::{initial_view, Machine, MachineView, MAX_ADDRESS};
use crate::register::{spec_from_index, Register};

verus! {

/// One fetch-decode-execute cycle as a function of the machine state:
/// the machine afterwards, and the effect or the failure.
///
/// Fetching starts at `PC` and advances it past each consumed byte.
/// The first byte selects the format; its low two bits are the `n`
/// and `i` flags.  A Format 2 instruction carries two register
/// indices in its second byte.  A Format 3/4 instruction packs the
/// `x b p e` flags and four displacement bits into its second byte,
/// eight more displacement bits into its third, and, when `e` is
/// set, eight more into a fourth.
pub open spec fn vm_step(m0: MachineView) -> (MachineView, Result<Effect, VmError>) {
    if m0.pc > MAX_ADDRESS {
        (m0, Err(VmError::AddressOutOfBounds { address: m0.pc }))
    } else {
        let first = m0.byte_at(m0.pc);
        let op = first & 0xFC;
        let m1 = m0.with_reg(Register::PC, (m0.pc + 1) as u32);
        if is_format1(first) {
            f1_step(m1, op)
        } else if is_format2(first) {
            if m1.pc > MAX_ADDRESS {
                (m1, Err(VmError::AddressOutOfBounds { address: m1.pc }))
            } else {
                let rb = m1.byte_at(m1.pc);
                let m2 = m1.with_reg(Register::PC, (m1.pc + 1) as u32);
                match spec_from_index((rb >> 4) & 0xF) {
                    Err(e) => (m2, Err(VmError::InvalidRegister { index: e.index })),
                    Ok(r1) => match spec_from_index(rb & 0xF) {
                        Err(e) => (m2, Err(VmError::InvalidRegister { index: e.index })),
                        Ok(r2) => f2_step(m2, op, r1, r2),
                    },
                }
            }
        } else if is_format34(first) {
            if m1.pc > MAX_ADDRESS {
                (m1, Err(VmError::AddressOutOfBounds { address: m1.pc }))
            } else {
                let b2 = m1.byte_at(m1.pc);
                let m2 = m1.with_reg(Register::PC, (m1.pc + 1) as u32);
                let flags = (b2 >> 4) | ((first & 0b11) << 4);
                if m2.pc > MAX_ADDRESS {
                    (m2, Err(VmError::AddressOutOfBounds { address: m2.pc }))
                } else {
                    let b3 = m2.byte_at(m2.pc);
                    let m3 = m2.with_reg(Register::PC, (m2.pc + 1) as u32);
                    let addr12 = (((b2 & 0xF) as u32) << 8) | (b3 as u32);
                    if flags & 1 == 1 {
                        if m3.pc > MAX_ADDRESS {
                            (m3, Err(VmError::AddressOutOfBounds { address: m3.pc }))
                        } else {
                            let b4 = m3.byte_at(m3.pc);
                            let m4 = m3.with_reg(Register::PC, (m3.pc + 1) as u32);
                            f34_step(m4, op, (addr12 << 8) | (b4 as u32), flags)
                        }
                    } else {
                        f34_step(m3, op, addr12, flags)
                    }
                }
            }
        } else {
            (m1, Err(VmError::Decode { first_byte: first, pc: m0.pc }))
        }
    }
}

/// The mathematical state of a runner: its machine, the advisory
/// frequency in instructions per second, and the timestamp of the
/// last execution in microseconds, present exactly while running.
pub struct RunnerView {
    pub machine: MachineView,
    pub frequency: u64,
    pub last_ex: Option<u64>,
}

/// Relies on `std::time::SystemTime::now` and `duration_since`: the
/// microseconds since the Unix epoch, truncated to 64 bits, or zero
/// if the clock reads before the epoch.  Nothing is promised of the
/// value: the contracts of the callers hold for every outcome.
#[verifier::external_body]
fn now_micros() -> u64 {
    match std::time::SystemTime::now().duration_since(std::time::UNIX_EPOCH) {
        Ok(d) => d.as_micros() as u64,
        Err(_) => 0,
    }
}

/// A machine together with an instruction-rate throttle.
pub struct Runner {
    machine: Machine,
    frequency: u64,
    last_ex: Option<u64>,
}

impl View for Runner {
    type V = RunnerView;

    closed spec fn view(&self) -> RunnerView {
        RunnerView { machine: self.machine@, frequency: self.frequency, last_ex: self.last_ex }
    }
}

impl Runner {
    /// A stopped runner holding a fresh machine, throttled to one
    /// million instructions per second.
    pub fn new() -> (runner: Runner)
        ensures
            runner@.machine == initial_view(),
            runner@.frequency == 1_000_000,
            runner@.last_ex is None,
    {
        Runner { machine: Machine::new(), frequency: 1_000_000, last_ex: None }
    }

    /// The machine, for inspection.
    pub fn machine(&self) -> (machine: &Machine)
        ensures
            machine@ == self@.machine,
    {
        &self.machine
    }

    /// The machine, for completing effects and for direct control.
    pub fn machine_mut(&mut self) -> (machine: &mut Machine)
        ensures
            machine@ == old(self)@.machine,
            final(self)@ == (RunnerView {
                machine: final(machine)@,
                frequency: old(self)@.frequency,
                last_ex: old(self)@.last_ex,
            }),
    {
        &mut self.machine
    }

    /// Whether the runner is started.
    pub fn running(&self) -> (running: bool)
        ensures
            running == (self@.last_ex is Some),
    {
        self.last_ex.is_some()
    }

    /// Starts the runner; the first `try_step` afterwards is due
    /// immediately.
    pub fn start(&mut self)
        ensures
            final(self)@.machine == old(self)@.machine,
            final(self)@.frequency == old(self)@.frequency,
            final(self)@.last_ex is Some,
    {
        let now = now_micros();
        let past: u64 = if now >= 10_000_000 {
            now - 10_000_000
        } else {
            0
        };
        self.last_ex = Some(past);
    }

    /// Stops the runner; the machine keeps its state.
    pub fn stop(&mut self)
        ensures
            final(self)@.machine == old(self)@.machine,
            final(self)@.frequency == old(self)@.frequency,
            final(self)@.last_ex is None,
    {
        self.last_ex = None;
    }

    /// Loads an object program, as [`loader::spec_load`] says: the
    /// machine is reset, the text records fill its memory, and `PC`
    /// points at the address of the `E` record.
    pub fn load_object(&mut self, data: &[u8]) -> (result: Result<(), LoaderError>)
        ensures
            final(self)@.machine == (MachineView {
                mem: loader::spec_load(data@).0,
                pc: loader::spec_load_pc(loader::spec_load(data@).1),
                ..initial_view()
            }),
            match loader::spec_load(data@).1 {
                Ok(_) => result == Ok::<(), LoaderError>(()),
                Err(e) => result == Err::<(), LoaderError>(e),
            },
            final(self)@.frequency == old(self)@.frequency,
            final(self)@.last_ex == old(self)@.last_ex,
    {
        loader::load_object(&mut self.machine, data)
    }

    /// Executes exactly one instruction: the cycle [`vm_step`]
    /// describes.  Marks the runner as having just executed.
    pub fn step(&mut self) -> (result: Result<Effect, VmError>)
        ensures
            final(self)@.machine == vm_step(old(self)@.machine).0,
            result == vm_step(old(self)@.machine).1,
            final(self)@.frequency == old(self)@.frequency,
            final(self)@.last_ex is Some,
    {
        self.last_ex = Some(now_micros());
        let pc = self.machine.get_reg(&Register::PC);
        if pc > MAX_ADDRESS {
            return Err(VmError::AddressOutOfBounds { address: pc });
        }
        let first_byte = self.machine.fetch();
        let op = first_byte & 0xFC;
        if (0xC0 <= first_byte && first_byte <= 0xC8) || (0xF0 <= first_byte && first_byte
            <= 0xF8) {
            let instruction = Format1 { opcode: op };
            instruction.exec(&mut self.machine)
        } else if 0x90 <= first_byte && first_byte <= 0xB8 {
            let pc1 = self.machine.get_reg(&Register::PC);
            if pc1 > MAX_ADDRESS {
                return Err(VmError::AddressOutOfBounds { address: pc1 });
            }
            let registers = self.machine.fetch();
            let r1 = match Register::from_index((registers >> 4) & 0xF) {
                Ok(r) => r,
                Err(e) => {
                    return Err(VmError::InvalidRegister { index: e.index });
                },
            };
            let r2 = match Register::from_index(registers & 0xF) {
                Ok(r) => r,
                Err(e) => {
                    return Err(VmError::InvalidRegister { index: e.index });
                },
            };
            let instruction = Format2 { opcode: op, r1, r2 };
            instruction.exec(&mut self.machine)
        } else if first_byte <= 0x88 || (0xD0 <= first_byte && first_byte <= 0xE0) {
            let pc1 = self.machine.get_reg(&Register::PC);
            if pc1 > MAX_ADDRESS {
                return Err(VmError::AddressOutOfBounds { address: pc1 });
            }
            let b2 = self.machine.fetch();
            let flags = (b2 >> 4) | ((first_byte & 0b11) << 4);
            let pc2 = self.machine.get_reg(&Register::PC);
            if pc2 > MAX_ADDRESS {
                return Err(VmError::AddressOutOfBounds { address: pc2 });
            }
            let b3 = self.machine.fetch();
            let mut address: u32 = (((b2 & 0xF) as u32) << 8) | (b3 as u32);
            if flags & 1 == 1 {
                let pc3 = self.machine.get_reg(&Register::PC);
                if pc3 > MAX_ADDRESS {
                    return Err(VmError::AddressOutOfBounds { address: pc3 });
                }
                let b4 = self.machine.fetch();
                address = (address << 8) | (b4 as u32);
            }
            let instruction = Format34 { opcode: op, address, flags };
            instruction.exec(&mut self.machine)
        } else {
            Err(VmError::Decode { first_byte, pc })
        }
    }

    /// Executes one instruction if the runner is started and enough
    /// time has passed to honour the frequency; otherwise does
    /// nothing and reports `Done`.  A stopped runner never executes.
    pub fn try_step(&mut self) -> (result: Result<Effect, VmError>)
        ensures
            old(self)@.last_ex is None ==> final(self)@ == old(self)@ && result == Ok::<
                Effect,
                VmError,
            >(Effect::Done),
            old(self)@.last_ex is Some ==> (final(self)@ == old(self)@ && result == Ok::<
                Effect,
                VmError,
            >(Effect::Done)) || (final(self)@.machine == vm_step(old(self)@.machine).0 && result
                == vm_step(old(self)@.machine).1 && final(self)@.frequency == old(
                self,
            )@.frequency && final(self)@.last_ex is Some),
    {
        let now = now_micros();
        let prev = match self.last_ex {
            Some(prev) => prev,
            None => {
                return Ok(Effect::Done);
            },
        };
        let interval: u64 = if self.frequency == 0 {
            0
        } else {
            1_000_000 / self.frequency
        };
        if now >= prev && now - prev >= interval {
            self.step()
        } else {
            Ok(Effect::Done)
        }
    }
}

} // verus!
