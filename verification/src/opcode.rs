//! The SIC/XE opcode values.
//!
//! Each constant is the opcode byte with its two low addressing bits
//! (`n` and `i`) cleared.

use vstd::prelude::*;

verus! {

// Format 3/4 opcodes.
pub const LDA: u8 = 0x00;
pub const LDX: u8 = 0x04;
pub const LDL: u8 = 0x08;
pub const STA: u8 = 0x0C;
pub const STX: u8 = 0x10;
pub const STL: u8 = 0x14;
pub const ADD: u8 = 0x18;
pub const SUB: u8 = 0x1C;
pub const MUL: u8 = 0x20;
pub const DIV: u8 = 0x24;
pub const COMP: u8 = 0x28;
pub const TIX: u8 = 0x2C;
pub const JEQ: u8 = 0x30;
pub const JGT: u8 = 0x34;
pub const JLT: u8 = 0x38;
pub const J: u8 = 0x3C;
pub const AND: u8 = 0x40;
pub const OR: u8 = 0x44;
pub const JSUB: u8 = 0x48;
pub const RSUB: u8 = 0x4C;
pub const LDCH: u8 = 0x50;
pub const STCH: u8 = 0x54;
pub const ADDF: u8 = 0x58;
pub const SUBF: u8 = 0x5C;
pub const MULF: u8 = 0x60;
pub const DIVF: u8 = 0x64;
pub const LDB: u8 = 0x68;
pub const LDS: u8 = 0x6C;
pub const LDF: u8 = 0x70;
pub const LDT: u8 = 0x74;
pub const STB: u8 = 0x78;
pub const STS: u8 = 0x7C;
pub const STF: u8 = 0x80;
pub const STT: u8 = 0x84;
pub const COMPF: u8 = 0x88;
pub const LPS: u8 = 0xD0;
pub const STI: u8 = 0xD4;
pub const RD: u8 = 0xD8;
pub const WD: u8 = 0xDC;
pub const TD: u8 = 0xE0;
pub const STSW: u8 = 0xE8;
pub const SSK: u8 = 0xEC;

// Format 2 opcodes.
pub const ADDR: u8 = 0x90;
pub const SUBR: u8 = 0x94;
pub const MULR: u8 = 0x98;
pub const DIVR: u8 = 0x9C;
pub const COMPR: u8 = 0xA0;
pub const SHIFTL: u8 = 0xA4;
pub const SHIFTR: u8 = 0xA8;
pub const RMO: u8 = 0xAC;
pub const SVC: u8 = 0xB0;
pub const CLEAR: u8 = 0xB4;
pub const TIXR: u8 = 0xB8;

// Format 1 opcodes.
pub const FLOAT: u8 = 0xC0;
pub const FIX: u8 = 0xC4;
pub const NORM: u8 = 0xC8;
pub const SIO: u8 = 0xF0;
pub const HIO: u8 = 0xF4;
pub const TIO: u8 = 0xF8;

} // verus!
