//! The register file's names and indices.

use vstd::prelude::*;
use crate::errors::RegisterError;

verus! {

/// A register of the SIC/XE machine.
///
/// Each register keeps the index that the instruction encoding uses for
/// it; index 7 is unused by the architecture.  `F` holds a 32-bit
/// IEEE-754 bit pattern; all other registers hold 24-bit values.
#[derive(Debug, Clone, Copy, PartialEq, Eq, Structural)]
pub enum Register {
    A,
    X,
    L,
    B,
    S,
    T,
    F,
    PC,
    SW,
}

/// The encoding index of a register.
pub open spec fn spec_index(r: Register) -> u8 {
    match r {
        Register::A => 0,
        Register::X => 1,
        Register::L => 2,
        Register::B => 3,
        Register::S => 4,
        Register::T => 5,
        Register::F => 6,
        Register::PC => 8,
        Register::SW => 9,
    }
}

/// The register a given encoding index names, if any.
pub open spec fn spec_from_index(index: u8) -> Result<Register, RegisterError> {
    if index == 0 {
        Ok(Register::A)
    } else if index == 1 {
        Ok(Register::X)
    } else if index == 2 {
        Ok(Register::L)
    } else if index == 3 {
        Ok(Register::B)
    } else if index == 4 {
        Ok(Register::S)
    } else if index == 5 {
        Ok(Register::T)
    } else if index == 6 {
        Ok(Register::F)
    } else if index == 8 {
        Ok(Register::PC)
    } else if index == 9 {
        Ok(Register::SW)
    } else {
        Err(RegisterError { index })
    }
}

impl Register {
    /// Looks a register up by its encoding index.
    ///
    /// Returns `Err` exactly for the indices that name no register:
    /// everything outside `{0..=6, 8, 9}`.
    pub fn from_index(index: u8) -> (result: Result<Self, RegisterError>)
        ensures
            result == spec_from_index(index),
    {
        match index {
            0 => Ok(Register::A),
            1 => Ok(Register::X),
            2 => Ok(Register::L),
            3 => Ok(Register::B),
            4 => Ok(Register::S),
            5 => Ok(Register::T),
            6 => Ok(Register::F),
            8 => Ok(Register::PC),
            9 => Ok(Register::SW),
            _ => Err(RegisterError { index }),
        }
    }

    /// The encoding index of this register.
    pub fn to_index(&self) -> (index: usize)
        ensures
            index == spec_index(*self) as usize,
    {
        match self {
            Register::A => 0,
            Register::X => 1,
            Register::L => 2,
            Register::B => 3,
            Register::S => 4,
            Register::T => 5,
            Register::F => 6,
            Register::PC => 8,
            Register::SW => 9,
        }
    }
}

} // verus!
