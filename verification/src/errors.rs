//! Error types of the emulator.

use vstd::prelude::*;

verus! {

use vstd::string::StringExecFns;

/// A failure surfaced by a register lookup: the index named no register.
#[derive(Debug, Clone, Copy, PartialEq, Eq, Structural)]
pub struct RegisterError {
    pub index: u8,
}

/// An error raised while fetching, decoding or executing one instruction.
#[derive(Debug, Clone, Copy, PartialEq, Eq, Structural)]
pub enum VmError {
    /// A register index outside `{0..=6, 8, 9}` appeared in an instruction.
    InvalidRegister { index: u8 },
    /// The first byte of an instruction fell outside every format range.
    /// `pc` is the address the byte was fetched from.
    Decode { first_byte: u8, pc: u32 },
    /// The opcode is not mapped in the dispatcher for its format.
    InvalidOpcode { opcode: u8 },
    /// The opcode is recognized but deliberately not executed
    /// (NORM, SIO, HIO, TIO, SVC, LPS, STI, SSK).
    Unimplemented { opcode: u8 },
    /// DIV, DIVR or DIVF with a zero divisor.
    DivisionByZero,
    /// A memory access beyond `MAX_ADDRESS` was about to happen.
    /// The caller should treat this as fatal.
    AddressOutOfBounds { address: u32 },
}

/// A failure while parsing an object program.
#[derive(Debug, Clone, Copy, PartialEq, Eq, Structural)]
pub enum LoaderError {
    /// The input does not begin with an `H` record.
    MissingHeader,
    /// The header record is shorter than its fixed 19 bytes.
    TruncatedHeader,
    /// The start-address field of the header is not six hex digits.
    BadHeaderAddress,
    /// The length field of the header is not six hex digits.
    BadHeaderLength,
    /// A `T` record is too short to hold its address and count fields.
    TruncatedTextRecord,
    /// The address field of a `T` record is not six hex digits.
    BadTextAddress,
    /// The data of a `T` record holds a character that is no hex digit.
    BadTextData,
    /// A second `E` record appeared.
    DuplicateEndRecord,
    /// The address of an `E` record is not one to six hex digits.
    BadEndAddress,
    /// The input ended without an `E` record.
    MissingEndRecord,
    /// A `T` record writes beyond `MAX_ADDRESS`.
    AddressOutOfBounds,
}

/// An error that can describe itself for display.
pub trait Error {
    fn message(&self) -> String;
}

impl Error for RegisterError {
    fn message(&self) -> String {
        String::from_str("Invalid register index.")
    }
}

impl Error for VmError {
    fn message(&self) -> String {
        match self {
            VmError::InvalidRegister { .. } => String::from_str("Invalid register index."),
            VmError::Decode { .. } => String::from_str("Unrecognized instruction byte."),
            VmError::InvalidOpcode { .. } => String::from_str("Opcode not mapped in dispatcher."),
            VmError::Unimplemented { .. } => String::from_str("Opcode recognized but not implemented."),
            VmError::DivisionByZero => String::from_str("Division by zero."),
            VmError::AddressOutOfBounds { .. } => String::from_str("Memory address out of bounds."),
        }
    }
}

impl Error for LoaderError {
    fn message(&self) -> String {
        match self {
            LoaderError::MissingHeader => String::from_str("Expected an H record first."),
            LoaderError::TruncatedHeader => String::from_str("Truncated H record."),
            LoaderError::BadHeaderAddress => String::from_str("Malformed start address in H record."),
            LoaderError::BadHeaderLength => String::from_str("Malformed length in H record."),
            LoaderError::TruncatedTextRecord => String::from_str("Truncated T record."),
            LoaderError::BadTextAddress => String::from_str("Malformed address in T record."),
            LoaderError::BadTextData => String::from_str("Malformed hex data in T record."),
            LoaderError::DuplicateEndRecord => String::from_str("Expected only one E record."),
            LoaderError::BadEndAddress => String::from_str("Malformed address in E record."),
            LoaderError::MissingEndRecord => String::from_str("Expected an E record at the end."),
            LoaderError::AddressOutOfBounds => String::from_str("T record writes out of bounds."),
        }
    }
}

} // verus!
