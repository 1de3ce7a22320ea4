//! The device table's view of I/O endpoints.
//!
//! The machine keys devices by an 8-bit id.  Ids 0, 1 and 2 are
//! reserved for the standard streams and installed at construction and
//! on reset; any other id materialises as a file-backed device on first
//! reference.  The table records only the kind of each device: the
//! byte transfers themselves are performed by the embedding program,
//! which is handed an [`Effect`] naming the device.
//!
//! [`Effect`]: crate::format::Effect

use vstd::prelude::*;

verus! {

/// What kind of endpoint a device id is bound to.
#[derive(Debug, Clone, Copy, PartialEq, Eq, Structural)]
pub enum DeviceKind {
    /// Device 0: the standard input stream.
    StdIn,
    /// Device 1: the standard output stream.
    StdOut,
    /// Device 2: the standard error stream.
    StdErr,
    /// Any other id: a file named after the id in two-digit uppercase
    /// hexadecimal, with the extension `dev`.
    FileBacked,
}

/// The device table of a machine that was just constructed or reset:
/// the three standard streams and nothing else.
pub open spec fn std_devices() -> Map<u8, DeviceKind> {
    Map::empty().insert(0, DeviceKind::StdIn).insert(1, DeviceKind::StdOut).insert(
        2,
        DeviceKind::StdErr,
    )
}

} // verus!
