//! Report codec for a small USB HID command protocol.
//!
//! Logical commands (move the pointer, inject a payload, set a target,
//! enumerate, clear, press a key) are framed into fixed 65-byte feature
//! reports: a reserved zero byte, a report-type byte, a command opcode and a
//! zero-padded argument payload. The framing, the hex-pair target decoder and
//! the diagnostic dump rendering are verified here; the HID transport itself
//! (device discovery, opening, writing) is left to the application around the
//! library.

use vstd::prelude::*;

pub mod codec;
pub mod discovery;
pub mod dump;
pub mod errors;

verus! {

/// Vendor identifier of the peripheral this library drives.
pub const VID: u16 = 0x1915;

/// Product identifier of the peripheral this library drives.
pub const PID: u16 = 0x520c;

} // verus!
