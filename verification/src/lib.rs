//! Driver logic for a register-addressable SPI camera module.
//!
//! The camera is operated through single-register reads and writes plus a
//! chunked burst read that drains the module's output buffer. The bus and the
//! delay capability are abstracted as traits whose contracts record every
//! transfer, so each operation's wire traffic is stated and proved exactly.

pub mod bus;
pub mod camera;
pub mod jpeg;
pub mod protocol;
pub mod script;
pub mod settings;

pub use bus::{BusEvent, CameraBus, DelaySource, Error};
pub use camera::ArducamMega;
pub use jpeg::find_jpeg_eof;
pub use protocol::{ArduchipCommand, RegisterAddress};
pub use script::{LogEntry, ScriptBus, ScriptDelay, ScriptFault};
pub use settings::{
    BrightnessLevel, CameraControl, CameraType, ColorEffect, ControlValue, Format, Level,
    PowerMode, Resolution, SharpnessLevel, WhiteBalanceMode,
};

use vstd::prelude::*;

verus! {

/// Wraps a raw 16-bit register address of a sensor with a wide register file.
#[derive(Copy, Clone, Debug)]
pub struct RegAddr(pub u16);

/// Adds one, wrapping around to zero at the top of the `u32` range.
pub fn add_one(x: u32) -> (r: u32)
    ensures
        x < u32::MAX ==> r == x + 1,
        x == u32::MAX ==> r == 0,
{
    if x == u32::MAX {
        0
    } else {
        x + 1
    }
}

} // verus!
