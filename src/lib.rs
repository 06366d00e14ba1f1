//! Hardware-abstraction layer for EFM32 Gecko microcontrollers.
//!
//! Every peripheral is reached through an explicit register model: a plain-value image of the
//! registers that the library reads and writes. Pins, clock gates and timer channels are
//! move-only capability tokens whose type encodes their configuration, and every operation on
//! them states the exact register change it makes.
use vstd::prelude::*;

pub mod bitband;
pub mod time_util;
pub mod cmu;
pub mod timer;
pub mod gpio;
pub mod routing;
pub mod systick;
pub mod i2c;
pub mod watchdog;
