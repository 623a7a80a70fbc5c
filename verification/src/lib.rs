//! Verified core of the firmware for the Seeed Studio XIAO nRF52840 Sense:
//! the RGB colour model, the LSM6DS3TR-C driver decisions, the IMU reply
//! texts and the UART command line.

use vstd::prelude::*;

pub mod cli;
pub mod color;
pub mod imu_task;
pub mod lsm6ds3;
pub mod text;
pub mod uart;

verus! {

} // verus!
