//! Verified core of the SoloX AMP experiment: the CPIO reader that finds the
//! M4 firmware, the i.MX6 messaging-unit driver, the board-support register
//! computations of the M4 firmware, and the seL4 object allocator of the
//! root task.
#![allow(non_camel_case_types, non_upper_case_globals, non_snake_case)]

pub mod allocator;
pub mod bsp;
pub mod cpio;
pub mod devices;
pub mod mu;
pub mod platform;
pub mod root_task;
pub mod sel4;
pub mod volatile;
