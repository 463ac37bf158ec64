//! Control core for a small ground vehicle driven by a hot-pluggable gamepad.
//!
//! The crate holds the verified logic of the daemon: inotify event decoding,
//! device-queue bookkeeping, evdev stream decoding with drop recovery, the
//! control-axis snapshot, the mapping from axes to PWM register writes, the
//! signal mapping and the non-drifting run-loop schedule.  The thin layer that
//! performs the actual system calls lives outside the library and feeds plain
//! values in and out.

pub mod any_gamepad;
pub mod axis;
pub mod bytes;
pub mod detection;
pub mod folder_monitor;
pub mod gamepad;
pub mod input_interpreter;
pub mod i2c;
pub mod locomotion;
pub mod pca9685;
pub mod runloop;
pub mod signals;

pub use axis::AxisValue;
