//! Utilities of the firmware.
pub mod string_utils;
