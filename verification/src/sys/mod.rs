//! System services provided by the BIOS.

pub mod heap;
