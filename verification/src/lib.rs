//! Verified core of the PlayStation runtime's BIOS heap and panic reporting.

pub mod panic_report;
pub mod sys;
