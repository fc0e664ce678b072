//! Earliest boot layer of a freestanding kernel image.
//!
//! The library models the machine that the boot code runs on as plain
//! values: a window of physical memory, the firmware console as the bytes
//! that have been handed to it, and the boot stage reached so far. Every
//! step of the boot sequence is a verified function over that model; the
//! program around the library moves the console bytes to the firmware and
//! performs the shutdown once the machine has reached its terminal stage.
mod layout;
mod boot;
mod console;
mod failure;
mod memory;

pub use boot::{
    layout_report, range_text, rust_main, shutdown_line, BootStage, Machine,
};
pub use console::{
    dec_digits, digit_char, hex_digits, hex_text, level_color, level_tag, line_prefix, line_suffix,
    log_line, Console, Level,
};
pub use failure::{
    failure_text, message_text, write_failure_text, FailureRecord, Location,
};
pub use layout::{AddressRange, MemoryLayout};
pub use memory::{clear_bss, Memory};
