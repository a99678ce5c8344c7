//! Startup runtime model for MSP430 microcontrollers.
//!
//! The crate describes what happens between a hardware reset and the first
//! instruction of the program's entry point: which addresses the linked image
//! has to supply, how static memory is brought into its initial state, how the
//! vector table is laid out, how overridable handlers are bound, and which
//! states the reset sequence walks through.

pub mod boot;
pub mod handlers;
pub mod lang_items;
pub mod layout;
pub mod machine;
pub mod memory;
pub mod vectors;
