//! A CHIP-8 virtual machine core: instruction decoder, execution engine and
//! the 60 Hz tick scheduler, with every operation specified against a
//! mathematical model of the machine.

pub mod config;
pub mod decoder;
pub mod emulator;
pub mod error;
pub mod scheduler;
