//! High-level-emulation runtime for a handheld ARM11 game console.
//!
//! The crate boots a statically linked homebrew executable, interprets its
//! ARMv6/Thumb instruction stream, and services its system calls and service
//! requests entirely in-host.  The pieces are: a CPU state machine with
//! banked registers (`cpu`), flat region-dispatched memory (`memory`), an
//! HLE microkernel with handle table, scheduler and synchronization
//! primitives (`kernel`), the executable loader (`loader`), emulated OS
//! services (`services`), the system timer (`hw`), and the orchestrating
//! step loop (`emulator`).

pub mod bits;
pub mod cpu;
pub mod emulator;
pub mod memory;
pub mod services;
pub mod hw;
pub mod kernel;
pub mod loader;
