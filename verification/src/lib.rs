//! Hutch: the hosted runtime that emulates the Glenda microkernel on a host OS.
//!
//! The verified part holds the kernel's bookkeeping: the capability space and its
//! derivation tree, endpoint IPC as a state machine, the IRQ table, the heap break,
//! the registered capabilities, the device database, the exception and console
//! message formats and the framing of the client protocol.
use vstd::prelude::*;

pub mod config;
pub mod error;
pub mod io;
pub mod kernel;
pub mod proto;
pub mod service;
pub mod syscall;
