//! Userland transport layer for a capability-based microkernel's IPC
//! interface, modelled for verification.
//!
//! The crate covers the encoding of the message-info tag and the
//! badge/guard word, the layout and accessor discipline of the
//! per-thread IPC buffer, the thread-local buffer binding, the
//! write-once boot-information singleton, and the register-level
//! invocation protocol (which values cross into the kernel for each
//! primitive, and how the returned registers are absorbed).
//!
//! The control transfer itself (a `sysenter` on the modelled ia32
//! target) is target-specific machine code that cannot be expressed
//! here; every invocation is therefore split into a pure request
//! builder and a pure response absorber, and a backend outside this
//! crate performs the transfer between the two.
#![allow(non_snake_case)]
#![allow(non_camel_case_types)]
#![allow(non_upper_case_globals)]

pub mod binding;
pub mod bootinfo;
pub mod cap_data;
pub mod ipc_buffer;
pub mod message_info;
pub mod syscall;
pub mod types;
