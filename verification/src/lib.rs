//! eBPF program management: the bookkeeping that decides what is asked of the
//! kernel when a program is loaded, pinned, queried or unloaded, and how the
//! kernel's answers are interpreted.
//!
//! The kernel itself is reached only by the caller: every function here that
//! needs the kernel either returns a description of the request to make, or
//! takes the kernel's reply as an argument.

pub mod bytes;
pub mod data;
pub(crate) mod errno;
pub mod error;
pub mod fdinfo;
pub mod info;
pub mod kernel_version;
pub mod kind_laws;
pub mod laws;
pub mod links;
pub mod prog_type;
pub mod program;
pub mod query;
pub mod value_laws;
pub mod verifier_log;
