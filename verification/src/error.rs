use vstd::prelude::*;

verus! {

/// A failed system call: which call failed and the `errno` it reported.
#[derive(Clone, Copy, Debug, PartialEq, Eq)]
pub struct SyscallError {
    /// The name of the call that failed.
    pub call: &'static str,
    /// The OS error code returned by the call.
    pub io_error: i32,
}

/// Error type returned when working with programs.
#[derive(Clone, Debug, PartialEq, Eq)]
pub enum ProgramError {
    /// The program is already loaded.
    AlreadyLoaded,
    /// The program is not loaded.
    NotLoaded,
    /// The program is already attached.
    AlreadyAttached,
    /// The program is not attached.
    NotAttached,
    /// Loading the program failed.
    LoadError {
        /// The OS error code returned by the `BPF_PROG_LOAD` syscall.
        io_error: i32,
        /// The error log produced by the kernel verifier.
        verifier_log: String,
    },
    /// A syscall failed.
    SyscallError(SyscallError),
    /// The network interface does not exist.
    UnknownInterface {
        /// interface name
        name: String,
    },
    /// The program is not of the expected type.
    UnexpectedProgramType,
    /// The program name is invalid.
    InvalidName {
        /// program name
        name: String,
    },
    /// An error occurred while working with IO; the OS error code.
    IOError(i32),
}

/// Errors that can occur when pinning a program to a BPF filesystem.
#[derive(Clone, Debug, PartialEq, Eq)]
pub enum PinError {
    /// The object has no file descriptor to pin.
    NoFd {
        /// The name of the object.
        name: String,
    },
    /// The path for the BPF object is not valid: it holds a NUL byte.
    InvalidPinPath {
        /// The path bytes.
        path: Vec<u8>,
        /// The position of the first NUL byte in the path.
        nul_position: usize,
    },
    /// A syscall failed.
    SyscallError(SyscallError),
}

} // verus!
