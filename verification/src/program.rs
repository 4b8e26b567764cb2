use vstd::prelude::*;
use crate::data::{info_outcome, pinned, unload_result, PinRequest, ProgramData, ProgramFd};
use crate::error::{PinError, ProgramError, SyscallError};
use crate::info::{BpfProgInfo, ProgramInfo};
use crate::prog_type::BpfProgType;
use crate::bytes::nul_free;

verus! {

/// eBPF program type: one variant per kind of program, each with the
/// program's state.
#[derive(Debug)]
pub enum Program {
    /// A `KProbe` program
    KProbe(ProgramData),
    /// A `UProbe` program
    UProbe(ProgramData),
    /// A `TracePoint` program
    TracePoint(ProgramData),
    /// A `SocketFilter` program
    SocketFilter(ProgramData),
    /// A `Xdp` program
    Xdp(ProgramData),
    /// A `SkMsg` program
    SkMsg(ProgramData),
    /// A `SkSkb` program
    SkSkb(ProgramData),
    /// A `CgroupSockAddr` program
    CgroupSockAddr(ProgramData),
    /// A `SockOps` program
    SockOps(ProgramData),
    /// A `SchedClassifier` program
    SchedClassifier(ProgramData),
    /// A `CgroupSkb` program
    CgroupSkb(ProgramData),
    /// A `CgroupSysctl` program
    CgroupSysctl(ProgramData),
    /// A `CgroupSockopt` program
    CgroupSockopt(ProgramData),
    /// A `LircMode2` program
    LircMode2(ProgramData),
    /// A `PerfEvent` program
    PerfEvent(ProgramData),
    /// A `RawTracePoint` program
    RawTracePoint(ProgramData),
    /// A `Lsm` program
    Lsm(ProgramData),
    /// A `BtfTracePoint` program
    BtfTracePoint(ProgramData),
    /// A `FEntry` program
    FEntry(ProgramData),
    /// A `FExit` program
    FExit(ProgramData),
    /// A `Extension` program
    Extension(ProgramData),
    /// A `SkLookup` program
    SkLookup(ProgramData),
    /// A `CgroupSock` program
    CgroupSock(ProgramData),
    /// A `CgroupDevice` program
    CgroupDevice(ProgramData),
}

/// The kernel program type of each kind of program.
pub open spec fn kind_prog_type(p: Program) -> BpfProgType {
    match p {
        Program::KProbe(_) => BpfProgType::Kprobe,
        Program::UProbe(_) => BpfProgType::Kprobe,
        Program::TracePoint(_) => BpfProgType::Tracepoint,
        Program::SocketFilter(_) => BpfProgType::SocketFilter,
        Program::Xdp(_) => BpfProgType::Xdp,
        Program::SkMsg(_) => BpfProgType::SkMsg,
        Program::SkSkb(_) => BpfProgType::SkSkb,
        Program::CgroupSockAddr(_) => BpfProgType::CgroupSockAddr,
        Program::SockOps(_) => BpfProgType::SockOps,
        Program::SchedClassifier(_) => BpfProgType::SchedCls,
        Program::CgroupSkb(_) => BpfProgType::CgroupSkb,
        Program::CgroupSysctl(_) => BpfProgType::CgroupSysctl,
        Program::CgroupSockopt(_) => BpfProgType::CgroupSockopt,
        Program::LircMode2(_) => BpfProgType::LircMode2,
        Program::PerfEvent(_) => BpfProgType::PerfEvent,
        Program::RawTracePoint(_) => BpfProgType::RawTracepoint,
        Program::Lsm(_) => BpfProgType::Lsm,
        Program::BtfTracePoint(_) => BpfProgType::Tracing,
        Program::FEntry(_) => BpfProgType::Tracing,
        Program::FExit(_) => BpfProgType::Tracing,
        Program::Extension(_) => BpfProgType::Ext,
        Program::SkLookup(_) => BpfProgType::SkLookup,
        Program::CgroupSock(_) => BpfProgType::CgroupSock,
        Program::CgroupDevice(_) => BpfProgType::CgroupDevice,
    }
}

/// The position of the program's variant in the declaration of `Program`.
pub open spec fn kind_index(p: Program) -> nat {
    match p {
        Program::KProbe(_) => 0,
        Program::UProbe(_) => 1,
        Program::TracePoint(_) => 2,
        Program::SocketFilter(_) => 3,
        Program::Xdp(_) => 4,
        Program::SkMsg(_) => 5,
        Program::SkSkb(_) => 6,
        Program::CgroupSockAddr(_) => 7,
        Program::SockOps(_) => 8,
        Program::SchedClassifier(_) => 9,
        Program::CgroupSkb(_) => 10,
        Program::CgroupSysctl(_) => 11,
        Program::CgroupSockopt(_) => 12,
        Program::LircMode2(_) => 13,
        Program::PerfEvent(_) => 14,
        Program::RawTracePoint(_) => 15,
        Program::Lsm(_) => 16,
        Program::BtfTracePoint(_) => 17,
        Program::FEntry(_) => 18,
        Program::FExit(_) => 19,
        Program::Extension(_) => 20,
        Program::SkLookup(_) => 21,
        Program::CgroupSock(_) => 22,
        Program::CgroupDevice(_) => 23,
    }
}

/// The program's state.
pub open spec fn program_data(p: Program) -> ProgramData {
    match p {
        Program::KProbe(d) => d,
        Program::UProbe(d) => d,
        Program::TracePoint(d) => d,
        Program::SocketFilter(d) => d,
        Program::Xdp(d) => d,
        Program::SkMsg(d) => d,
        Program::SkSkb(d) => d,
        Program::CgroupSockAddr(d) => d,
        Program::SockOps(d) => d,
        Program::SchedClassifier(d) => d,
        Program::CgroupSkb(d) => d,
        Program::CgroupSysctl(d) => d,
        Program::CgroupSockopt(d) => d,
        Program::LircMode2(d) => d,
        Program::PerfEvent(d) => d,
        Program::RawTracePoint(d) => d,
        Program::Lsm(d) => d,
        Program::BtfTracePoint(d) => d,
        Program::FEntry(d) => d,
        Program::FExit(d) => d,
        Program::Extension(d) => d,
        Program::SkLookup(d) => d,
        Program::CgroupSock(d) => d,
        Program::CgroupDevice(d) => d,
    }
}

/// What `Program::fd` answers: the descriptor of a loaded program, else
/// `NotLoaded`.
pub open spec fn fd_answer(p: Program) -> Result<ProgramFd, ProgramError> {
    match program_data(p).fd {
        Some(f) => Ok(f),
        None => Err(ProgramError::NotLoaded),
    }
}

impl Program {
    /// Returns the low level program type.
    pub fn prog_type(&self) -> (r: BpfProgType)
        ensures
            r == kind_prog_type(*self),
    {
        match self {
            Self::KProbe(_) => BpfProgType::Kprobe,
            Self::UProbe(_) => BpfProgType::Kprobe,
            Self::TracePoint(_) => BpfProgType::Tracepoint,
            Self::SocketFilter(_) => BpfProgType::SocketFilter,
            Self::Xdp(_) => BpfProgType::Xdp,
            Self::SkMsg(_) => BpfProgType::SkMsg,
            Self::SkSkb(_) => BpfProgType::SkSkb,
            Self::CgroupSockAddr(_) => BpfProgType::CgroupSockAddr,
            Self::SockOps(_) => BpfProgType::SockOps,
            Self::SchedClassifier(_) => BpfProgType::SchedCls,
            Self::CgroupSkb(_) => BpfProgType::CgroupSkb,
            Self::CgroupSysctl(_) => BpfProgType::CgroupSysctl,
            Self::CgroupSockopt(_) => BpfProgType::CgroupSockopt,
            Self::LircMode2(_) => BpfProgType::LircMode2,
            Self::PerfEvent(_) => BpfProgType::PerfEvent,
            Self::RawTracePoint(_) => BpfProgType::RawTracepoint,
            Self::Lsm(_) => BpfProgType::Lsm,
            Self::BtfTracePoint(_) => BpfProgType::Tracing,
            Self::FEntry(_) => BpfProgType::Tracing,
            Self::FExit(_) => BpfProgType::Tracing,
            Self::Extension(_) => BpfProgType::Ext,
            Self::SkLookup(_) => BpfProgType::SkLookup,
            Self::CgroupSock(_) => BpfProgType::CgroupSock,
            Self::CgroupDevice(_) => BpfProgType::CgroupDevice,
        }
    }

    /// The program's state.
    pub fn data(&self) -> (r: &ProgramData)
        ensures
            *r == program_data(*self),
    {
        match self {
            Self::KProbe(p) => p,
            Self::UProbe(p) => p,
            Self::TracePoint(p) => p,
            Self::SocketFilter(p) => p,
            Self::Xdp(p) => p,
            Self::SkMsg(p) => p,
            Self::SkSkb(p) => p,
            Self::CgroupSockAddr(p) => p,
            Self::SockOps(p) => p,
            Self::SchedClassifier(p) => p,
            Self::CgroupSkb(p) => p,
            Self::CgroupSysctl(p) => p,
            Self::CgroupSockopt(p) => p,
            Self::LircMode2(p) => p,
            Self::PerfEvent(p) => p,
            Self::RawTracePoint(p) => p,
            Self::Lsm(p) => p,
            Self::BtfTracePoint(p) => p,
            Self::FEntry(p) => p,
            Self::FExit(p) => p,
            Self::Extension(p) => p,
            Self::SkLookup(p) => p,
            Self::CgroupSock(p) => p,
            Self::CgroupDevice(p) => p,
        }
    }

    /// Pin the program to the provided path: records the path, then builds
    /// the `BPF_OBJ_PIN` request (see `ProgramData::pin`).
    pub fn pin(&mut self, path: Vec<u8>) -> (r: Result<PinRequest, PinError>)
        requires
            program_data(*old(self)).wf(),
        ensures
            kind_index(*final(self)) == kind_index(*old(self)),
            pinned(program_data(*old(self)), program_data(*final(self)), path@, r),
            program_data(*old(self)).fd is Some && nul_free(path@) ==> (r matches Ok(req) && req.fd
                == program_data(*old(self)).fd.unwrap().0 && req.path@ == path@),
            (r matches Err(PinError::NoFd { .. })) ==> program_data(*old(self)).fd is None,
    {
        match self {
            Self::KProbe(p) => p.pin(path),
            Self::UProbe(p) => p.pin(path),
            Self::TracePoint(p) => p.pin(path),
            Self::SocketFilter(p) => p.pin(path),
            Self::Xdp(p) => p.pin(path),
            Self::SkMsg(p) => p.pin(path),
            Self::SkSkb(p) => p.pin(path),
            Self::CgroupSockAddr(p) => p.pin(path),
            Self::SockOps(p) => p.pin(path),
            Self::SchedClassifier(p) => p.pin(path),
            Self::CgroupSkb(p) => p.pin(path),
            Self::CgroupSysctl(p) => p.pin(path),
            Self::CgroupSockopt(p) => p.pin(path),
            Self::LircMode2(p) => p.pin(path),
            Self::PerfEvent(p) => p.pin(path),
            Self::RawTracePoint(p) => p.pin(path),
            Self::Lsm(p) => p.pin(path),
            Self::BtfTracePoint(p) => p.pin(path),
            Self::FEntry(p) => p.pin(path),
            Self::FExit(p) => p.pin(path),
            Self::Extension(p) => p.pin(path),
            Self::SkLookup(p) => p.pin(path),
            Self::CgroupSock(p) => p.pin(path),
            Self::CgroupDevice(p) => p.pin(path),
        }
    }

    /// Unloads the program from the kernel. `detached` is how detaching its
    /// links went; on success the released descriptor comes back, to be closed.
    pub fn unload(self, detached: Result<(), ProgramError>) -> (r: Result<ProgramFd, ProgramError>)
        ensures
            r == unload_result(program_data(self), detached),
    {
        match self {
            Self::KProbe(mut p) => p.unload(detached),
            Self::UProbe(mut p) => p.unload(detached),
            Self::TracePoint(mut p) => p.unload(detached),
            Self::SocketFilter(mut p) => p.unload(detached),
            Self::Xdp(mut p) => p.unload(detached),
            Self::SkMsg(mut p) => p.unload(detached),
            Self::SkSkb(mut p) => p.unload(detached),
            Self::CgroupSockAddr(mut p) => p.unload(detached),
            Self::SockOps(mut p) => p.unload(detached),
            Self::SchedClassifier(mut p) => p.unload(detached),
            Self::CgroupSkb(mut p) => p.unload(detached),
            Self::CgroupSysctl(mut p) => p.unload(detached),
            Self::CgroupSockopt(mut p) => p.unload(detached),
            Self::LircMode2(mut p) => p.unload(detached),
            Self::PerfEvent(mut p) => p.unload(detached),
            Self::RawTracePoint(mut p) => p.unload(detached),
            Self::Lsm(mut p) => p.unload(detached),
            Self::BtfTracePoint(mut p) => p.unload(detached),
            Self::FEntry(mut p) => p.unload(detached),
            Self::FExit(mut p) => p.unload(detached),
            Self::Extension(mut p) => p.unload(detached),
            Self::SkLookup(mut p) => p.unload(detached),
            Self::CgroupSock(mut p) => p.unload(detached),
            Self::CgroupDevice(mut p) => p.unload(detached),
        }
    }

    /// Returns the file descriptor of a program; `NotLoaded` when it is not loaded.
    pub fn fd(&self) -> (r: Result<&ProgramFd, ProgramError>)
        ensures
            match fd_answer(*self) {
                Ok(f) => r == Ok::<&ProgramFd, ProgramError>(&f),
                Err(e) => r == Err::<&ProgramFd, ProgramError>(e),
            },
    {
        match self {
            Self::KProbe(p) => p.fd(),
            Self::UProbe(p) => p.fd(),
            Self::TracePoint(p) => p.fd(),
            Self::SocketFilter(p) => p.fd(),
            Self::Xdp(p) => p.fd(),
            Self::SkMsg(p) => p.fd(),
            Self::SkSkb(p) => p.fd(),
            Self::CgroupSockAddr(p) => p.fd(),
            Self::SockOps(p) => p.fd(),
            Self::SchedClassifier(p) => p.fd(),
            Self::CgroupSkb(p) => p.fd(),
            Self::CgroupSysctl(p) => p.fd(),
            Self::CgroupSockopt(p) => p.fd(),
            Self::LircMode2(p) => p.fd(),
            Self::PerfEvent(p) => p.fd(),
            Self::RawTracePoint(p) => p.fd(),
            Self::Lsm(p) => p.fd(),
            Self::BtfTracePoint(p) => p.fd(),
            Self::FEntry(p) => p.fd(),
            Self::FExit(p) => p.fd(),
            Self::Extension(p) => p.fd(),
            Self::SkLookup(p) => p.fd(),
            Self::CgroupSock(p) => p.fd(),
            Self::CgroupDevice(p) => p.fd(),
        }
    }

    /// Returns information about a loaded program with the `ProgramInfo` structure.
    /// `fetched` is the kernel's answer to `BPF_OBJ_GET_INFO_BY_FD` on the
    /// program's descriptor.
    pub fn info(&self, fetched: Result<BpfProgInfo, SyscallError>) -> (r: Result<
        ProgramInfo,
        ProgramError,
    >)
        ensures
            info_outcome(program_data(*self), fetched, r),
            program_data(*self).fd is Some && fetched is Ok ==> (r matches Ok(pi) && pi.0
                == fetched.unwrap()),
    {
        match self {
            Self::KProbe(p) => p.info(fetched),
            Self::UProbe(p) => p.info(fetched),
            Self::TracePoint(p) => p.info(fetched),
            Self::SocketFilter(p) => p.info(fetched),
            Self::Xdp(p) => p.info(fetched),
            Self::SkMsg(p) => p.info(fetched),
            Self::SkSkb(p) => p.info(fetched),
            Self::CgroupSockAddr(p) => p.info(fetched),
            Self::SockOps(p) => p.info(fetched),
            Self::SchedClassifier(p) => p.info(fetched),
            Self::CgroupSkb(p) => p.info(fetched),
            Self::CgroupSysctl(p) => p.info(fetched),
            Self::CgroupSockopt(p) => p.info(fetched),
            Self::LircMode2(p) => p.info(fetched),
            Self::PerfEvent(p) => p.info(fetched),
            Self::RawTracePoint(p) => p.info(fetched),
            Self::Lsm(p) => p.info(fetched),
            Self::BtfTracePoint(p) => p.info(fetched),
            Self::FEntry(p) => p.info(fetched),
            Self::FExit(p) => p.info(fetched),
            Self::Extension(p) => p.info(fetched),
            Self::SkLookup(p) => p.info(fetched),
            Self::CgroupSock(p) => p.info(fetched),
            Self::CgroupDevice(p) => p.info(fetched),
        }
    }
}

} // verus!
