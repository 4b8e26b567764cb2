use vstd::prelude::*;

verus! {

/// The kernel's `enum bpf_prog_type`, as declared in `include/uapi/linux/bpf.h`.
#[derive(Clone, Copy, Debug, PartialEq, Eq, Structural)]
pub enum BpfProgType {
    Unspec,
    SocketFilter,
    Kprobe,
    SchedCls,
    SchedAct,
    Tracepoint,
    Xdp,
    PerfEvent,
    CgroupSkb,
    CgroupSock,
    LwtIn,
    LwtOut,
    LwtXmit,
    SockOps,
    SkSkb,
    CgroupDevice,
    SkMsg,
    RawTracepoint,
    CgroupSockAddr,
    LwtSeg6local,
    LircMode2,
    SkReuseport,
    FlowDissector,
    CgroupSysctl,
    RawTracepointWritable,
    CgroupSockopt,
    Tracing,
    StructOps,
    Ext,
    Lsm,
    SkLookup,
    Syscall,
}

/// The numeric value the kernel gives to each program type.
pub open spec fn prog_type_code(t: BpfProgType) -> u32 {
    match t {
        BpfProgType::Unspec => 0,
        BpfProgType::SocketFilter => 1,
        BpfProgType::Kprobe => 2,
        BpfProgType::SchedCls => 3,
        BpfProgType::SchedAct => 4,
        BpfProgType::Tracepoint => 5,
        BpfProgType::Xdp => 6,
        BpfProgType::PerfEvent => 7,
        BpfProgType::CgroupSkb => 8,
        BpfProgType::CgroupSock => 9,
        BpfProgType::LwtIn => 10,
        BpfProgType::LwtOut => 11,
        BpfProgType::LwtXmit => 12,
        BpfProgType::SockOps => 13,
        BpfProgType::SkSkb => 14,
        BpfProgType::CgroupDevice => 15,
        BpfProgType::SkMsg => 16,
        BpfProgType::RawTracepoint => 17,
        BpfProgType::CgroupSockAddr => 18,
        BpfProgType::LwtSeg6local => 19,
        BpfProgType::LircMode2 => 20,
        BpfProgType::SkReuseport => 21,
        BpfProgType::FlowDissector => 22,
        BpfProgType::CgroupSysctl => 23,
        BpfProgType::RawTracepointWritable => 24,
        BpfProgType::CgroupSockopt => 25,
        BpfProgType::Tracing => 26,
        BpfProgType::StructOps => 27,
        BpfProgType::Ext => 28,
        BpfProgType::Lsm => 29,
        BpfProgType::SkLookup => 30,
        BpfProgType::Syscall => 31,
    }
}

impl BpfProgType {
    /// The value of this program type in the kernel's ABI.
    pub fn code(&self) -> (c: u32)
        ensures
            c == prog_type_code(*self),
    {
        match self {
            BpfProgType::Unspec => 0,
            BpfProgType::SocketFilter => 1,
            BpfProgType::Kprobe => 2,
            BpfProgType::SchedCls => 3,
            BpfProgType::SchedAct => 4,
            BpfProgType::Tracepoint => 5,
            BpfProgType::Xdp => 6,
            BpfProgType::PerfEvent => 7,
            BpfProgType::CgroupSkb => 8,
            BpfProgType::CgroupSock => 9,
            BpfProgType::LwtIn => 10,
            BpfProgType::LwtOut => 11,
            BpfProgType::LwtXmit => 12,
            BpfProgType::SockOps => 13,
            BpfProgType::SkSkb => 14,
            BpfProgType::CgroupDevice => 15,
            BpfProgType::SkMsg => 16,
            BpfProgType::RawTracepoint => 17,
            BpfProgType::CgroupSockAddr => 18,
            BpfProgType::LwtSeg6local => 19,
            BpfProgType::LircMode2 => 20,
            BpfProgType::SkReuseport => 21,
            BpfProgType::FlowDissector => 22,
            BpfProgType::CgroupSysctl => 23,
            BpfProgType::RawTracepointWritable => 24,
            BpfProgType::CgroupSockopt => 25,
            BpfProgType::Tracing => 26,
            BpfProgType::StructOps => 27,
            BpfProgType::Ext => 28,
            BpfProgType::Lsm => 29,
            BpfProgType::SkLookup => 30,
            BpfProgType::Syscall => 31,
        }
    }
}

} // verus!
