use vstd::prelude::*;
use crate::data::ProgramData;
use crate::program::{kind_index, kind_prog_type, program_data, Program};
use crate::prog_type::{prog_type_code, BpfProgType};

verus! {

/// Each kind of program is loaded as its own kernel program type: kprobes
/// and uprobes as kprobes, the BTF-typed tracing kinds (BTF tracepoints,
/// fentry, fexit) as tracing programs, classifiers as `SCHED_CLS`,
/// extensions as `EXT`, and every other kind as the type of the same name.
pub proof fn lemma_program_types(d: ProgramData)
    ensures
        kind_prog_type(Program::KProbe(d)) == BpfProgType::Kprobe,
        kind_prog_type(Program::UProbe(d)) == BpfProgType::Kprobe,
        kind_prog_type(Program::TracePoint(d)) == BpfProgType::Tracepoint,
        kind_prog_type(Program::SocketFilter(d)) == BpfProgType::SocketFilter,
        kind_prog_type(Program::Xdp(d)) == BpfProgType::Xdp,
        kind_prog_type(Program::SkMsg(d)) == BpfProgType::SkMsg,
        kind_prog_type(Program::SkSkb(d)) == BpfProgType::SkSkb,
        kind_prog_type(Program::CgroupSockAddr(d)) == BpfProgType::CgroupSockAddr,
        kind_prog_type(Program::SockOps(d)) == BpfProgType::SockOps,
        kind_prog_type(Program::SchedClassifier(d)) == BpfProgType::SchedCls,
        kind_prog_type(Program::CgroupSkb(d)) == BpfProgType::CgroupSkb,
        kind_prog_type(Program::CgroupSysctl(d)) == BpfProgType::CgroupSysctl,
        kind_prog_type(Program::CgroupSockopt(d)) == BpfProgType::CgroupSockopt,
        kind_prog_type(Program::LircMode2(d)) == BpfProgType::LircMode2,
        kind_prog_type(Program::PerfEvent(d)) == BpfProgType::PerfEvent,
        kind_prog_type(Program::RawTracePoint(d)) == BpfProgType::RawTracepoint,
        kind_prog_type(Program::Lsm(d)) == BpfProgType::Lsm,
        kind_prog_type(Program::BtfTracePoint(d)) == BpfProgType::Tracing,
        kind_prog_type(Program::FEntry(d)) == BpfProgType::Tracing,
        kind_prog_type(Program::FExit(d)) == BpfProgType::Tracing,
        kind_prog_type(Program::Extension(d)) == BpfProgType::Ext,
        kind_prog_type(Program::SkLookup(d)) == BpfProgType::SkLookup,
        kind_prog_type(Program::CgroupSock(d)) == BpfProgType::CgroupSock,
        kind_prog_type(Program::CgroupDevice(d)) == BpfProgType::CgroupDevice,
{
}

/// The program types are numbered as in the kernel's `enum bpf_prog_type`,
/// in declaration order from `BPF_PROG_TYPE_UNSPEC = 0`.
pub proof fn lemma_prog_type_codes()
    ensures
        prog_type_code(BpfProgType::Unspec) == 0,
        prog_type_code(BpfProgType::SocketFilter) == 1,
        prog_type_code(BpfProgType::Kprobe) == 2,
        prog_type_code(BpfProgType::SchedCls) == 3,
        prog_type_code(BpfProgType::SchedAct) == 4,
        prog_type_code(BpfProgType::Tracepoint) == 5,
        prog_type_code(BpfProgType::Xdp) == 6,
        prog_type_code(BpfProgType::PerfEvent) == 7,
        prog_type_code(BpfProgType::CgroupSkb) == 8,
        prog_type_code(BpfProgType::CgroupSock) == 9,
        prog_type_code(BpfProgType::LwtIn) == 10,
        prog_type_code(BpfProgType::LwtOut) == 11,
        prog_type_code(BpfProgType::LwtXmit) == 12,
        prog_type_code(BpfProgType::SockOps) == 13,
        prog_type_code(BpfProgType::SkSkb) == 14,
        prog_type_code(BpfProgType::CgroupDevice) == 15,
        prog_type_code(BpfProgType::SkMsg) == 16,
        prog_type_code(BpfProgType::RawTracepoint) == 17,
        prog_type_code(BpfProgType::CgroupSockAddr) == 18,
        prog_type_code(BpfProgType::LwtSeg6local) == 19,
        prog_type_code(BpfProgType::LircMode2) == 20,
        prog_type_code(BpfProgType::SkReuseport) == 21,
        prog_type_code(BpfProgType::FlowDissector) == 22,
        prog_type_code(BpfProgType::CgroupSysctl) == 23,
        prog_type_code(BpfProgType::RawTracepointWritable) == 24,
        prog_type_code(BpfProgType::CgroupSockopt) == 25,
        prog_type_code(BpfProgType::Tracing) == 26,
        prog_type_code(BpfProgType::StructOps) == 27,
        prog_type_code(BpfProgType::Ext) == 28,
        prog_type_code(BpfProgType::Lsm) == 29,
        prog_type_code(BpfProgType::SkLookup) == 30,
        prog_type_code(BpfProgType::Syscall) == 31,
{
}

/// Distinct program types have distinct codes, so the kernel can tell every
/// type from every other.
pub proof fn lemma_prog_type_codes_distinct(a: BpfProgType, b: BpfProgType)
    ensures
        prog_type_code(a) == prog_type_code(b) <==> a == b,
{
}

/// A program holds the state it was built with, whatever its kind, and the
/// kinds are told apart.
pub proof fn lemma_program_data_and_kind(d: ProgramData)
    ensures
        program_data(Program::KProbe(d)) == d,
        kind_index(Program::KProbe(d)) == 0,
        program_data(Program::UProbe(d)) == d,
        kind_index(Program::UProbe(d)) == 1,
        program_data(Program::TracePoint(d)) == d,
        kind_index(Program::TracePoint(d)) == 2,
        program_data(Program::SocketFilter(d)) == d,
        kind_index(Program::SocketFilter(d)) == 3,
        program_data(Program::Xdp(d)) == d,
        kind_index(Program::Xdp(d)) == 4,
        program_data(Program::SkMsg(d)) == d,
        kind_index(Program::SkMsg(d)) == 5,
        program_data(Program::SkSkb(d)) == d,
        kind_index(Program::SkSkb(d)) == 6,
        program_data(Program::CgroupSockAddr(d)) == d,
        kind_index(Program::CgroupSockAddr(d)) == 7,
        program_data(Program::SockOps(d)) == d,
        kind_index(Program::SockOps(d)) == 8,
        program_data(Program::SchedClassifier(d)) == d,
        kind_index(Program::SchedClassifier(d)) == 9,
        program_data(Program::CgroupSkb(d)) == d,
        kind_index(Program::CgroupSkb(d)) == 10,
        program_data(Program::CgroupSysctl(d)) == d,
        kind_index(Program::CgroupSysctl(d)) == 11,
        program_data(Program::CgroupSockopt(d)) == d,
        kind_index(Program::CgroupSockopt(d)) == 12,
        program_data(Program::LircMode2(d)) == d,
        kind_index(Program::LircMode2(d)) == 13,
        program_data(Program::PerfEvent(d)) == d,
        kind_index(Program::PerfEvent(d)) == 14,
        program_data(Program::RawTracePoint(d)) == d,
        kind_index(Program::RawTracePoint(d)) == 15,
        program_data(Program::Lsm(d)) == d,
        kind_index(Program::Lsm(d)) == 16,
        program_data(Program::BtfTracePoint(d)) == d,
        kind_index(Program::BtfTracePoint(d)) == 17,
        program_data(Program::FEntry(d)) == d,
        kind_index(Program::FEntry(d)) == 18,
        program_data(Program::FExit(d)) == d,
        kind_index(Program::FExit(d)) == 19,
        program_data(Program::Extension(d)) == d,
        kind_index(Program::Extension(d)) == 20,
        program_data(Program::SkLookup(d)) == d,
        kind_index(Program::SkLookup(d)) == 21,
        program_data(Program::CgroupSock(d)) == d,
        kind_index(Program::CgroupSock(d)) == 22,
        program_data(Program::CgroupDevice(d)) == d,
        kind_index(Program::CgroupDevice(d)) == 23,
{
}

} // verus!
