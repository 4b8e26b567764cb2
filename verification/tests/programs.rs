use aya::data::{
    complete_load, load_program, obj_get_error, pin_program, pin_result, unload_program,
    LoadProgramAttrs, ProgramData, ProgramFd, ProgramObject,
};
use aya::error::{PinError, ProgramError, SyscallError};
use aya::info::{boot_time, loaded_links, loaded_programs, BpfLinkInfo, BpfProgInfo, ProgramInfo};
use aya::links::LinkMap;
use aya::program::Program;
use aya::prog_type::BpfProgType;
use aya::fdinfo::{fdinfo_line_is_readable, fdinfo_line_value, parse_u32};
use aya::kernel_version::kernel_version_code;
use aya::verifier_log::{next_log_buf_len, verifier_log_text};
use aya::query::{query_start, query_step, ProgQuery, QueryStep};

fn object(kernel_version: Option<u32>) -> ProgramObject {
    ProgramObject {
        license: String::from("GPL"),
        kernel_version,
        instructions: vec![0x95, 0xb7],
        func_info: vec![1, 2, 3],
        line_info: vec![4, 5],
        func_info_rec_size: 8,
        line_info_rec_size: 16,
    }
}

fn data(name: Option<&str>) -> ProgramData {
    ProgramData::new(name.map(|s| s.to_string()), object(Some(0x050400)), Some(7), 1)
}

fn raw_info() -> BpfProgInfo {
    let mut name = [0u8; 16];
    name[..4].copy_from_slice(b"prog");
    BpfProgInfo {
        type_: 6,
        id: 42,
        tag: [0x01, 0x02, 0x03, 0x04, 0x05, 0x06, 0x07, 0x08],
        jited_prog_len: 120,
        xlated_prog_len: 96,
        load_time: 1_000,
        nr_map_ids: 3,
        name,
        gpl_compatible: 1,
        btf_id: 0,
        attach_btf_obj_id: 0,
        attach_btf_id: 0,
        verified_insns: 11,
    }
}

fn loaded(name: Option<&str>, fd: i32) -> ProgramData {
    let mut d = data(name);
    load_program(BpfProgType::Xdp, &d, None).unwrap();
    complete_load(&mut d, Ok(ProgramFd(fd)), String::new()).unwrap();
    d
}

#[test]
fn prog_type_matches_kind() {
    assert_eq!(Program::KProbe(data(None)).prog_type(), BpfProgType::Kprobe);
    assert_eq!(Program::UProbe(data(None)).prog_type(), BpfProgType::Kprobe);
    assert_eq!(Program::FEntry(data(None)).prog_type(), BpfProgType::Tracing);
    assert_eq!(Program::FExit(data(None)).prog_type(), BpfProgType::Tracing);
    assert_eq!(Program::BtfTracePoint(data(None)).prog_type(), BpfProgType::Tracing);
    assert_eq!(Program::SchedClassifier(data(None)).prog_type(), BpfProgType::SchedCls);
    assert_eq!(Program::Extension(data(None)).prog_type(), BpfProgType::Ext);
    assert_eq!(Program::CgroupDevice(data(None)).prog_type(), BpfProgType::CgroupDevice);
}

#[test]
fn prog_type_codes() {
    assert_eq!(BpfProgType::Kprobe.code(), 2);
    assert_eq!(BpfProgType::Xdp.code(), 6);
    assert_eq!(BpfProgType::Tracing.code(), 26);
    assert_eq!(BpfProgType::Ext.code(), 28);
    assert_eq!(BpfProgType::Syscall.code(), 31);
}

#[test]
fn load_builds_attrs() {
    let d = data(Some("my_prog"));
    let a: LoadProgramAttrs = load_program(BpfProgType::Xdp, &d, Some(1)).unwrap();
    assert_eq!(a.name, Some(b"my_prog".to_vec()));
    assert_eq!(a.ty, BpfProgType::Xdp);
    assert_eq!(a.insns, vec![0x95, 0xb7]);
    assert_eq!(a.license, "GPL");
    assert_eq!(a.kernel_version, 0x050400);
    assert_eq!(a.prog_btf_fd, Some(7));
    assert_eq!(a.func_info, vec![1, 2, 3]);
    assert_eq!(a.line_info_rec_size, 16);
    assert_eq!(a.flags, 0);
}

#[test]
fn load_uses_running_kernel_when_object_has_none() {
    let d = ProgramData::new(None, object(None), None, 0);
    let a = load_program(BpfProgType::Kprobe, &d, Some(0x060100)).unwrap();
    assert_eq!(a.kernel_version, 0x060100);
    assert_eq!(a.name, None);
}

#[test]
fn load_truncates_long_names() {
    let d = data(Some("a_rather_long_program_name"));
    let a = load_program(BpfProgType::Xdp, &d, None).unwrap();
    assert_eq!(a.name, Some(b"a_rather_long_p".to_vec()));
    let d = data(Some("exactly_15_byte"));
    let a = load_program(BpfProgType::Xdp, &d, None).unwrap();
    assert_eq!(a.name, Some(b"exactly_15_byte".to_vec()));
}

#[test]
fn load_refuses_nul_in_name() {
    let d = data(Some("bad\0name"));
    assert_eq!(
        load_program(BpfProgType::Xdp, &d, None).unwrap_err(),
        ProgramError::InvalidName { name: "bad\0name".to_string() }
    );
    // A NUL past the 15th byte is cut off with the rest.
    let d = data(Some("fifteen_bytes_x\0tail"));
    assert!(load_program(BpfProgType::Xdp, &d, None).is_ok());
}

#[test]
fn load_refuses_loaded_program() {
    let d = loaded(None, 3);
    assert_eq!(load_program(BpfProgType::Xdp, &d, None).unwrap_err(), ProgramError::AlreadyLoaded);
}

#[test]
fn load_refuses_pinned_program() {
    let d = ProgramData::from_bpf_prog_info(None, ProgramFd(9), b"/sys/fs/bpf/p".to_vec(), raw_info(), 0, None).unwrap();
    assert!(d.obj.is_none());
    let mut d = d;
    unload_program(&mut d, Ok(())).unwrap();
    assert_eq!(load_program(BpfProgType::Xdp, &d, Some(1)).unwrap_err(), ProgramError::AlreadyLoaded);
}

#[test]
fn failed_load_keeps_program_unloaded() {
    let mut d = data(Some("p"));
    let r = complete_load(&mut d, Err(13), String::from("log line"));
    assert_eq!(r.unwrap_err(), ProgramError::LoadError { io_error: 13, verifier_log: String::from("log line") });
    assert!(d.fd.is_none());
    assert!(load_program(BpfProgType::Xdp, &d, None).is_ok());
}

#[test]
fn load_then_unload_roundtrip() {
    let mut d = loaded(Some("p"), 5);
    assert_eq!(d.fd(), Ok(&ProgramFd(5)));
    assert_eq!(unload_program(&mut d, Ok(())), Ok(ProgramFd(5)));
    assert!(d.fd.is_none());
    assert_eq!(d.fd(), Err(ProgramError::NotLoaded));
    assert!(load_program(BpfProgType::Xdp, &d, None).is_ok());
}

#[test]
fn unload_twice_is_not_loaded() {
    let mut d = loaded(None, 5);
    assert!(unload_program(&mut d, Ok(())).is_ok());
    assert_eq!(unload_program(&mut d, Ok(())), Err(ProgramError::NotLoaded));
}

#[test]
fn unload_detach_failure_keeps_fd_and_drops_links() {
    let mut d = loaded(None, 5);
    d.links.insert(1).unwrap();
    d.links.insert(2).unwrap();
    let e = ProgramError::SyscallError(SyscallError { call: "bpf_link_detach", io_error: 1 });
    assert_eq!(unload_program(&mut d, Err(e.clone())), Err(e));
    assert_eq!(d.fd, Some(ProgramFd(5)));
    assert!(d.links.ids().is_empty());
}

#[test]
fn program_unload_dispatch() {
    let p = Program::Xdp(loaded(None, 8));
    assert_eq!(p.unload(Ok(())), Ok(ProgramFd(8)));
    let p = Program::Lsm(data(None));
    assert_eq!(p.unload(Ok(())), Err(ProgramError::NotLoaded));
}

#[test]
fn take_link_and_link_map() {
    let mut d = data(None);
    assert_eq!(d.links.insert(10), Ok(10));
    assert_eq!(d.links.insert(10), Err(ProgramError::AlreadyAttached));
    assert_eq!(d.take_link(10), Ok(10));
    assert_eq!(d.take_link(10), Err(ProgramError::NotAttached));
    let mut m = LinkMap::new();
    m.insert(1).unwrap();
    m.insert(2).unwrap();
    assert!(m.contains(2));
    assert_eq!(m.forget(1), Ok(1));
    assert_eq!(m.ids(), vec![2]);
}

#[test]
fn pin_needs_a_descriptor() {
    let mut p = Program::TracePoint(data(Some("tp")));
    assert_eq!(p.pin(b"/sys/fs/bpf/tp".to_vec()).unwrap_err(), PinError::NoFd { name: "tp".to_string() });
    assert_eq!(p.data().path, Some(b"/sys/fs/bpf/tp".to_vec()));
    let d = data(None);
    assert_eq!(
        pin_program(&d, &b"/x".to_vec()).unwrap_err(),
        PinError::NoFd { name: "<unknown program>".to_string() }
    );
}

#[test]
fn pin_refuses_nul_in_path() {
    let mut p = Program::SocketFilter(loaded(None, 4));
    let path = b"/sys/fs/bpf/a\0b".to_vec();
    assert_eq!(p.pin(path.clone()).unwrap_err(), PinError::InvalidPinPath { path, nul_position: 13 });
}

#[test]
fn pin_builds_request() {
    let mut p = Program::SocketFilter(loaded(None, 4));
    let req = p.pin(b"/sys/fs/bpf/sf".to_vec()).unwrap();
    assert_eq!(req.fd, 4);
    assert_eq!(req.path, b"/sys/fs/bpf/sf".to_vec());
    assert_eq!(pin_result(Ok(())), Ok(()));
    assert_eq!(
        pin_result(Err(1)),
        Err(PinError::SyscallError(SyscallError { call: "BPF_OBJ_PIN", io_error: 1 }))
    );
}

#[test]
fn unpin_returns_path() {
    let mut d = loaded(None, 4);
    let _ = d.pin(b"/p".to_vec());
    assert_eq!(d.unpin(), Some(b"/p".to_vec()));
    assert_eq!(d.unpin(), None);
}

#[test]
fn info_needs_loaded_program() {
    let p = Program::KProbe(data(None));
    assert_eq!(p.info(Ok(raw_info())).unwrap_err(), ProgramError::NotLoaded);
    let p = Program::KProbe(loaded(None, 3));
    assert_eq!(p.info(Ok(raw_info())).unwrap().id(), 42);
    let e = SyscallError { call: "bpf_prog_get_info_by_fd", io_error: 9 };
    assert_eq!(p.info(Err(e)).unwrap_err(), ProgramError::SyscallError(e));
    assert_eq!(p.fd(), Ok(&ProgramFd(3)));
}

#[test]
fn info_getters() {
    let info = ProgramInfo(raw_info());
    assert_eq!(info.name(), b"prog");
    assert_eq!(info.name_as_str(), Some("prog"));
    assert_eq!(info.id(), 42);
    assert_eq!(info.tag(), 0x0102030405060708);
    assert_eq!(info.program_type(), 6);
    assert!(info.gpl_compatible());
    assert_eq!(info.btf_id(), None);
    assert_eq!(info.size_translated(), 96);
    assert_eq!(info.size_jitted(), 120);
    assert_eq!(info.verified_instruction_count(), 11);
    assert_eq!(info.map_ids_buffer(), vec![0, 0, 0]);
    let t = info.loaded_at(boot_time(5_000, 2_000));
    assert_eq!(t.nanos_since_epoch, 4_000);
}

#[test]
fn info_name_edges() {
    let mut raw = raw_info();
    raw.name = [0u8; 16];
    assert_eq!(ProgramInfo(raw).name(), b"");
    assert_eq!(ProgramInfo(raw).name_as_str(), Some(""));
    raw.name = [b'x'; 16];
    assert_eq!(ProgramInfo(raw).name().len(), 16);
    raw.name = [0u8; 16];
    raw.name[0] = b'a';
    raw.name[2] = b'b';
    assert_eq!(ProgramInfo(raw).name(), b"a\0b");
    raw.name[0] = 0xff;
    assert_eq!(ProgramInfo(raw).name_as_str(), None);
    raw.btf_id = 17;
    raw.gpl_compatible = 0;
    assert_eq!(ProgramInfo(raw).btf_id(), Some(17));
    assert!(!ProgramInfo(raw).gpl_compatible());
}

#[test]
fn from_pinned_path_names_program() {
    let mut raw = raw_info();
    raw.attach_btf_id = 5;
    raw.attach_btf_obj_id = 2;
    let d = ProgramData::from_pinned_path(b"/sys/fs/bpf/p".to_vec(), 0, ProgramFd(3), ProgramInfo(raw), Some(Ok(11))).unwrap();
    assert_eq!(d.name, Some("prog".to_string()));
    assert_eq!(d.attach_btf_id, Some(5));
    assert_eq!(d.attach_btf_obj_fd, Some(11));
    assert_eq!(d.fd, Some(ProgramFd(3)));
    let e = SyscallError { call: "bpf_btf_get_fd_by_id", io_error: 2 };
    assert_eq!(
        ProgramData::from_pinned_path(b"/p".to_vec(), 0, ProgramFd(3), ProgramInfo(raw), Some(Err(e))).unwrap_err(),
        ProgramError::SyscallError(e)
    );
    assert_eq!(obj_get_error(2), ProgramError::SyscallError(SyscallError { call: "bpf_obj_get", io_error: 2 }));
}

#[test]
fn query_succeeds_first_time() {
    let mut q = query_start();
    assert_eq!(q.prog_ids.len(), 64);
    assert_eq!(q.prog_cnt, 64);
    q.prog_ids[0] = 7;
    q.prog_ids[1] = 9;
    q.prog_cnt = 2;
    match query_step(q, Ok(())) {
        QueryStep::Done(ids) => assert_eq!(ids, vec![7, 9]),
        other => panic!("unexpected {:?}", other),
    }
}

#[test]
fn query_retries_once_on_enospc() {
    let mut q = query_start();
    q.prog_cnt = 100;
    let q: ProgQuery = match query_step(q, Err(28)) {
        QueryStep::Retry(n) => n,
        other => panic!("unexpected {:?}", other),
    };
    assert_eq!(q.prog_ids.len(), 100);
    assert_eq!(q.retries, 1);
    match query_step(q, Err(28)) {
        QueryStep::Failed(e) => assert_eq!(
            e,
            ProgramError::SyscallError(SyscallError { call: "bpf_prog_query", io_error: 28 })
        ),
        other => panic!("unexpected {:?}", other),
    }
}

#[test]
fn query_other_error_fails() {
    match query_step(query_start(), Err(1)) {
        QueryStep::Failed(e) => assert_eq!(
            e,
            ProgramError::SyscallError(SyscallError { call: "bpf_prog_query", io_error: 1 })
        ),
        other => panic!("unexpected {:?}", other),
    }
}

#[test]
fn listings_map_errors() {
    let e = SyscallError { call: "bpf_prog_get_fd_by_id", io_error: 2 };
    let r = loaded_programs(vec![Ok(raw_info()), Err(e)]);
    assert_eq!(r.len(), 2);
    assert_eq!(r[0].as_ref().unwrap().id(), 42);
    assert_eq!(r[1].as_ref().unwrap_err(), &ProgramError::SyscallError(e));
    let l = BpfLinkInfo { type_: 1, id: 3, prog_id: 42 };
    assert_eq!(loaded_links(vec![Ok(l), Err(e)]), vec![Ok(l), Err(ProgramError::SyscallError(e))]);
}

#[test]
fn verifier_log_buffer_growth() {
    assert_eq!(next_log_buf_len(0, 10, 0, Some(1)), Some(10240));
    assert_eq!(next_log_buf_len(1, 10, 10240, Some(28)), Some(102400));
    assert_eq!(next_log_buf_len(1, 10, 10240, Some(13)), None);
    assert_eq!(next_log_buf_len(10, 10, 10240, Some(28)), None);
    assert_eq!(next_log_buf_len(0, 10, 0, None), None);
    assert_eq!(next_log_buf_len(3, 10, 10_000_000, Some(28)), Some(16777215));
}

#[test]
fn verifier_log_text_stops_at_nul() {
    assert_eq!(verifier_log_text(b"abc\0def"), b"abc");
    assert_eq!(verifier_log_text(b"abc"), b"abc");
    assert_eq!(verifier_log_text(b"\0"), b"");
}

#[test]
fn fdinfo_lines() {
    assert_eq!(fdinfo_line_value(b"memlock:\t4096", b"memlock"), Some(4096));
    assert_eq!(fdinfo_line_value(b"pos:\t0", b"memlock"), None);
    assert_eq!(fdinfo_line_value(b"memlock:\t+12", b"memlock"), Some(12));
    assert_eq!(fdinfo_line_value(b"a\tb\t7", b"a"), Some(7));
    assert!(fdinfo_line_is_readable(b"pos:\t0", b"memlock"));
    assert!(!fdinfo_line_is_readable(b"memlock: 4096", b"memlock"));
    assert!(!fdinfo_line_is_readable(b"memlock:\t4294967296", b"memlock"));
    assert!(!fdinfo_line_is_readable(b"memlock:\t", b"memlock"));
    assert!(!fdinfo_line_is_readable(b"memlock:\t-1", b"memlock"));
    assert!(fdinfo_line_is_readable(b"memlock:\t4294967295", b"memlock"));
    assert_eq!(parse_u32(b"4294967295"), Some(u32::MAX));
    assert_eq!(parse_u32(b"+"), None);
    assert_eq!(parse_u32(b""), None);
    assert_eq!(parse_u32(b"12a"), None);
}

#[test]
fn kernel_version_codes() {
    assert_eq!(kernel_version_code(5, 4, 0), 0x050400);
    assert_eq!(kernel_version_code(6, 1, 57), 0x060139);
    assert_eq!(kernel_version_code(4, 19, 300), 0x0413ff);
}

#[test]
fn program_fd_over_its_life() {
    let mut d = data(Some("p"));
    assert_eq!(Program::Xdp(ProgramData::new(None, object(None), None, 0)).fd(), Err(ProgramError::NotLoaded));
    load_program(BpfProgType::Xdp, &d, None).unwrap();
    assert!(complete_load(&mut d, Err(1), String::new()).is_err());
    assert_eq!(d.fd(), Err(ProgramError::NotLoaded));
    complete_load(&mut d, Ok(ProgramFd(12)), String::new()).unwrap();
    let mut p = Program::Xdp(d);
    assert_eq!(p.fd(), Ok(&ProgramFd(12)));
    let _ = p.pin(b"/p".to_vec());
    assert_eq!(p.fd(), Ok(&ProgramFd(12)));
    assert_eq!(p.unload(Ok(())), Ok(ProgramFd(12)));
}

#[test]
fn pin_keeps_settings() {
    let mut d = loaded(Some("p"), 4);
    d.flags = 3;
    d.expected_attach_type = Some(9);
    let _ = d.pin(b"/p".to_vec());
    assert_eq!(d.flags, 3);
    assert_eq!(d.expected_attach_type, Some(9));
    assert_eq!(d.btf_fd, Some(7));
    assert_eq!(d.verifier_log_level, 1);
    assert_eq!(d.unpin(), Some(b"/p".to_vec()));
    assert_eq!(d.flags, 3);
}
