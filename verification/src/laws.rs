use vstd::prelude::*;
use crate::data::{
    info_outcome, kernel_name_bytes, link_taken, load_attrs_match, load_completed, load_pending,
    loadable, max_name_len, pinned, same_settings, same_settings_but_path, unload_result, str_bytes, unknown_program_name, unloaded,
    LoadProgramAttrs, PinRequest, ProgramData, ProgramFd,
};
use crate::bytes::{first_nul, nul_free};
use crate::error::{PinError, SyscallError};
use crate::info::{BpfProgInfo, ProgramInfo};
use crate::prog_type::BpfProgType;
use crate::error::ProgramError;
use crate::program::{fd_answer, kind_index, program_data, Program};

verus! {

/// A program whose load succeeded is not loaded again: `load_program`
/// refuses it with `AlreadyLoaded`.
pub proof fn lemma_loaded_program_refuses_load(
    d0: ProgramData,
    d1: ProgramData,
    f: ProgramFd,
    log: String,
    r: Result<(), ProgramError>,
)
    requires
        load_pending(d0),
        load_completed(d0, d1, Ok(f), log, r),
    ensures
        !load_pending(d1),
{
}

/// A failed load leaves the program as it was, ready to be loaded again.
pub proof fn lemma_failed_load_can_be_retried(
    d0: ProgramData,
    d1: ProgramData,
    e: i32,
    log: String,
    r: Result<(), ProgramError>,
)
    requires
        load_pending(d0),
        load_completed(d0, d1, Err(e), log, r),
    ensures
        load_pending(d1),
        same_settings(d0, d1),
{
}

/// Loading and then unloading a program (its links detached) hands back the
/// descriptor the kernel gave, and leaves the program unloaded, with no
/// links and its settings untouched, so that it can be loaded again.
pub proof fn lemma_load_then_unload(
    d0: ProgramData,
    d1: ProgramData,
    d2: ProgramData,
    f: ProgramFd,
    log: String,
    r1: Result<(), ProgramError>,
    r2: Result<ProgramFd, ProgramError>,
)
    requires
        load_pending(d0),
        load_completed(d0, d1, Ok(f), log, r1),
        unloaded(d1, d2, Ok(()), r2),
    ensures
        r1 is Ok,
        r2 == Ok::<ProgramFd, ProgramError>(f),
        d2.fd is None,
        d2.links@ == Set::<u64>::empty(),
        same_settings(d0, d2),
        load_pending(d2),
{
}

/// Unloading twice: the second time there is nothing to release, and the
/// answer is `NotLoaded`.
pub proof fn lemma_unload_twice(
    d0: ProgramData,
    d1: ProgramData,
    d2: ProgramData,
    r1: Result<ProgramFd, ProgramError>,
    r2: Result<ProgramFd, ProgramError>,
)
    requires
        unloaded(d0, d1, Ok(()), r1),
        unloaded(d1, d2, Ok(()), r2),
    ensures
        r2 == Err::<ProgramFd, ProgramError>(ProgramError::NotLoaded),
        d2.fd is None,
{
}

/// The name handed to the kernel is at most 15 bytes long and is the start of
/// the program's name; a name of at most 15 bytes is handed over whole.
pub proof fn lemma_kernel_name_is_prefix(name: String)
    ensures
        kernel_name_bytes(name).len() <= max_name_len(),
        kernel_name_bytes(name) =~= str_bytes(name).take(kernel_name_bytes(name).len() as int),
        str_bytes(name).len() <= max_name_len() ==> kernel_name_bytes(name) == str_bytes(name),
{
}

/// A link taken from a program is not detached when the program is
/// unloaded: it is no longer among the program's links, and taking it a
/// second time gives `NotAttached`.
pub proof fn lemma_taken_link_is_not_detached(
    d0: ProgramData,
    d1: ProgramData,
    d2: ProgramData,
    link_id: u64,
    r1: Result<u64, ProgramError>,
    r2: Result<u64, ProgramError>,
)
    requires
        d0.links@.contains(link_id),
        link_taken(d0, d1, link_id, r1),
        link_taken(d1, d2, link_id, r2),
    ensures
        r1 == Ok::<u64, ProgramError>(link_id),
        !d1.links@.contains(link_id),
        r2 == Err::<u64, ProgramError>(ProgramError::NotAttached),
{
}

/// One step in the life of a program, as far as its descriptor goes.
pub enum FdEvent {
    /// A load that the kernel accepted, giving this descriptor.
    Loaded(ProgramFd),
    /// A load that the kernel refused.
    LoadFailed,
    /// An unload whose links were detached.
    Unloaded,
    /// Anything that leaves the descriptor alone: pinning, unpinning, taking
    /// a link, a load refused before the kernel was asked, an unload whose
    /// detach failed.
    Other,
}

/// `p1` is `p0` after `ev`: the same kind of program, its data changed as
/// the step's contract says.
pub open spec fn fd_step(p0: Program, p1: Program, ev: FdEvent) -> bool {
    let d0 = program_data(p0);
    let d1 = program_data(p1);
    &&& kind_index(p1) == kind_index(p0)
    &&& match ev {
        FdEvent::Loaded(k) => load_pending(d0) && exists|log: String, r: Result<(), ProgramError>|
            load_completed(d0, d1, Ok(k), log, r),
        FdEvent::LoadFailed => load_pending(d0) && exists|
            e: i32,
            log: String,
            r: Result<(), ProgramError>,
        | load_completed(d0, d1, Err(e), log, r),
        FdEvent::Unloaded => exists|r: Result<ProgramFd, ProgramError>|
            unloaded(d0, d1, Ok(()), r),
        FdEvent::Other => d1.fd == d0.fd,
    }
}

/// The descriptor a program holds after `evs`, starting unloaded: the one
/// given by the last accepted load, unless an unload came after it.
pub open spec fn fd_after(evs: Seq<FdEvent>) -> Option<ProgramFd>
    decreases evs.len(),
{
    if evs.len() == 0 {
        None
    } else {
        match evs.last() {
            FdEvent::Loaded(k) => Some(k),
            FdEvent::Unloaded => None,
            _ => fd_after(evs.drop_last()),
        }
    }
}

/// Over a program's life, starting from one that is not loaded (as
/// `ProgramData::new` builds it): `Program::fd` gives the descriptor of the
/// last accepted load when no unload came after it, and `NotLoaded` before
/// any accepted load or after an unload. Failed loads change nothing.
pub proof fn lemma_program_fd_over_its_life(ps: Seq<Program>, evs: Seq<FdEvent>)
    requires
        ps.len() == evs.len() + 1,
        program_data(ps[0]).fd is None,
        forall|i: int| 0 <= i < evs.len() ==> fd_step(ps[i], ps[i + 1], #[trigger] evs[i]),
    ensures
        fd_answer(ps.last()) == (match fd_after(evs) {
            Some(k) => Ok::<ProgramFd, ProgramError>(k),
            None => Err::<ProgramFd, ProgramError>(ProgramError::NotLoaded),
        }),
    decreases evs.len(),
{
    if evs.len() > 0 {
        let n = evs.len() - 1;
        assert(fd_step(ps[n], ps[n + 1], evs[n]));
        lemma_program_fd_over_its_life(ps.drop_last(), evs.drop_last());
        assert(ps.drop_last().last() == ps[n]);
        assert(ps.last() == ps[n + 1]);
    }
}

/// The settings of `b` are those of `a`, field by field.
pub open spec fn settings_equal(a: ProgramData, b: ProgramData) -> bool {
    &&& b.name == a.name
    &&& b.obj == a.obj
    &&& b.expected_attach_type == a.expected_attach_type
    &&& b.attach_btf_obj_fd == a.attach_btf_obj_fd
    &&& b.attach_btf_id == a.attach_btf_id
    &&& b.attach_prog_fd == a.attach_prog_fd
    &&& b.btf_fd == a.btf_fd
    &&& b.verifier_log_level == a.verifier_log_level
    &&& b.flags == a.flags
}

/// A program waits for the kernel's answer to a load exactly when it has no
/// descriptor and was built from an object file.
pub proof fn lemma_load_pending_means(d: ProgramData)
    ensures
        load_pending(d) <==> (d.fd is None && d.obj is Some),
{
}

/// The load request carries the program's settings unchanged: the program
/// type asked for, the object's instructions, license, BTF line and function
/// info, the object's kernel version (or else the running kernel's), and the
/// program's attach type, attach BTF object and id, attach program, BTF
/// descriptor and flags. The name is the program's name cut to 15 bytes.
pub proof fn lemma_load_request_fields(
    a: LoadProgramAttrs,
    prog_type: BpfProgType,
    d: ProgramData,
    current_kernel: Option<u32>,
)
    requires
        loadable(d, current_kernel),
        load_pending(d),
        load_attrs_match(a, prog_type, d, current_kernel),
    ensures
        a.ty == prog_type,
        a.insns@ == d.obj.unwrap().instructions@,
        a.license@ == d.obj.unwrap().license@,
        d.obj.unwrap().kernel_version matches Some(v) ==> a.kernel_version == v,
        d.obj.unwrap().kernel_version is None ==> current_kernel == Some(a.kernel_version),
        a.expected_attach_type == d.expected_attach_type,
        a.prog_btf_fd == d.btf_fd,
        a.attach_btf_obj_fd == d.attach_btf_obj_fd,
        a.attach_btf_id == d.attach_btf_id,
        d.attach_prog_fd matches Some(f) ==> a.attach_prog_fd == Some(f.0),
        d.attach_prog_fd is None ==> a.attach_prog_fd is None,
        a.func_info_rec_size == d.obj.unwrap().func_info_rec_size,
        a.func_info@ == d.obj.unwrap().func_info@,
        a.line_info_rec_size == d.obj.unwrap().line_info_rec_size,
        a.line_info@ == d.obj.unwrap().line_info@,
        a.flags == d.flags,
        d.name is None ==> a.name is None,
        d.name matches Some(nm) ==> (a.name matches Some(n) && n@.len() <= 15 && n@
            == str_bytes(nm).take(n@.len() as int) && (str_bytes(nm).len() <= 15 ==> n@
            == str_bytes(nm)) && (str_bytes(nm).len() > 15 ==> n@.len() == 15)),
{
}

/// Asking for a loaded program's information hands back the kernel's
/// `bpf_prog_info` unchanged, every field as the kernel reported it; a failed
/// call comes back as that syscall error, and a program that is not loaded
/// gets `NotLoaded`.
pub proof fn lemma_info_is_the_kernels(
    d: ProgramData,
    fetched: Result<BpfProgInfo, SyscallError>,
    r: Result<ProgramInfo, ProgramError>,
)
    requires
        info_outcome(d, fetched, r),
    ensures
        d.fd is None ==> r == Err::<ProgramInfo, ProgramError>(ProgramError::NotLoaded),
        d.fd is Some && fetched is Ok ==> (r matches Ok(pi) && pi.0 == fetched.unwrap()
            && pi.0.jited_prog_len == fetched.unwrap().jited_prog_len && pi.0.xlated_prog_len
            == fetched.unwrap().xlated_prog_len && pi.0.id == fetched.unwrap().id && pi.0.name
            == fetched.unwrap().name && pi.0.tag == fetched.unwrap().tag),
        fetched matches Err(e) ==> (d.fd is Some ==> r == Err::<ProgramInfo, ProgramError>(
            ProgramError::SyscallError(e),
        )),
{
}

/// Pinning records the path whatever comes next and changes nothing else. A
/// loaded program at a NUL-free path always gets the `BPF_OBJ_PIN` request
/// for its own descriptor and that path, whatever its name. `NoFd` comes
/// exactly when the program has no descriptor, and `InvalidPinPath` only for
/// a path with a NUL byte, at its first NUL.
pub proof fn lemma_pin_outcome(
    d0: ProgramData,
    d1: ProgramData,
    path: Seq<u8>,
    r: Result<PinRequest, PinError>,
)
    requires
        pinned(d0, d1, path, r),
    ensures
        d1.path matches Some(p) && p@ == path,
        settings_equal(d0, d1),
        d1.fd == d0.fd,
        d1.links == d0.links,
        (r matches Err(PinError::NoFd { .. })) <==> d0.fd is None,
        d0.fd is None ==> (r matches Err(PinError::NoFd { name }) && (d0.name matches Some(n)
            ==> name@ == n@) && (d0.name is None ==> name@ == "<unknown program>"@)),
        d0.fd is Some && nul_free(path) ==> (r matches Ok(req) && req.fd == d0.fd.unwrap().0
            && req.path@ == path),
        r is Ok ==> d0.fd is Some && nul_free(path),
{
}

/// A pin path is refused only when it holds a NUL byte, and the refusal
/// points at the first one.
pub proof fn lemma_pin_invalid_path(
    d0: ProgramData,
    d1: ProgramData,
    path: Seq<u8>,
    r: Result<PinRequest, PinError>,
)
    requires
        pinned(d0, d1, path, r),
        r matches Err(PinError::InvalidPinPath { .. }),
    ensures
        d0.fd is Some,
        !nul_free(path),
        r matches Err(PinError::InvalidPinPath { path: p, nul_position }) && p@ == path
            && nul_position < path.len() && path[nul_position as int] == 0u8 && nul_free(
            path.take(nul_position as int),
        ),
{
    crate::bytes::lemma_first_nul(path);
}

/// The name reported for a program without one is `<unknown program>`.
pub proof fn lemma_unknown_program_name()
    ensures
        unknown_program_name() == "<unknown program>"@,
{
}

/// Unloading drops every link. When the detach went well, a loaded program
/// gives back its descriptor and is left without one, and a program that was
/// not loaded gets `NotLoaded`; when it failed, its error comes back and the
/// descriptor stays. The settings do not change.
pub proof fn lemma_unload_outcome(
    d0: ProgramData,
    d1: ProgramData,
    detached: Result<(), ProgramError>,
    r: Result<ProgramFd, ProgramError>,
)
    requires
        unloaded(d0, d1, detached, r),
    ensures
        d1.links@ == Set::<u64>::empty(),
        settings_equal(d0, d1),
        detached is Ok && d0.fd is Some ==> r == Ok::<ProgramFd, ProgramError>(d0.fd.unwrap())
            && d1.fd is None,
        detached is Ok && d0.fd is None ==> r == Err::<ProgramFd, ProgramError>(
            ProgramError::NotLoaded,
        ) && d1.fd is None,
        detached matches Err(e) ==> r == Err::<ProgramFd, ProgramError>(e) && d1.fd == d0.fd,
{
}

/// Taking in the kernel's answer to a load: an accepted load leaves the
/// program holding exactly the new descriptor; a refused one leaves it as it
/// was and reports the OS error with the verifier's log. Settings and links
/// do not change.
pub proof fn lemma_load_completion(
    d0: ProgramData,
    d1: ProgramData,
    outcome: Result<ProgramFd, i32>,
    log: String,
    r: Result<(), ProgramError>,
)
    requires
        load_completed(d0, d1, outcome, log, r),
    ensures
        settings_equal(d0, d1),
        d1.links == d0.links,
        outcome matches Ok(f) ==> r is Ok && d1.fd == Some(f),
        outcome matches Err(e) ==> r == Err::<(), ProgramError>(
            ProgramError::LoadError { io_error: e, verifier_log: log },
        ) && d1.fd == d0.fd,
{
}

/// Taking a link removes exactly that link and hands it back, or reports
/// `NotAttached` and changes nothing; settings and descriptor stay.
pub proof fn lemma_take_link_outcome(
    d0: ProgramData,
    d1: ProgramData,
    link_id: u64,
    r: Result<u64, ProgramError>,
)
    requires
        link_taken(d0, d1, link_id, r),
    ensures
        settings_equal(d0, d1),
        d1.fd == d0.fd,
        d0.links@.contains(link_id) ==> r == Ok::<u64, ProgramError>(link_id)
            && !d1.links@.contains(link_id) && forall|x: u64|
            x != link_id ==> (d1.links@.contains(x) <==> d0.links@.contains(x)),
        !d0.links@.contains(link_id) ==> r == Err::<u64, ProgramError>(ProgramError::NotAttached)
            && d1.links@ == d0.links@,
{
}

/// `Program::fd` answers with the descriptor of a loaded program, and with
/// `NotLoaded` for one that has none.
pub proof fn lemma_fd_answer(p: Program)
    ensures
        program_data(p).fd matches Some(f) ==> fd_answer(p) == Ok::<ProgramFd, ProgramError>(f),
        program_data(p).fd is None ==> fd_answer(p) == Err::<ProgramFd, ProgramError>(
            ProgramError::NotLoaded,
        ),
{
}

/// Keeping the settings means keeping each one of them: name, object, attach
/// type, attach BTF object and id, attach program, BTF descriptor, verifier
/// log level and flags (and, unless the pin path is exempt, the pin path).
pub proof fn lemma_settings_kept(a: ProgramData, b: ProgramData)
    ensures
        same_settings_but_path(a, b) ==> settings_equal(a, b),
        same_settings(a, b) ==> settings_equal(a, b) && b.path == a.path,
{
}

/// What unloading answers: the detach error when there was one, else the
/// released descriptor, or `NotLoaded` when there was none.
pub proof fn lemma_unload_result(d: ProgramData, detached: Result<(), ProgramError>)
    ensures
        detached matches Err(e) ==> unload_result(d, detached) == Err::<ProgramFd, ProgramError>(e),
        detached is Ok && d.fd is Some ==> unload_result(d, detached) == Ok::<
            ProgramFd,
            ProgramError,
        >(d.fd.unwrap()),
        detached is Ok && d.fd is None ==> unload_result(d, detached) == Err::<
            ProgramFd,
            ProgramError,
        >(ProgramError::NotLoaded),
{
}

} // verus!
