use vstd::prelude::*;
use vstd::utf8::{encode_utf8, is_char_boundary, valid_utf8};
use vstd::string::StringSliceAdditionalSpecFns;
use crate::bytes::{find_nul, nul_free, first_nul, trimmed_len};
use crate::error::{PinError, ProgramError, SyscallError};
use crate::info::{BpfProgInfo, ProgramInfo};
use crate::links::LinkMap;
use crate::prog_type::BpfProgType;

verus! {

/// A program file descriptor, by its number.
#[derive(Debug, PartialEq, Eq, Structural)]
pub struct ProgramFd(pub i32);

impl ProgramFd {
    /// The descriptor number.
    pub fn as_raw(&self) -> (r: i32)
        ensures
            r == self.0,
    {
        self.0
    }
}

/// What an object file holds for one program: its section and its function.
#[derive(Debug)]
pub struct ProgramObject {
    pub license: String,
    pub kernel_version: Option<u32>,
    /// The encoded instructions, one `bpf_insn` each.
    pub instructions: Vec<u64>,
    pub func_info: Vec<u8>,
    pub line_info: Vec<u8>,
    pub func_info_rec_size: usize,
    pub line_info_rec_size: usize,
}

/// The attributes of a `BPF_PROG_LOAD` request.
#[derive(Debug)]
pub struct LoadProgramAttrs {
    /// The program name handed to the kernel, without its terminating NUL.
    pub name: Option<Vec<u8>>,
    pub ty: BpfProgType,
    pub insns: Vec<u64>,
    pub license: String,
    pub kernel_version: u32,
    pub expected_attach_type: Option<u32>,
    pub prog_btf_fd: Option<i32>,
    pub attach_btf_obj_fd: Option<i32>,
    pub attach_btf_id: Option<u32>,
    pub attach_prog_fd: Option<i32>,
    pub func_info_rec_size: usize,
    pub func_info: Vec<u8>,
    pub line_info_rec_size: usize,
    pub line_info: Vec<u8>,
    pub flags: u32,
}

/// A `BPF_OBJ_PIN` request: the descriptor to pin and the NUL-free path bytes.
#[derive(Debug)]
pub struct PinRequest {
    pub fd: i32,
    pub path: Vec<u8>,
}

/// The state of one program: what it was built from and what the kernel gave back.
#[derive(Debug)]
pub struct ProgramData {
    pub name: Option<String>,
    pub obj: Option<ProgramObject>,
    pub fd: Option<ProgramFd>,
    pub links: LinkMap,
    pub expected_attach_type: Option<u32>,
    pub attach_btf_obj_fd: Option<i32>,
    pub attach_btf_id: Option<u32>,
    pub attach_prog_fd: Option<ProgramFd>,
    pub btf_fd: Option<i32>,
    pub verifier_log_level: u32,
    pub path: Option<Vec<u8>>,
    pub flags: u32,
}

/// The longest program name the kernel keeps, not counting the NUL.
pub open spec fn max_name_len() -> nat {
    15
}

/// The bytes of a string.
pub open spec fn str_bytes(s: String) -> Seq<u8> {
    encode_utf8(s@)
}

/// The bytes of the name handed to the kernel: the first 15 bytes of the name.
pub open spec fn kernel_name_bytes(name: String) -> Seq<u8> {
    if str_bytes(name).len() > max_name_len() {
        str_bytes(name).take(max_name_len() as int)
    } else {
        str_bytes(name)
    }
}

/// The name can be cut to 15 bytes without splitting a character.
pub open spec fn name_truncatable(name: String) -> bool {
    str_bytes(name).len() > max_name_len() ==> is_char_boundary(
        str_bytes(name),
        max_name_len() as int,
    )
}

/// Everything but the links, the descriptor and the pin path is the same in both.
pub open spec fn same_settings_but_path(a: ProgramData, b: ProgramData) -> bool {
    &&& a.name == b.name
    &&& a.obj == b.obj
    &&& a.expected_attach_type == b.expected_attach_type
    &&& a.attach_btf_obj_fd == b.attach_btf_obj_fd
    &&& a.attach_btf_id == b.attach_btf_id
    &&& a.attach_prog_fd == b.attach_prog_fd
    &&& a.btf_fd == b.btf_fd
    &&& a.verifier_log_level == b.verifier_log_level
    &&& a.flags == b.flags
}

/// Everything but the links and the descriptor is the same in both.
pub open spec fn same_settings(a: ProgramData, b: ProgramData) -> bool {
    &&& a.name == b.name
    &&& a.obj == b.obj
    &&& a.expected_attach_type == b.expected_attach_type
    &&& a.attach_btf_obj_fd == b.attach_btf_obj_fd
    &&& a.attach_btf_id == b.attach_btf_id
    &&& a.attach_prog_fd == b.attach_prog_fd
    &&& a.btf_fd == b.btf_fd
    &&& a.verifier_log_level == b.verifier_log_level
    &&& a.path == b.path
    &&& a.flags == b.flags
}

/// The kernel's answer to `BPF_PROG_LOAD` can be taken in: a program that
/// is not loaded yet and was built from an object file.
pub open spec fn load_pending(d: ProgramData) -> bool {
    d.fd is None && d.obj is Some
}

/// What `load_program` requires of the data: the kernel version is known
/// one way or the other, and the name can be cut to 15 bytes.
pub open spec fn loadable(d: ProgramData, current_kernel: Option<u32>) -> bool {
    load_pending(d) ==> {
        &&& (d.obj.unwrap().kernel_version is Some || current_kernel is Some)
        &&& (d.name matches Some(n) ==> name_truncatable(n))
    }
}

/// The outcome of `take_link`: the link leaves the program's links and
/// comes back, or `NotAttached` when it was not there; nothing else changes.
pub open spec fn link_taken(d0: ProgramData, d1: ProgramData, link_id: u64, r: Result<u64, ProgramError>) -> bool {
    &&& d1.wf()
    &&& same_settings(d0, d1)
    &&& d1.fd == d0.fd
    &&& d0.links@.contains(link_id) ==> r == Ok::<u64, ProgramError>(link_id)
        && d1.links@ == d0.links@.remove(link_id)
    &&& !d0.links@.contains(link_id) ==> r == Err::<u64, ProgramError>(ProgramError::NotAttached)
        && d1.links@ == d0.links@
}

impl ProgramData {
    /// Well-formedness: the link map holds no link twice.
    pub open spec fn wf(&self) -> bool {
        self.links.wf()
    }

    /// Whether the program is loaded in the kernel.
    pub open spec fn is_loaded(&self) -> bool {
        self.fd is Some
    }

    /// A program built from an object file, not loaded yet.
    pub fn new(
        name: Option<String>,
        obj: ProgramObject,
        btf_fd: Option<i32>,
        verifier_log_level: u32,
    ) -> (d: ProgramData)
        ensures
            d.wf(),
            d.name == name,
            d.obj == Some(obj),
            d.fd is None,
            d.links@ == Set::<u64>::empty(),
            d.expected_attach_type is None,
            d.attach_btf_obj_fd is None,
            d.attach_btf_id is None,
            d.attach_prog_fd is None,
            d.btf_fd == btf_fd,
            d.verifier_log_level == verifier_log_level,
            d.path is None,
            d.flags == 0,
    {
        ProgramData {
            name,
            obj: Some(obj),
            fd: None,
            links: LinkMap::new(),
            expected_attach_type: None,
            attach_btf_obj_fd: None,
            attach_btf_id: None,
            attach_prog_fd: None,
            btf_fd,
            verifier_log_level,
            path: None,
            flags: 0,
        }
    }

    /// A program that is already loaded, known from the kernel's
    /// `bpf_prog_info` about it. `attach_btf_obj_fd` is the kernel's answer to
    /// `BPF_BTF_GET_FD_BY_ID` for the info's `attach_btf_obj_id`; it is asked
    /// for exactly when that id is not 0.
    pub fn from_bpf_prog_info(
        name: Option<String>,
        fd: ProgramFd,
        path: Vec<u8>,
        info: BpfProgInfo,
        verifier_log_level: u32,
        attach_btf_obj_fd: Option<Result<i32, SyscallError>>,
    ) -> (r: Result<ProgramData, ProgramError>)
        requires
            attach_btf_obj_fd is Some <==> info.attach_btf_obj_id != 0,
        ensures
            attach_btf_obj_fd matches Some(Err(e)) ==> r == Err::<ProgramData, ProgramError>(
                ProgramError::SyscallError(e),
            ),
            !(attach_btf_obj_fd matches Some(Err(_))) ==> r is Ok,
            r matches Ok(d) ==> {
                &&& d.wf()
                &&& d.name == name
                &&& d.obj is None
                &&& d.fd == Some(fd)
                &&& d.links@ == Set::<u64>::empty()
                &&& d.expected_attach_type is None
                &&& d.attach_btf_obj_fd == (match attach_btf_obj_fd {
                    Some(Ok(f)) => Some(f),
                    _ => None::<i32>,
                })
                &&& d.attach_btf_id == (if info.attach_btf_id > 0 {
                    Some(info.attach_btf_id)
                } else {
                    None
                })
                &&& d.attach_prog_fd is None
                &&& d.btf_fd is None
                &&& d.verifier_log_level == verifier_log_level
                &&& d.path == Some(path)
                &&& d.flags == 0
            },
    {
        let attach_btf_id = if info.attach_btf_id > 0 {
            Some(info.attach_btf_id)
        } else {
            None
        };
        let attach_btf_obj_fd = match attach_btf_obj_fd {
            None => None,
            Some(Ok(f)) => Some(f),
            Some(Err(e)) => return Err(ProgramError::SyscallError(e)),
        };
        Ok(ProgramData {
            name,
            obj: None,
            fd: Some(fd),
            links: LinkMap::new(),
            expected_attach_type: None,
            attach_btf_obj_fd,
            attach_btf_id,
            attach_prog_fd: None,
            btf_fd: None,
            verifier_log_level,
            path: Some(path),
            flags: 0,
        })
    }

    /// The program's descriptor; `NotLoaded` when it is not loaded.
    pub fn fd(&self) -> (r: Result<&ProgramFd, ProgramError>)
        ensures
            match self.fd {
                Some(f) => r == Ok::<&ProgramFd, ProgramError>(&f),
                None => r == Err::<&ProgramFd, ProgramError>(ProgramError::NotLoaded),
            },
    {
        match &self.fd {
            Some(f) => Ok(f),
            None => Err(ProgramError::NotLoaded),
        }
    }

    /// Removes the link `link_id` from the program's links and hands it back,
    /// without detaching it; `NotAttached` when the program holds no such link.
    pub fn take_link(&mut self, link_id: u64) -> (r: Result<u64, ProgramError>)
        requires
            old(self).wf(),
        ensures
            link_taken(*old(self), *final(self), link_id, r),
    {
        self.links.forget(link_id)
    }
}

/// Unloads a program: drops its links, then releases its descriptor.
///
/// Detaching the links is the caller's work and `detached` is how it went.
/// The links are dropped either way. On a failed detach that error is
/// returned and the descriptor is kept. Otherwise the descriptor is handed back,
/// for the caller to close, or `NotLoaded` is returned when there was none.
pub fn unload_program(data: &mut ProgramData, detached: Result<(), ProgramError>) -> (r: Result<
    ProgramFd,
    ProgramError,
>)
    ensures
        unloaded(*old(data), *final(data), detached, r),
{
    match data.links.remove_all(detached) {
        Err(e) => Err(e),
        Ok(()) => match data.fd.take() {
            Some(f) => Ok(f),
            None => Err(ProgramError::NotLoaded),
        },
    }
}

/// The name reported for a program that has none.
pub open spec fn unknown_program_name() -> Seq<char> {
    "<unknown program>"@
}

/// Checks that a program can be pinned at `path` and builds the
/// `BPF_OBJ_PIN` request: `NoFd` when it is not loaded, `InvalidPinPath`
/// when the path holds a NUL byte.
pub fn pin_program(data: &ProgramData, path: &Vec<u8>) -> (r: Result<PinRequest, PinError>)
    ensures
        data.fd is None ==> (r matches Err(PinError::NoFd { name }) && name@ == (match data.name {
            Some(n) => n@,
            None => unknown_program_name(),
        })),
        data.fd is Some && !nul_free(path@) ==> (r matches Err(
            PinError::InvalidPinPath { path: p, nul_position },
        ) && p@ == path@ && nul_position == first_nul(path@).unwrap()),
        data.fd is Some && nul_free(path@) ==> (r matches Ok(req) && req.fd == data.fd.unwrap().0
            && req.path@ == path@),
{
    let fd = match &data.fd {
        Some(f) => f.0,
        None => {
            let name = match &data.name {
                Some(n) => n.clone(),
                None => "<unknown program>".to_owned(),
            };
            return Err(PinError::NoFd { name });
        },
    };
    match find_nul(path.as_slice()) {
        Some(pos) => Err(PinError::InvalidPinPath { path: path.clone(), nul_position: pos }),
        None => Ok(PinRequest { fd, path: path.clone() }),
    }
}

/// The kernel's answer to a `BPF_OBJ_PIN` request, as a pin result.
pub fn pin_result(result: Result<(), i32>) -> (r: Result<(), PinError>)
    ensures
        result is Ok ==> r is Ok,
        result matches Err(e) ==> r == Err::<(), PinError>(
            PinError::SyscallError(SyscallError { call: "BPF_OBJ_PIN", io_error: e }),
        ),
{
    match result {
        Ok(()) => Ok(()),
        Err(e) => Err(PinError::SyscallError(SyscallError { call: "BPF_OBJ_PIN", io_error: e })),
    }
}

/// The attributes of a load request, as `load_program` builds them from the
/// program data.
pub open spec fn load_attrs_match(
    a: LoadProgramAttrs,
    prog_type: BpfProgType,
    d: ProgramData,
    current_kernel: Option<u32>,
) -> bool {
    let o = d.obj.unwrap();
    &&& (a.name is Some <==> d.name is Some)
    &&& (a.name matches Some(n) ==> n@ == kernel_name_bytes(d.name.unwrap()))
    &&& a.ty == prog_type
    &&& a.insns@ == o.instructions@
    &&& a.license@ == o.license@
    &&& a.kernel_version == (match o.kernel_version {
        Some(v) => v,
        None => current_kernel.unwrap(),
    })
    &&& a.expected_attach_type == d.expected_attach_type
    &&& a.prog_btf_fd == d.btf_fd
    &&& a.attach_btf_obj_fd == d.attach_btf_obj_fd
    &&& a.attach_btf_id == d.attach_btf_id
    &&& a.attach_prog_fd == (match d.attach_prog_fd {
        Some(f) => Some(f.0),
        None => None::<i32>,
    })
    &&& a.func_info_rec_size == o.func_info_rec_size
    &&& a.func_info@ == o.func_info@
    &&& a.line_info_rec_size == o.line_info_rec_size
    &&& a.line_info@ == o.line_info@
    &&& a.flags == d.flags
}

/// Checks that a program can be loaded and builds the `BPF_PROG_LOAD`
/// request for it.
///
/// A program that is loaded, or that was taken from a pin in bpffs (it has
/// no object), is refused with `AlreadyLoaded`. The name handed to the kernel
/// is the program's name cut to its first 15 bytes; a name whose cut holds a
/// NUL byte is refused with `InvalidName`, carrying the cut name. The kernel
/// version is the object's, or else `current_kernel`, the running kernel's.
pub fn load_program(
    prog_type: BpfProgType,
    data: &ProgramData,
    current_kernel: Option<u32>,
) -> (r: Result<LoadProgramAttrs, ProgramError>)
    requires
        loadable(*data, current_kernel),
    ensures
        !load_pending(*data) ==> r == Err::<LoadProgramAttrs, ProgramError>(
            ProgramError::AlreadyLoaded,
        ),
        load_pending(*data) && (data.name matches Some(n) && !nul_free(kernel_name_bytes(n)))
            ==> (r matches Err(ProgramError::InvalidName { name }) && str_bytes(name)
            == kernel_name_bytes(data.name.unwrap())),
        load_pending(*data) && !(data.name matches Some(n) && !nul_free(kernel_name_bytes(n)))
            ==> (r matches Ok(a) && load_attrs_match(a, prog_type, *data, current_kernel)),
        r matches Ok(a) ==> {
            &&& load_pending(*data)
            &&& a.ty == prog_type
            &&& a.expected_attach_type == data.expected_attach_type
            &&& a.prog_btf_fd == data.btf_fd
            &&& a.attach_btf_obj_fd == data.attach_btf_obj_fd
            &&& a.attach_btf_id == data.attach_btf_id
            &&& a.flags == data.flags
            &&& a.insns@ == data.obj.unwrap().instructions@
            &&& a.license@ == data.obj.unwrap().license@
            &&& a.func_info@ == data.obj.unwrap().func_info@
            &&& a.line_info@ == data.obj.unwrap().line_info@
            &&& a.func_info_rec_size == data.obj.unwrap().func_info_rec_size
            &&& a.line_info_rec_size == data.obj.unwrap().line_info_rec_size
        },
{
    if data.fd.is_some() {
        return Err(ProgramError::AlreadyLoaded);
    }
    let obj = match &data.obj {
        Some(o) => o,
        None => {
            // This program was loaded from a pin in bpffs
            return Err(ProgramError::AlreadyLoaded);
        },
    };
    let target_kernel_version = match obj.kernel_version {
        Some(v) => v,
        None => current_kernel.unwrap(),
    };
    let prog_name = match &data.name {
        None => None,
        Some(name) => {
            let full: &str = name.as_str();
            let cut: &str = if full.as_bytes().len() > 15 {
                let parts = full.split_at(15);
                assert(parts.0.spec_bytes() =~= str_bytes(*name).take(15));
                parts.0
            } else {
                full
            };
            assert(cut.spec_bytes() =~= kernel_name_bytes(*name));
            let bytes: &[u8] = cut.as_bytes();
            match find_nul(bytes) {
                Some(_) => {
                    let owned: String = cut.to_owned();
                    return Err(ProgramError::InvalidName { name: owned });
                },
                None => Some(vstd::slice::slice_to_vec(bytes)),
            }
        },
    };
    let attach_prog_fd = match &data.attach_prog_fd {
        Some(f) => Some(f.0),
        None => None,
    };
    Ok(LoadProgramAttrs {
        name: prog_name,
        ty: prog_type,
        insns: obj.instructions.clone(),
        license: obj.license.clone(),
        kernel_version: target_kernel_version,
        expected_attach_type: data.expected_attach_type,
        prog_btf_fd: data.btf_fd,
        attach_btf_obj_fd: data.attach_btf_obj_fd,
        attach_btf_id: data.attach_btf_id,
        attach_prog_fd,
        func_info_rec_size: obj.func_info_rec_size,
        func_info: obj.func_info.clone(),
        line_info_rec_size: obj.line_info_rec_size,
        line_info: obj.line_info.clone(),
        flags: data.flags,
    })
}

/// The outcome of `complete_load`: on success the program holds the new
/// descriptor, on failure it is left as it was and the error carries the
/// verifier's log.
pub open spec fn load_completed(
    d0: ProgramData,
    d1: ProgramData,
    outcome: Result<ProgramFd, i32>,
    verifier_log: String,
    r: Result<(), ProgramError>,
) -> bool {
    &&& same_settings(d0, d1)
    &&& d1.links == d0.links
    &&& outcome matches Ok(f) ==> r is Ok && d1.fd == Some(f)
    &&& outcome matches Err(e) ==> r == Err::<(), ProgramError>(
        ProgramError::LoadError { io_error: e, verifier_log },
    ) && d1.fd == d0.fd
}

/// Takes in the kernel's answer to the `BPF_PROG_LOAD` request that
/// `load_program` built: the new descriptor, or the OS error together with
/// the verifier's log.
pub fn complete_load(
    data: &mut ProgramData,
    outcome: Result<ProgramFd, i32>,
    verifier_log: String,
) -> (r: Result<(), ProgramError>)
    requires
        load_pending(*old(data)),
    ensures
        load_completed(*old(data), *final(data), outcome, verifier_log, r),
{
    match outcome {
        Ok(prog_fd) => {
            data.fd = Some(prog_fd);
            Ok(())
        },
        Err(io_error) => Err(ProgramError::LoadError { io_error, verifier_log }),
    }
}

/// The outcome of `pin`: the pin path is recorded whatever comes next, and
/// the result is `pin_program`'s.
pub open spec fn pinned(d0: ProgramData, d1: ProgramData, path: Seq<u8>, r: Result<PinRequest, PinError>) -> bool {
    &&& d1.wf()
    &&& d1.path matches Some(p) && p@ == path
    &&& same_settings_but_path(d0, d1)
    &&& d1.fd == d0.fd
    &&& d1.links == d0.links
    &&& d0.fd is None ==> (r matches Err(PinError::NoFd { name }) && name@ == (match d0.name {
        Some(n) => n@,
        None => unknown_program_name(),
    }))
    &&& d0.fd is Some && !nul_free(path) ==> (r matches Err(
        PinError::InvalidPinPath { path: p, nul_position },
    ) && p@ == path && nul_position == first_nul(path).unwrap())
    &&& d0.fd is Some && nul_free(path) ==> (r matches Ok(req) && req.fd == d0.fd.unwrap().0
        && req.path@ == path)
}

/// The outcome of unloading: the links are dropped, and then either the
/// detach error comes back with the descriptor kept, or the descriptor is
/// released (`NotLoaded` when there was none).
pub open spec fn unloaded(
    d0: ProgramData,
    d1: ProgramData,
    detached: Result<(), ProgramError>,
    r: Result<ProgramFd, ProgramError>,
) -> bool {
    &&& d1.wf()
    &&& same_settings(d0, d1)
    &&& d1.links@ == Set::<u64>::empty()
    &&& r == unload_result(d0, detached)
    &&& d1.fd == (if detached is Ok { None } else { d0.fd })
}

/// What unloading returns: the detach error, or the released descriptor, or
/// `NotLoaded`.
pub open spec fn unload_result(d0: ProgramData, detached: Result<(), ProgramError>) -> Result<
    ProgramFd,
    ProgramError,
> {
    match detached {
        Err(e) => Err(e),
        Ok(()) => match d0.fd {
            Some(f) => Ok(f),
            None => Err(ProgramError::NotLoaded),
        },
    }
}

/// The outcome of asking for a program's information.
pub open spec fn info_outcome(
    d: ProgramData,
    fetched: Result<BpfProgInfo, SyscallError>,
    r: Result<ProgramInfo, ProgramError>,
) -> bool {
    &&& d.fd is None ==> r == Err::<ProgramInfo, ProgramError>(ProgramError::NotLoaded)
    &&& d.fd is Some ==> match fetched {
        Ok(i) => r matches Ok(pi) && pi.0 == i,
        Err(e) => r == Err::<ProgramInfo, ProgramError>(ProgramError::SyscallError(e)),
    }
}

impl ProgramData {
    /// Pins the program to a BPF filesystem: records `path` as the program's
    /// pin path, whatever comes next, then checks the program and the path and
    /// builds the `BPF_OBJ_PIN` request (see `pin_program`).
    pub fn pin(&mut self, path: Vec<u8>) -> (r: Result<PinRequest, PinError>)
        requires
            old(self).wf(),
        ensures
            pinned(*old(self), *final(self), path@, r),
            old(self).fd is Some && nul_free(path@) ==> (r matches Ok(req) && req.fd == old(
                self,
            ).fd.unwrap().0 && req.path@ == path@),
            (r matches Err(PinError::NoFd { .. })) ==> old(self).fd is None,
    {
        self.path = Some(path.clone());
        pin_program(self, &path)
    }

    /// Forgets the pin path and hands it back: the file there is the one to
    /// remove to unpin the program.
    pub fn unpin(&mut self) -> (r: Option<Vec<u8>>)
        requires
            old(self).wf(),
        ensures
            final(self).wf(),
            r == old(self).path,
            final(self).path is None,
            same_settings_but_path(*old(self), *final(self)),
            final(self).fd == old(self).fd,
            final(self).links == old(self).links,
    {
        self.path.take()
    }

    /// Unloads the program from the kernel (see `unload_program`).
    pub fn unload(&mut self, detached: Result<(), ProgramError>) -> (r: Result<ProgramFd, ProgramError>)
        ensures
            unloaded(*old(self), *final(self), detached, r),
    {
        unload_program(self, detached)
    }

    /// Information about the loaded program. `fetched` is the kernel's answer
    /// to `BPF_OBJ_GET_INFO_BY_FD` on the program's descriptor; a program that
    /// is not loaded gives `NotLoaded` and nothing is asked.
    pub fn info(&self, fetched: Result<BpfProgInfo, SyscallError>) -> (r: Result<
        ProgramInfo,
        ProgramError,
    >)
        ensures
            info_outcome(*self, fetched, r),
            self.fd is Some && fetched is Ok ==> (r matches Ok(pi) && pi.0 == fetched.unwrap()),
    {
        match &self.fd {
            None => Err(ProgramError::NotLoaded),
            Some(_) => match fetched {
                Ok(i) => Ok(ProgramInfo(i)),
                Err(e) => Err(ProgramError::SyscallError(e)),
            },
        }
    }
}

impl ProgramData {
    /// A program taken from a pin in bpffs: `fd` is the descriptor that
    /// `BPF_OBJ_GET` gave for `path`, `info` what `BPF_OBJ_GET_INFO_BY_FD`
    /// reported for it. The program is named after the info's name when that
    /// name is valid UTF-8; the rest is as in `from_bpf_prog_info`.
    pub fn from_pinned_path(
        path: Vec<u8>,
        verifier_log_level: u32,
        fd: ProgramFd,
        info: ProgramInfo,
        attach_btf_obj_fd: Option<Result<i32, SyscallError>>,
    ) -> (r: Result<ProgramData, ProgramError>)
        requires
            nul_free(path@),
            attach_btf_obj_fd is Some <==> info.0.attach_btf_obj_id != 0,
        ensures
            attach_btf_obj_fd matches Some(Err(e)) ==> r == Err::<ProgramData, ProgramError>(
                ProgramError::SyscallError(e),
            ),
            !(attach_btf_obj_fd matches Some(Err(_))) ==> r is Ok,
            r matches Ok(d) ==> {
                let raw = info.0.name@.take(trimmed_len(info.0.name@) as int);
                &&& d.wf()
                &&& (d.name is Some <==> valid_utf8(raw))
                &&& (d.name matches Some(n) ==> str_bytes(n) == raw)
                &&& d.obj is None
                &&& d.fd == Some(fd)
                &&& d.links@ == Set::<u64>::empty()
                &&& d.expected_attach_type is None
                &&& d.attach_btf_obj_fd == (match attach_btf_obj_fd {
                    Some(Ok(f)) => Some(f),
                    _ => None::<i32>,
                })
                &&& d.attach_prog_fd is None
                &&& d.btf_fd is None
                &&& d.flags == 0
                &&& d.path matches Some(p) && p@ == path@
                &&& d.verifier_log_level == verifier_log_level
                &&& d.attach_btf_id == (if info.0.attach_btf_id > 0 {
                    Some(info.0.attach_btf_id)
                } else {
                    None
                })
            },
    {
        let name: Option<String> = match info.name_as_str() {
            Some(s) => Some(s.to_owned()),
            None => None,
        };
        Self::from_bpf_prog_info(name, fd, path, info.0, verifier_log_level, attach_btf_obj_fd)
    }
}

/// The error for a failed `BPF_OBJ_GET` on a program's pin path.
pub fn obj_get_error(io_error: i32) -> (e: ProgramError)
    ensures
        e == ProgramError::SyscallError(SyscallError { call: "bpf_obj_get", io_error }),
{
    ProgramError::SyscallError(SyscallError { call: "bpf_obj_get", io_error })
}

} // verus!
