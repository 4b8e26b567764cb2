use vstd::prelude::*;
use vstd::utf8::valid_utf8;
use vstd::string::StringSliceAdditionalSpecFns;
use crate::error::{ProgramError, SyscallError};
use crate::bytes::{trimmed_len, trimmed_length, be_value, u64_from_be_bytes};

verus! {

/// The fields of the kernel's `struct bpf_prog_info` that are read here.
#[derive(Clone, Copy, Debug, PartialEq, Eq)]
pub struct BpfProgInfo {
    /// `type`: the program type code.
    pub type_: u32,
    pub id: u32,
    pub tag: [u8; 8],
    pub jited_prog_len: u32,
    pub xlated_prog_len: u32,
    /// Nanoseconds since boot at which the program was loaded.
    pub load_time: u64,
    pub nr_map_ids: u32,
    /// The NUL-padded program name.
    pub name: [u8; 16],
    /// The one-bit `gpl_compatible` field.
    pub gpl_compatible: u32,
    pub btf_id: u32,
    pub attach_btf_obj_id: u32,
    pub attach_btf_id: u32,
    pub verified_insns: u32,
}

/// A point in time, in nanoseconds since the UNIX epoch (negative before it).
#[derive(Clone, Copy, Debug, PartialEq, Eq, Structural)]
pub struct Timestamp {
    pub nanos_since_epoch: i128,
}

/// The time at which the machine booted: the wall-clock time now minus the
/// time elapsed since boot, both given in nanoseconds.
pub fn boot_time(since_epoch_ns: u64, since_boot_ns: u64) -> (t: Timestamp)
    ensures
        t.nanos_since_epoch == since_epoch_ns - since_boot_ns,
{
    Timestamp { nanos_since_epoch: since_epoch_ns as i128 - since_boot_ns as i128 }
}

/// `std::str::from_utf8(bytes).ok()`: the bytes as a string slice when they
/// are valid UTF-8. The contract claims what the standard library documents:
/// success exactly on valid UTF-8, and a result made of the same bytes.
#[verifier::external_body]
fn str_from_utf8(bytes: &[u8]) -> (r: Option<&str>)
    ensures
        r is Some <==> valid_utf8(bytes@),
        r matches Some(s) ==> s.spec_bytes() == bytes@,
{
    std::str::from_utf8(bytes).ok()
}

/// Provides information about a loaded program, like name, id and statistics
#[derive(Clone, Copy, Debug)]
pub struct ProgramInfo(pub BpfProgInfo);

impl ProgramInfo {
    /// The name of the program as was provided when it was load. This is limited to 16 bytes
    pub fn name(&self) -> (r: &[u8])
        ensures
            r@ == self.0.name@.take(trimmed_len(self.0.name@) as int),
            r@.len() > 0 ==> r@.last() != 0u8,
            forall|i: int| r@.len() <= i < 16 ==> self.0.name@[i] == 0u8,
    {
        let all: &[u8] = self.0.name.as_slice();
        let n = trimmed_length(all);
        proof {
            crate::bytes::lemma_trimmed_len(all@);
        }
        vstd::slice::slice_subrange(all, 0, n)
    }

    /// The name of the program as a &str. If the name was not valid unicode, None is returned.
    pub fn name_as_str(&self) -> (r: Option<&str>)
        ensures
            r is Some <==> valid_utf8(self.0.name@.take(trimmed_len(self.0.name@) as int)),
            r matches Some(s) ==> s.spec_bytes() == self.0.name@.take(
                trimmed_len(self.0.name@) as int,
            ),
    {
        str_from_utf8(self.name())
    }

    /// The id for this program. Each program has a unique id.
    pub fn id(&self) -> (r: u32)
        ensures
            r == self.0.id,
    {
        self.0.id
    }

    /// The program tag.
    ///
    /// The program tag is a SHA sum of the program's instructions which be used as an alternative to
    /// `Self::id()`. A program's id can vary every time it's loaded or unloaded, but the tag
    /// will remain the same.
    pub fn tag(&self) -> (r: u64)
        ensures
            r == be_value(self.0.tag@),
    {
        u64_from_be_bytes(self.0.tag)
    }

    /// The program type as defined by the linux kernel enum `bpf_prog_type`.
    pub fn program_type(&self) -> (r: u32)
        ensures
            r == self.0.type_,
    {
        self.0.type_
    }

    /// Returns true if the program is defined with a GPL-compatible license.
    pub fn gpl_compatible(&self) -> (r: bool)
        ensures
            r == (self.0.gpl_compatible != 0),
    {
        self.0.gpl_compatible != 0
    }

    /// The btf id for the program; `None` when the kernel reports 0.
    pub fn btf_id(&self) -> (r: Option<u32>)
        ensures
            self.0.btf_id == 0 ==> r is None,
            self.0.btf_id != 0 ==> r == Some(self.0.btf_id),
    {
        if self.0.btf_id == 0 {
            None
        } else {
            Some(self.0.btf_id)
        }
    }

    /// The size in bytes of the program's translated eBPF bytecode, which is
    /// the bytecode after it has been passed though the verifier where it was
    /// possibly modified by the kernel.
    pub fn size_translated(&self) -> (r: u32)
        ensures
            r == self.0.xlated_prog_len,
    {
        self.0.xlated_prog_len
    }

    /// The size in bytes of the program's JIT-compiled machine code.
    pub fn size_jitted(&self) -> (r: u32)
        ensures
            r == self.0.jited_prog_len,
    {
        self.0.jited_prog_len
    }

    /// The number of verified instructions in the program.
    ///
    /// This may be less than the total number of instructions in the compiled
    /// program due to dead code elimination in the verifier.
    pub fn verified_instruction_count(&self) -> (r: u32)
        ensures
            r == self.0.verified_insns,
    {
        self.0.verified_insns
    }

    /// The buffer the kernel fills with the ids of the maps the program uses:
    /// one zeroed slot per map.
    pub fn map_ids_buffer(&self) -> (v: Vec<u32>)
        ensures
            v@.len() == self.0.nr_map_ids,
            forall|i: int| 0 <= i < v@.len() ==> v@[i] == 0u32,
    {
        let mut v: Vec<u32> = Vec::new();
        let mut i: u32 = 0;
        while i < self.0.nr_map_ids
            invariant
                i <= self.0.nr_map_ids,
                v@.len() == i,
                forall|j: int| 0 <= j < v@.len() ==> v@[j] == 0u32,
            decreases self.0.nr_map_ids - i,
        {
            v.push(0);
            i = i + 1;
        }
        v
    }

    /// The time the program was loaded, given the time the machine booted:
    /// the kernel records the load time in nanoseconds since boot.
    pub fn loaded_at(&self, boot_time: Timestamp) -> (t: Timestamp)
        requires
            boot_time.nanos_since_epoch + self.0.load_time <= i128::MAX,
        ensures
            t.nanos_since_epoch == boot_time.nanos_since_epoch + self.0.load_time,
    {
        Timestamp { nanos_since_epoch: boot_time.nanos_since_epoch + self.0.load_time as i128 }
    }
}

/// The fields of the kernel's `struct bpf_link_info` that are read here.
#[derive(Clone, Copy, Debug, PartialEq, Eq, Structural)]
pub struct BpfLinkInfo {
    /// `type`: the link type code.
    pub type_: u32,
    pub id: u32,
    pub prog_id: u32,
}

/// The information about every loaded program, from the kernel's answers:
/// for each program id, either the first failed call (listing the ids,
/// opening the program by id, or reading its information) or its
/// `bpf_prog_info`.
pub fn loaded_programs(fetched: Vec<Result<BpfProgInfo, SyscallError>>) -> (r: Vec<
    Result<ProgramInfo, ProgramError>,
>)
    ensures
        r@.len() == fetched@.len(),
        forall|i: int|
            0 <= i < r@.len() ==> match fetched@[i] {
                Ok(info) => (#[trigger] r@[i]) matches Ok(pi) && pi.0 == info,
                Err(e) => r@[i] == Err::<ProgramInfo, ProgramError>(ProgramError::SyscallError(e)),
            },
{
    let mut r: Vec<Result<ProgramInfo, ProgramError>> = Vec::new();
    let mut i: usize = 0;
    while i < fetched.len()
        invariant
            i <= fetched@.len(),
            r@.len() == i,
            forall|j: int|
                0 <= j < i ==> match fetched@[j] {
                    Ok(info) => (#[trigger] r@[j]) matches Ok(pi) && pi.0 == info,
                    Err(e) => r@[j] == Err::<ProgramInfo, ProgramError>(
                        ProgramError::SyscallError(e),
                    ),
                },
        decreases fetched@.len() - i,
    {
        let item = match &fetched[i] {
            Ok(info) => Ok(ProgramInfo(*info)),
            Err(e) => Err(ProgramError::SyscallError(*e)),
        };
        r.push(item);
        i = i + 1;
    }
    r
}

/// The information about every link, from the kernel's answers: for each
/// link id, either the first failed call or its `bpf_link_info`.
pub fn loaded_links(fetched: Vec<Result<BpfLinkInfo, SyscallError>>) -> (r: Vec<
    Result<BpfLinkInfo, ProgramError>,
>)
    ensures
        r@.len() == fetched@.len(),
        forall|i: int|
            0 <= i < r@.len() ==> match fetched@[i] {
                Ok(info) => #[trigger] r@[i] == Ok::<BpfLinkInfo, ProgramError>(info),
                Err(e) => r@[i] == Err::<BpfLinkInfo, ProgramError>(ProgramError::SyscallError(e)),
            },
{
    let mut r: Vec<Result<BpfLinkInfo, ProgramError>> = Vec::new();
    let mut i: usize = 0;
    while i < fetched.len()
        invariant
            i <= fetched@.len(),
            r@.len() == i,
            forall|j: int|
                0 <= j < i ==> match fetched@[j] {
                    Ok(info) => #[trigger] r@[j] == Ok::<BpfLinkInfo, ProgramError>(info),
                    Err(e) => r@[j] == Err::<BpfLinkInfo, ProgramError>(
                        ProgramError::SyscallError(e),
                    ),
                },
        decreases fetched@.len() - i,
    {
        let item = match &fetched[i] {
            Ok(info) => Ok(*info),
            Err(e) => Err(ProgramError::SyscallError(*e)),
        };
        r.push(item);
        i = i + 1;
    }
    r
}

} // verus!
