use vstd::prelude::*;

verus! {

/// The version code the kernel expects in a load request: the major number
/// in the third byte, the minor in the second, the patch level (at most 255)
/// in the first.
pub open spec fn version_code(major: u8, minor: u8, patch: u16) -> int {
    major * 65536 + minor * 256 + (if patch > 255 { 255 } else { patch as int })
}

/// The version code of kernel `major.minor.patch`; patch levels above 255 are
/// counted as 255.
pub fn kernel_version_code(major: u8, minor: u8, patch: u16) -> (c: u32)
    ensures
        c == version_code(major, minor, patch),
{
    let p: u32 = if patch > 255 {
        255
    } else {
        patch as u32
    };
    (major as u32) * 65536 + (minor as u32) * 256 + p
}

} // verus!
