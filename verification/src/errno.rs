use vstd::prelude::*;

verus! {

/// `libc::ENOSPC`, the error number of "no space left on device". The
/// contract claims the value that libc declares for Linux (and Android), 28;
/// this crate is for Linux, the only kernel with `bpf(2)`.
#[verifier::external_body]
pub(crate) fn enospc() -> (r: i32)
    ensures
        r == 28,
{
    libc::ENOSPC
}

} // verus!
