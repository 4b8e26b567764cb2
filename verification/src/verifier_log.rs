use vstd::prelude::*;
use crate::bytes::{find_nul, nul_free};
use crate::errno::enospc;

verus! {

/// The smallest verifier log buffer handed to the kernel.
pub const MIN_LOG_BUF_SIZE: usize = 10240;

/// The largest verifier log buffer handed to the kernel (`u32::MAX >> 8`).
pub const MAX_LOG_BUF_SIZE: usize = 16777215;

/// `x` clamped to `[lo, hi]`.
pub open spec fn clamp(x: int, lo: int, hi: int) -> int {
    if x < lo {
        lo
    } else if x > hi {
        hi
    } else {
        x
    }
}

/// Whether a failed call is made again with a larger log buffer: while
/// retries remain, always after the first attempt, and after later ones
/// only when the kernel reported `ENOSPC` (the log did not fit).
pub open spec fn log_retry_wanted(retries: usize, max_retries: usize, failed: Option<i32>) -> bool {
    retries != max_retries && (failed matches Some(e) && (retries == 0 || e == 28))
}

/// Decides, after one call made with a verifier log buffer of `buf_len`
/// bytes, whether to call again and with how large a buffer: ten times the
/// current one, kept between `MIN_LOG_BUF_SIZE` and `MAX_LOG_BUF_SIZE`.
/// `failed` is the call's OS error code, `None` when it succeeded.
pub fn next_log_buf_len(retries: usize, max_retries: usize, buf_len: usize, failed: Option<i32>) -> (r: Option<usize>)
    ensures
        log_retry_wanted(retries, max_retries, failed) ==> r == Some(
            clamp(buf_len * 10, MIN_LOG_BUF_SIZE as int, MAX_LOG_BUF_SIZE as int) as usize,
        ),
        !log_retry_wanted(retries, max_retries, failed) ==> r is None,
{
    if retries == max_retries {
        return None;
    }
    match failed {
        Some(e) => {
            if retries == 0 || e == enospc() {
                let grown: usize = if buf_len > MAX_LOG_BUF_SIZE / 10 {
                    MAX_LOG_BUF_SIZE
                } else {
                    buf_len * 10
                };
                let len = if grown < MIN_LOG_BUF_SIZE {
                    MIN_LOG_BUF_SIZE
                } else if grown > MAX_LOG_BUF_SIZE {
                    MAX_LOG_BUF_SIZE
                } else {
                    grown
                };
                Some(len)
            } else {
                None
            }
        },
        None => None,
    }
}

/// The text the kernel wrote into a verifier log buffer: the bytes before
/// the first NUL, or the whole buffer when it holds none.
pub fn verifier_log_text(buf: &[u8]) -> (r: &[u8])
    ensures
        nul_free(r@),
        r@ == buf@.take(r@.len() as int),
        r@.len() < buf@.len() ==> buf@[r@.len() as int] == 0u8,
{
    match find_nul(buf) {
        Some(pos) => vstd::slice::slice_subrange(buf, 0, pos),
        None => {
            assert(buf@.take(buf@.len() as int) =~= buf@);
            buf
        },
    }
}

} // verus!
