use vstd::prelude::*;
use crate::bytes::{be_value, nul_free, pow256};
use crate::data::max_name_len;
use crate::fdinfo::{digits_value, last_tab, number_digits};
use crate::kernel_version::version_code;
use crate::query::{initial_query_len, query_retries_again, resized};
use crate::verifier_log::{clamp, log_retry_wanted, MAX_LOG_BUF_SIZE, MIN_LOG_BUF_SIZE};

verus! {

/// A byte string is NUL-free exactly when no byte of it is 0.
pub proof fn lemma_nul_free_means(s: Seq<u8>)
    ensures
        nul_free(s) <==> !s.contains(0u8),
{
    if !nul_free(s) {
        let i = choose|i: int| 0 <= i < s.len() && s[i] == 0u8;
        assert(s.contains(0u8));
    }
}

/// Big-endian: the first byte is the most significant one, worth `256^(n-1)`.
pub proof fn lemma_be_first_byte_most_significant(s: Seq<u8>)
    requires
        s.len() > 0,
    ensures
        be_value(s) == s[0] * pow256((s.len() - 1) as nat) + be_value(s.drop_first()),
    decreases s.len(),
{
    if s.len() > 1 {
        let t = s.drop_last();
        let u = s.drop_first();
        lemma_be_first_byte_most_significant(t);
        assert(t.drop_first() =~= u.drop_last());
        assert(t[0] == s[0]);
        assert(u.last() == s.last());
        let p = pow256((s.len() - 2) as nat);
        assert(pow256((s.len() - 1) as nat) == 256 * p);
        let a = s[0] as int;
        let b = be_value(u.drop_last()) as int;
        let l = s.last() as int;
        assert(be_value(t) == a * p + b);
        assert(be_value(s) == be_value(t) * 256 + l);
        assert(be_value(u) == b * 256 + l);
        assert((a * p + b) * 256 + l == a * (256 * p) + (b * 256 + l)) by (nonlinear_arith);
        assert(be_value(s) == a * pow256((s.len() - 1) as nat) + be_value(u));
    } else {
        assert(s.drop_last().len() == 0);
        assert(s.drop_first().len() == 0);
        assert(s.last() == s[0]);
        assert(be_value(s.drop_last()) == 0);
        assert(be_value(s.drop_first()) == 0);
        assert(pow256(0) == 1);
        assert(be_value(s) == s[0] as int);
        let q = pow256((s.len() - 1) as nat);
        assert(q == 1);
        let x = s[0] as int;
        assert(x * q == x) by (nonlinear_arith)
            requires
                q == 1,
        ;
    }
}

/// `10^n`.
pub open spec fn pow10(n: nat) -> nat
    decreases n,
{
    if n == 0 {
        1
    } else {
        10 * pow10((n - 1) as nat)
    }
}

/// Decimal: the first digit is the most significant one, worth `10^(n-1)`.
pub proof fn lemma_digits_first_most_significant(d: Seq<u8>)
    requires
        d.len() > 0,
        forall|i: int| 0 <= i < d.len() ==> 48u8 <= #[trigger] d[i] <= 57u8,
    ensures
        digits_value(d) == (d[0] - 48) * pow10((d.len() - 1) as nat) + digits_value(d.drop_first()),
    decreases d.len(),
{
    if d.len() > 1 {
        let t = d.drop_last();
        assert(forall|i: int| 0 <= i < t.len() ==> 48u8 <= #[trigger] t[i] <= 57u8) by {
            assert forall|i: int| 0 <= i < t.len() implies 48u8 <= #[trigger] t[i] <= 57u8 by {
                assert(t[i] == d[i]);
            }
        }
        lemma_digits_first_most_significant(t);
        let u = d.drop_first();
        assert(t.drop_first() =~= u.drop_last());
        assert(t[0] == d[0]);
        assert(u.last() == d.last());
        let p = pow10((d.len() - 2) as nat);
        assert(pow10((d.len() - 1) as nat) == 10 * p);
        let a = (d[0] - 48) as int;
        let b = digits_value(u.drop_last()) as int;
        let l = (d.last() - 48) as int;
        assert(digits_value(t) == a * p + b);
        assert(digits_value(d) == digits_value(t) * 10 + l);
        assert(digits_value(u) == b * 10 + l);
        assert((a * p + b) * 10 + l == a * (10 * p) + (b * 10 + l)) by (nonlinear_arith);
    } else {
        assert(d.drop_last().len() == 0);
        assert(d.drop_first().len() == 0);
        assert(d.last() == d[0]);
        assert(digits_value(d.drop_last()) == 0);
        assert(digits_value(d.drop_first()) == 0);
        let q = pow10((d.len() - 1) as nat);
        assert(q == 1);
        let x = (d[0] - 48) as int;
        assert(digits_value(d) == x);
        assert(x * q == x) by (nonlinear_arith)
            requires
                q == 1,
        ;
    }
}

/// A number may carry a leading `+`, which is not a digit of it.
pub proof fn lemma_number_digits(v: Seq<u8>)
    ensures
        v.len() > 0 && v[0] == 43u8 ==> number_digits(v) == v.drop_first(),
        !(v.len() > 0 && v[0] == 43u8) ==> number_digits(v) == v,
{
}

/// `last_tab` is the position of the last tab: a tab, with none after it;
/// `None` when the line holds no tab.
pub proof fn lemma_last_tab_means(s: Seq<u8>)
    ensures
        last_tab(s) matches Some(i) ==> 0 <= i < s.len() && s[i] == 9u8 && forall|j: int|
            i < j < s.len() ==> s[j] != 9u8,
        last_tab(s) is None ==> forall|j: int| 0 <= j < s.len() ==> s[j] != 9u8,
    decreases s.len(),
{
    if s.len() > 0 && s.last() != 9u8 {
        let t = s.drop_last();
        lemma_last_tab_means(t);
        assert forall|j: int| 0 <= j < t.len() implies s[j] == t[j] by {}
    }
}

/// A query first asks for 64 ids.
pub proof fn lemma_initial_query_len()
    ensures
        initial_query_len() == 64,
{
}

/// Resizing the id buffer to `n` keeps the first ids, fills any new slots
/// with 0, and leaves exactly `n` slots.
pub proof fn lemma_resized(ids: Seq<u32>, n: nat)
    ensures
        resized(ids, n).len() == n,
        forall|i: int| 0 <= i < n && i < ids.len() ==> resized(ids, n)[i] == ids[i],
        forall|i: int| ids.len() <= i < n ==> resized(ids, n)[i] == 0u32,
{
}

/// A query is asked again exactly after its first call failed with `ENOSPC`.
pub proof fn lemma_query_retries_again_means(retries: u32, result: Result<(), i32>)
    ensures
        query_retries_again(retries, result) <==> (retries == 0 && result == Err::<(), i32>(28)),
{
}

/// The kernel keeps at most 15 bytes of a program's name.
pub proof fn lemma_max_name_len()
    ensures
        max_name_len() == 15,
{
}

/// A grown log buffer is ten times the old one, but never below 10 KiB nor
/// above `u32::MAX >> 8` bytes.
pub proof fn lemma_log_buffer_bounds(len: int)
    requires
        len >= 0,
    ensures
        MIN_LOG_BUF_SIZE == 10240,
        MAX_LOG_BUF_SIZE == 16777215,
        MIN_LOG_BUF_SIZE <= clamp(len * 10, MIN_LOG_BUF_SIZE as int, MAX_LOG_BUF_SIZE as int)
            <= MAX_LOG_BUF_SIZE,
        MIN_LOG_BUF_SIZE <= len * 10 <= MAX_LOG_BUF_SIZE ==> clamp(
            len * 10,
            MIN_LOG_BUF_SIZE as int,
            MAX_LOG_BUF_SIZE as int,
        ) == len * 10,
{
}

/// A load is retried with a larger log while retries remain: always after
/// the first attempt fails, and after a later one only on `ENOSPC`; never
/// after a success.
pub proof fn lemma_log_retry_wanted_means(retries: usize, max_retries: usize, failed: Option<i32>)
    ensures
        log_retry_wanted(retries, max_retries, failed) <==> (retries != max_retries && failed
            is Some && (retries == 0 || failed == Some(28i32))),
{
}

/// The version code packs major, minor and patch level (capped at 255) into
/// one number from which each can be read back.
pub proof fn lemma_version_code_fields(major: u8, minor: u8, patch: u16)
    ensures
        0 <= version_code(major, minor, patch) < 0x1000000,
        version_code(major, minor, patch) / 65536 == major,
        (version_code(major, minor, patch) / 256) % 256 == minor,
        version_code(major, minor, patch) % 256 == (if patch > 255 { 255 } else { patch as int }),
{
    let p: int = if patch > 255 { 255 } else { patch as int };
    let c = version_code(major, minor, patch);
    let ma = major as int;
    let mi = minor as int;
    assert(c == ma * 65536 + mi * 256 + p);
    assert(0 <= p < 256);
    assert(c / 65536 == ma && (c / 256) % 256 == mi && c % 256 == p && 0 <= c < 0x1000000)
        by (nonlinear_arith)
        requires
            c == ma * 65536 + mi * 256 + p,
            0 <= p < 256,
            0 <= mi < 256,
            0 <= ma < 256,
    ;
}

} // verus!
