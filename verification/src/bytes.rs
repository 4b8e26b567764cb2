use vstd::prelude::*;

verus! {

/// `s` holds no NUL byte.
pub open spec fn nul_free(s: Seq<u8>) -> bool {
    forall|i: int| 0 <= i < s.len() ==> s[i] != 0u8
}

/// The position of the first NUL byte in `s`, if there is one.
pub open spec fn first_nul(s: Seq<u8>) -> Option<int> {
    if nul_free(s) {
        None
    } else {
        Some(choose|i: int| 0 <= i < s.len() && s[i] == 0u8 && nul_free(s.take(i)))
    }
}

/// What `first_nul` is: `None` exactly on NUL-free bytes, else the position
/// of a NUL with none before it.
pub proof fn lemma_first_nul(s: Seq<u8>)
    ensures
        first_nul(s) is None <==> nul_free(s),
        first_nul(s) matches Some(i) ==> 0 <= i < s.len() && s[i] == 0u8 && nul_free(s.take(i)),
    decreases s.len(),
{
    if !nul_free(s) {
        let t = s.drop_last();
        if nul_free(t) {
            let w = s.len() - 1;
            assert(s[w] == 0u8) by {
                let k = choose|k: int| 0 <= k < s.len() && s[k] == 0u8;
                if k < w {
                    assert(t[k] == 0u8);
                }
            }
            assert(s.take(w) =~= t);
        } else {
            lemma_first_nul(t);
            let w = first_nul(t).unwrap();
            assert(s.take(w) =~= t.take(w));
            assert(s[w] == t[w]);
        }
    }
}

/// Finds the first NUL byte, the check that `CString::new` makes before it
/// accepts a byte string.
pub fn find_nul(s: &[u8]) -> (r: Option<usize>)
    ensures
        match r {
            None => nul_free(s@),
            Some(i) => i < s@.len() && s@[i as int] == 0u8 && nul_free(s@.take(i as int)),
        },
        r matches Some(i) ==> first_nul(s@) == Some(i as int),
        r is None ==> first_nul(s@) is None,
{
    let mut i: usize = 0;
    while i < s.len()
        invariant
            i <= s@.len(),
            nul_free(s@.take(i as int)),
        decreases s@.len() - i,
    {
        if s[i] == 0 {
            proof {
                let w = i as int;
                assert(0 <= w < s@.len() && s@[w] == 0u8 && nul_free(s@.take(w)));
                let c = choose|j: int| 0 <= j < s@.len() && s@[j] == 0u8 && nul_free(s@.take(j));
                if c < w {
                    assert(s@.take(w)[c] == 0u8);
                } else if c > w {
                    assert(s@.take(c)[w] == 0u8);
                }
            }
            return Some(i);
        }
        assert(s@.take(i as int + 1) =~= s@.take(i as int).push(s@[i as int]));
        i = i + 1;
    }
    assert(s@.take(i as int) =~= s@);
    None
}

/// The length of `s` once its trailing NUL bytes are cut off: one past the
/// last non-NUL byte, or 0 when every byte is NUL.
pub open spec fn trimmed_len(s: Seq<u8>) -> nat
    decreases s.len(),
{
    if s.len() == 0 {
        0
    } else if s.last() != 0u8 {
        s.len()
    } else {
        trimmed_len(s.drop_last())
    }
}

/// What `trimmed_len` is: everything past it is NUL, and the byte just before
/// it is not.
pub proof fn lemma_trimmed_len(s: Seq<u8>)
    ensures
        trimmed_len(s) <= s.len(),
        forall|i: int| trimmed_len(s) <= i < s.len() ==> s[i] == 0u8,
        trimmed_len(s) > 0 ==> s[trimmed_len(s) - 1] != 0u8,
    decreases s.len(),
{
    if s.len() > 0 && s.last() == 0u8 {
        let t = s.drop_last();
        lemma_trimmed_len(t);
        assert forall|i: int| trimmed_len(s) <= i < s.len() implies s[i] == 0u8 by {
            if i < s.len() - 1 {
                assert(s[i] == t[i]);
            }
        }
        if trimmed_len(s) > 0 {
            assert(s[trimmed_len(s) - 1] == t[trimmed_len(t) - 1]);
        }
    }
}

/// The index one past the last non-NUL byte of `s` (`rposition` of a non-NUL
/// byte, plus one), or 0.
pub fn trimmed_length(s: &[u8]) -> (n: usize)
    ensures
        n == trimmed_len(s@),
{
    let mut n: usize = s.len();
    assert(s@.take(n as int) =~= s@);
    while n > 0 && s[n - 1] == 0
        invariant
            n <= s@.len(),
            trimmed_len(s@) == trimmed_len(s@.take(n as int)),
        decreases n,
    {
        assert(s@.take(n as int).drop_last() =~= s@.take(n as int - 1));
        n = n - 1;
    }
    proof {
        assert(s@.take(s@.len() as int) =~= s@);
        if n > 0 {
            assert(s@.take(n as int).last() == s@[n as int - 1]);
        }
    }
    n
}

/// The value of `s` read as a big-endian unsigned number.
pub open spec fn be_value(s: Seq<u8>) -> nat
    decreases s.len(),
{
    if s.len() == 0 {
        0
    } else {
        be_value(s.drop_last()) * 256 + s.last() as nat
    }
}

/// `256^n`.
pub open spec fn pow256(n: nat) -> nat
    decreases n,
{
    if n == 0 {
        1
    } else {
        256 * pow256((n - 1) as nat)
    }
}

/// A number read from `n` bytes is below `256^n`.
pub proof fn lemma_be_value_bound(s: Seq<u8>)
    ensures
        be_value(s) < pow256(s.len()),
    decreases s.len(),
{
    if s.len() > 0 {
        lemma_be_value_bound(s.drop_last());
        let p = pow256((s.len() - 1) as nat);
        let b = be_value(s.drop_last());
        let l = s.last() as nat;
        assert(b * 256 + l < p * 256) by (nonlinear_arith)
            requires
                b < p,
                l < 256,
        ;
    }
}

/// `256^n` grows with `n`.
pub proof fn lemma_pow256_monotone(a: nat, b: nat)
    requires
        a <= b,
    ensures
        pow256(a) <= pow256(b),
    decreases b,
{
    if a < b {
        lemma_pow256_monotone(a, (b - 1) as nat);
    }
}

/// `u64::from_be_bytes`: the eight bytes read as a big-endian number.
pub fn u64_from_be_bytes(b: [u8; 8]) -> (r: u64)
    ensures
        r == be_value(b@),
{
    let mut acc: u64 = 0;
    let mut i: usize = 0;
    while i < 8
        invariant
            i <= 8,
            b@.len() == 8,
            acc == be_value(b@.take(i as int)),
        decreases 8 - i,
    {
        proof {
            lemma_be_value_bound(b@.take(i as int));
            lemma_pow256_monotone(i as nat, 7);
            reveal_with_fuel(pow256, 8);
            assert(pow256(7) == 0x100000000000000);
            assert(b@.take(i as int + 1).drop_last() =~= b@.take(i as int));
        }
        acc = acc * 256 + b[i] as u64;
        i = i + 1;
    }
    assert(b@.take(8) =~= b@);
    acc
}

} // verus!
