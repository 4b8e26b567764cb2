use vstd::prelude::*;

verus! {

/// `k` occurs in `s` starting at `i`.
pub open spec fn occurs_at(s: Seq<u8>, k: Seq<u8>, i: int) -> bool {
    0 <= i && i + k.len() <= s.len() && s.subrange(i, i + k.len()) == k
}

/// `k` occurs somewhere in `s`.
pub open spec fn contains_bytes(s: Seq<u8>, k: Seq<u8>) -> bool {
    exists|i: int| occurs_at(s, k, i)
}

/// The position of the last tab in `s`.
pub open spec fn last_tab(s: Seq<u8>) -> Option<int>
    decreases s.len(),
{
    if s.len() == 0 {
        None
    } else if s.last() == 9u8 {
        Some(s.len() - 1)
    } else {
        last_tab(s.drop_last())
    }
}

/// `b` is an ASCII decimal digit.
pub open spec fn is_digit(b: u8) -> bool {
    48u8 <= b <= 57u8
}

/// The number written by a string of decimal digits.
pub open spec fn digits_value(d: Seq<u8>) -> nat
    decreases d.len(),
{
    if d.len() == 0 {
        0
    } else {
        digits_value(d.drop_last()) * 10 + (d.last() - 48) as nat
    }
}

/// The digits of an unsigned number in the form `str::parse` accepts: an
/// optional `+`, then at least one decimal digit.
pub open spec fn number_digits(v: Seq<u8>) -> Seq<u8> {
    if v.len() > 0 && v[0] == 43u8 {
        v.drop_first()
    } else {
        v
    }
}

/// `v` parses as a `u32`.
pub open spec fn parses_as_u32(v: Seq<u8>) -> bool {
    let d = number_digits(v);
    &&& d.len() > 0
    &&& forall|i: int| 0 <= i < d.len() ==> is_digit(#[trigger] d[i])
    &&& digits_value(d) <= u32::MAX
}

/// The text after the last tab of a line.
pub open spec fn after_last_tab(s: Seq<u8>) -> Seq<u8> {
    s.subrange(last_tab(s).unwrap() + 1, s.len() as int)
}

/// A line of `/proc/self/fdinfo/<fd>` that holds the key can be read: it has
/// a tab, and a number after its last tab.
pub open spec fn fdinfo_line_readable(line: Seq<u8>, key: Seq<u8>) -> bool {
    contains_bytes(line, key) ==> (last_tab(line) is Some && parses_as_u32(after_last_tab(line)))
}

fn occurs_at_exec(s: &[u8], k: &[u8], i: usize) -> (r: bool)
    requires
        i + k@.len() <= s@.len(),
    ensures
        r == occurs_at(s@, k@, i as int),
{
    let n: usize = s.len();
    let mut j: usize = 0;
    while j < k.len()
        invariant
            j <= k@.len(),
            i + k@.len() <= s@.len(),
            n == s@.len(),
            forall|m: int| 0 <= m < j ==> s@[i + m] == k@[m],
        decreases k@.len() - j,
    {
        if s[i + j] != k[j] {
            assert(s@.subrange(i as int, i + k@.len())[j as int] != k@[j as int]);
            return false;
        }
        j = j + 1;
    }
    assert(s@.subrange(i as int, i + k@.len()) =~= k@);
    true
}

/// `str::contains` on bytes: whether `k` occurs in `s`.
pub fn contains(s: &[u8], k: &[u8]) -> (r: bool)
    ensures
        r == contains_bytes(s@, k@),
{
    if k.len() > s.len() {
        return false;
    }
    let last: usize = s.len() - k.len();
    let mut i: usize = 0;
    while i < last
        invariant
            i <= last,
            last == s@.len() - k@.len(),
            forall|j: int| 0 <= j < i ==> !occurs_at(s@, k@, j),
        decreases last - i,
    {
        if occurs_at_exec(s, k, i) {
            return true;
        }
        i = i + 1;
    }
    if occurs_at_exec(s, k, last) {
        return true;
    }
    assert forall|j: int| !occurs_at(s@, k@, j) by {
        if 0 <= j && j + k@.len() <= s@.len() {
            assert(j <= last);
        }
    }
    false
}

/// Where `last_tab` points: at a tab inside the line.
proof fn lemma_last_tab(s: Seq<u8>)
    ensures
        last_tab(s) matches Some(i) ==> 0 <= i < s.len() && s[i] == 9u8,
    decreases s.len(),
{
    if s.len() > 0 && s.last() != 9u8 {
        lemma_last_tab(s.drop_last());
    }
}

/// The position of the last tab in the line (`rsplit_once('\t')`).
fn find_last_tab(s: &[u8]) -> (r: Option<usize>)
    ensures
        match r {
            Some(i) => last_tab(s@) == Some(i as int),
            None => last_tab(s@) is None,
        },
{
    let mut n: usize = s.len();
    assert(s@.take(n as int) =~= s@);
    while n > 0
        invariant
            n <= s@.len(),
            last_tab(s@) == last_tab(s@.take(n as int)),
        decreases n,
    {
        assert(s@.take(n as int).last() == s@[n as int - 1]);
        if s[n - 1] == 9 {
            return Some(n - 1);
        }
        assert(s@.take(n as int).drop_last() =~= s@.take(n as int - 1));
        n = n - 1;
    }
    None
}

/// `str::parse::<u32>` on bytes: the number, or `None` when the bytes are not
/// an optional `+` and decimal digits, or the number does not fit.
pub fn parse_u32(v: &[u8]) -> (r: Option<u32>)
    ensures
        r is Some <==> parses_as_u32(v@),
        r matches Some(x) ==> x == digits_value(number_digits(v@)),
{
    let start: usize = if v.len() > 0 && v[0] == 43 {
        1
    } else {
        0
    };
    let ghost d = number_digits(v@);
    assert(d =~= v@.subrange(start as int, v@.len() as int));
    if start == v.len() {
        return None;
    }
    let mut acc: u32 = 0;
    let mut i: usize = start;
    while i < v.len()
        invariant
            start <= i <= v@.len(),
            d == v@.subrange(start as int, v@.len() as int),
            d == number_digits(v@),
            d.len() > 0,
            forall|j: int| 0 <= j < i - start ==> is_digit(#[trigger] d[j]),
            acc == digits_value(d.take(i - start)),
        decreases v@.len() - i,
    {
        let b = v[i];
        assert(b == d[i - start]);
        if b < 48 || b > 57 {
            return None;
        }
        proof {
            assert(d.take(i - start + 1).drop_last() =~= d.take(i - start));
        }
        let digit: u32 = (b - 48) as u32;
        let next = match acc.checked_mul(10) {
            Some(m) => m.checked_add(digit),
            None => None,
        };
        match next {
            Some(x) => {
                acc = x;
            },
            None => {
                proof {
                    assert(d.take(i - start + 1).last() == b);
                    lemma_digits_value_prefix_all(d, i - start + 1);
                }
                return None;
            },
        }
        i = i + 1;
    }
    assert(d.take(i - start) =~= d);
    Some(acc)
}

/// When every byte is a digit, no prefix of a digit string exceeds the whole.
proof fn lemma_digits_value_prefix_all(d: Seq<u8>, n: int)
    requires
        0 <= n <= d.len(),
    ensures
        (forall|i: int| 0 <= i < d.len() ==> is_digit(#[trigger] d[i])) ==> digits_value(d.take(n))
            <= digits_value(d),
{
    if forall|i: int| 0 <= i < d.len() ==> is_digit(#[trigger] d[i]) {
        lemma_digits_value_prefix(d, n);
    }
}

/// The value of a prefix of a digit string is at most the value of the whole.
proof fn lemma_digits_value_prefix(d: Seq<u8>, n: int)
    requires
        0 <= n <= d.len(),
        forall|i: int| 0 <= i < d.len() ==> is_digit(#[trigger] d[i]),
    ensures
        digits_value(d.take(n)) <= digits_value(d),
    decreases d.len() - n,
{
    if n < d.len() {
        lemma_digits_value_prefix(d, n + 1);
        assert(d.take(n + 1).drop_last() =~= d.take(n));
        assert(d.take(n + 1).last() == d[n]);
        assert(is_digit(d[n]));
        let a = digits_value(d.take(n));
        let c = (d[n] - 48) as nat;
        assert(digits_value(d.take(n + 1)) == a * 10 + c);
        assert(a <= a * 10 + c) by (nonlinear_arith)
            requires
                a >= 0,
                c >= 0,
        ;
    } else {
        assert(d.take(n) =~= d);
    }
}

/// Reads one line of `/proc/self/fdinfo/<fd>` for `key`: `None` when the line
/// does not hold the key, else the number after the line's last tab.
pub fn fdinfo_line_value(line: &[u8], key: &[u8]) -> (r: Option<u32>)
    requires
        fdinfo_line_readable(line@, key@),
    ensures
        r is Some <==> contains_bytes(line@, key@),
        r matches Some(v) ==> v == digits_value(number_digits(after_last_tab(line@))),
{
    if !contains(line, key) {
        return None;
    }
    proof {
        lemma_last_tab(line@);
    }
    let tab = match find_last_tab(line) {
        Some(t) => t,
        None => {
            return None;
        },
    };
    let len: usize = line.len();
    assert(tab < len);
    let value = vstd::slice::slice_subrange(line, tab + 1, len);
    parse_u32(value)
}

/// Whether `fdinfo_line_value` can read the line for `key`.
pub fn fdinfo_line_is_readable(line: &[u8], key: &[u8]) -> (r: bool)
    ensures
        r == fdinfo_line_readable(line@, key@),
{
    if !contains(line, key) {
        return true;
    }
    proof {
        lemma_last_tab(line@);
    }
    match find_last_tab(line) {
        None => false,
        Some(tab) => {
            let len: usize = line.len();
            let value = vstd::slice::slice_subrange(line, tab + 1, len);
            parse_u32(value).is_some()
        },
    }
}

} // verus!
