//! Extraction of the `max-age` directive from a `Cache-Control` header.
//!
//! The header is split on commas; the first directive that, once its
//! leading whitespace is dropped, starts with `max-age=` is selected,
//! and the text between the first and second `=` of that directive is
//! read as an unsigned decimal number. A malformed value yields no
//! max-age at all (the caller then falls back to its default).

use vstd::prelude::*;
use vstd::utf8::encode_utf8;

verus! {

/// The ASCII whitespace bytes that `str::trim` removes.
pub open spec fn ws_byte(b: u8) -> bool {
    b == 0x20 || (0x09 <= b && b <= 0x0d)
}

/// An ASCII decimal digit.
pub open spec fn digit_byte(b: u8) -> bool {
    0x30 <= b && b <= 0x39
}

/// The number denoted by a string of decimal digits (most significant
/// first).
pub open spec fn digits_val(s: Seq<u8>) -> int
    decreases s.len(),
{
    if s.len() == 0 {
        0
    } else {
        digits_val(s.drop_last()) * 10 + (s.last() - 0x30)
    }
}

pub open spec fn all_digits(s: Seq<u8>) -> bool {
    forall|i: int| 0 <= i < s.len() ==> digit_byte(#[trigger] s[i])
}

/// What `u64::from_str` accepts: an optional leading `+`, then at
/// least one digit, with a value that fits in 64 bits.
pub open spec fn spec_parse_u64(s: Seq<u8>) -> Option<u64> {
    let t = if s.len() > 0 && s[0] == 0x2b {
        s.drop_first()
    } else {
        s
    };
    if t.len() > 0 && all_digits(t) && digits_val(t) <= u64::MAX {
        Some(digits_val(t) as u64)
    } else {
        None
    }
}

/// The first position of `b` in `s[from..to]`, or `to` when absent.
pub open spec fn find_byte(s: Seq<u8>, b: u8, from: int, to: int) -> int
    decreases to - from,
{
    if from >= to {
        to
    } else if s[from] == b {
        from
    } else {
        find_byte(s, b, from + 1, to)
    }
}

/// The first position in `s[from..to]` holding a non-whitespace byte,
/// or `to` when there is none.
pub open spec fn skip_ws(s: Seq<u8>, from: int, to: int) -> int
    decreases to - from,
{
    if from >= to {
        to
    } else if ws_byte(s[from]) {
        skip_ws(s, from + 1, to)
    } else {
        from
    }
}

/// The bytes of `max-age=`.
pub open spec fn max_age_key() -> Seq<u8> {
    seq![0x6d, 0x61, 0x78, 0x2d, 0x61, 0x67, 0x65, 0x3d]
}

/// True when the directive `s[i..j]`, after its leading whitespace,
/// starts with `max-age=`.
pub open spec fn directive_matches(s: Seq<u8>, i: int, j: int) -> bool {
    let k = skip_ws(s, i, j);
    j - k >= 8 && s.subrange(k, k + 8) == max_age_key()
}

/// The number carried by a matching directive `s[i..j]`: the text
/// between its first and second `=` read as decimal.
pub open spec fn directive_value(s: Seq<u8>, i: int, j: int) -> Option<u64> {
    let e1 = find_byte(s, 0x3d, i, j);
    if e1 >= j {
        None
    } else {
        let e2 = find_byte(s, 0x3d, e1 + 1, j);
        spec_parse_u64(s.subrange(e1 + 1, e2))
    }
}

/// Scans the comma-separated directives of `s` from position `i` for
/// the first one matching `max-age=`, and yields its value.
pub open spec fn scan_directives(s: Seq<u8>, i: int) -> Option<u64>
    decreases s.len() - i,
        when 0 <= i <= s.len()
        via scan_directives_decreases
{
    let j = find_byte(s, 0x2c, i, s.len() as int);
    if directive_matches(s, i, j) {
        directive_value(s, i, j)
    } else if j >= s.len() {
        None
    } else {
        scan_directives(s, j + 1)
    }
}

#[via_fn]
proof fn scan_directives_decreases(s: Seq<u8>, i: int) {
    lemma_find_byte_bounds(s, 0x2c, i, s.len() as int);
}

/// The max-age carried by a whole `Cache-Control` header, when one is
/// present and well formed.
pub open spec fn spec_parse_cache_control(s: Seq<u8>) -> Option<u64> {
    scan_directives(s, 0)
}

proof fn lemma_find_byte_bounds(s: Seq<u8>, b: u8, from: int, to: int)
    requires
        from <= to,
    ensures
        from <= find_byte(s, b, from, to) <= to,
    decreases to - from,
{
    if from < to && s[from] != b {
        lemma_find_byte_bounds(s, b, from + 1, to);
    }
}

proof fn lemma_skip_ws_bounds(s: Seq<u8>, from: int, to: int)
    requires
        from <= to,
    ensures
        from <= skip_ws(s, from, to) <= to,
    decreases to - from,
{
    if from < to && ws_byte(s[from]) {
        lemma_skip_ws_bounds(s, from + 1, to);
    }
}

/// Where `b` occurs in `s[from..to]`, the scan stops at or before that
/// occurrence, on a `b`.
proof fn lemma_find_byte_found(s: Seq<u8>, b: u8, from: int, to: int, m: int)
    requires
        from <= m < to,
        s[m] == b,
    ensures
        find_byte(s, b, from, to) <= m,
        s[find_byte(s, b, from, to)] == b,
    decreases to - from,
{
    if s[from] != b {
        lemma_find_byte_found(s, b, from + 1, to, m);
    }
}

proof fn lemma_digits_val_nonneg(s: Seq<u8>)
    requires
        all_digits(s),
    ensures
        digits_val(s) >= 0,
    decreases s.len(),
{
    if s.len() > 0 {
        assert forall|i: int| 0 <= i < s.drop_last().len() implies digit_byte(
            #[trigger] s.drop_last()[i],
        ) by {
            assert(s.drop_last()[i] == s[i]);
        }
        lemma_digits_val_nonneg(s.drop_last());
    }
}

/// Reading more digits never makes the value smaller.
proof fn lemma_digits_val_monotone(t: Seq<u8>, j: int, k: int)
    requires
        0 <= j <= k <= t.len(),
        all_digits(t),
    ensures
        digits_val(t.take(k)) >= digits_val(t.take(j)),
    decreases k - j,
{
    if j < k {
        lemma_digits_val_monotone(t, j, k - 1);
        assert(t.take(k).drop_last() =~= t.take(k - 1));
        assert(digit_byte(t[k - 1]));
        assert forall|i: int| 0 <= i < t.take(k - 1).len() implies digit_byte(
            #[trigger] t.take(k - 1)[i],
        ) by {
            assert(t.take(k - 1)[i] == t[i]);
        }
        lemma_digits_val_nonneg(t.take(k - 1));
        assert(t.take(k).last() == t[k - 1]);
        assert(digits_val(t.take(k)) == digits_val(t.take(k - 1)) * 10 + (t[k - 1] - 0x30));
    }
}

fn find_byte_exec(s: &[u8], b: u8, from: usize, to: usize) -> (r: usize)
    requires
        from <= to <= s@.len(),
    ensures
        r == find_byte(s@, b, from as int, to as int),
        from <= r <= to,
    decreases to - from,
{
    if from >= to {
        to
    } else if s[from] == b {
        from
    } else {
        find_byte_exec(s, b, from + 1, to)
    }
}

fn skip_ws_exec(s: &[u8], from: usize, to: usize) -> (r: usize)
    requires
        from <= to <= s@.len(),
    ensures
        r == skip_ws(s@, from as int, to as int),
        from <= r <= to,
    decreases to - from,
{
    if from >= to {
        to
    } else {
        let c = s[from];
        if c == 0x20 || (0x09 <= c && c <= 0x0d) {
            skip_ws_exec(s, from + 1, to)
        } else {
            from
        }
    }
}

/// Reads `s[start..end]` the way `u64::from_str` would.
#[verifier::loop_isolation(false)]
fn parse_u64_digits(s: &[u8], start: usize, end: usize) -> (r: Option<u64>)
    requires
        start <= end <= s@.len(),
    ensures
        r == spec_parse_u64(s@.subrange(start as int, end as int)),
{
    let ghost whole = s@.subrange(start as int, end as int);
    let mut i = start;
    if i < end && s[i] == 0x2b {
        i = i + 1;
    }
    let ghost t = s@.subrange(i as int, end as int);
    proof {
        if whole.len() > 0 && whole[0] == 0x2b {
            assert(t =~= whole.drop_first());
        } else {
            assert(t =~= whole);
        }
    }
    if i == end {
        return None;
    }
    let mut acc: u64 = 0;
    let mut j = i;
    proof {
        assert(t.take(0) =~= Seq::<u8>::empty());
    }
    while j < end
        invariant
            i <= j <= end <= s@.len(),
            t == s@.subrange(i as int, end as int),
            t.len() == end - i,
            all_digits(t.take(j - i)),
            acc == digits_val(t.take(j - i)),
        decreases end - j,
    {
        let b = s[j];
        proof {
            assert(t[j - i] == b);
        }
        if b < 0x30 || b > 0x39 {
            proof {
                assert(!digit_byte(t[j - i]));
            }
            return None;
        }
        let d = (b - 0x30) as u64;
        proof {
            assert(t.take(j - i + 1).drop_last() =~= t.take(j - i));
            assert(t.take(j - i + 1).last() == b);
            assert(digits_val(t.take(j - i + 1)) == acc * 10 + d);
            assert forall|m: int| 0 <= m < t.take(j - i + 1).len() implies digit_byte(
                #[trigger] t.take(j - i + 1)[m],
            ) by {
                if m < j - i {
                    assert(t.take(j - i + 1)[m] == t.take(j - i)[m]);
                } else {
                    assert(t.take(j - i + 1)[m] == b);
                }
            }
        }
        if acc > (u64::MAX - d) / 10 {
            proof {
                assert(acc * 10 + d > u64::MAX);
                if all_digits(t) {
                    lemma_digits_val_monotone(t, j - i + 1, t.len() as int);
                    assert(t.take(t.len() as int) =~= t);
                    assert(digits_val(t) > u64::MAX);
                }
            }
            return None;
        }
        acc = acc * 10 + d;
        j = j + 1;
    }
    proof {
        assert(t.take((end - i) as int) =~= t);
    }
    Some(acc)
}

/// True when the directive `s[i..j]` carries the `max-age=` key after
/// optional leading whitespace.
fn directive_matches_exec(s: &[u8], i: usize, j: usize) -> (r: bool)
    requires
        i <= j <= s@.len(),
    ensures
        r == directive_matches(s@, i as int, j as int),
{
    let k = skip_ws_exec(s, i, j);
    if j - k >= 8 {
        let eq = s[k] == 0x6d && s[k + 1] == 0x61 && s[k + 2] == 0x78 && s[k + 3] == 0x2d && s[k
            + 4] == 0x61 && s[k + 5] == 0x67 && s[k + 6] == 0x65 && s[k + 7] == 0x3d;
        proof {
            let sub = s@.subrange(k as int, k + 8);
            if eq {
                assert(sub =~= max_age_key());
            } else {
                assert(sub[0] == s@[k as int] && sub[1] == s@[k + 1] && sub[2] == s@[k + 2] && sub[3]
                    == s@[k + 3] && sub[4] == s@[k + 4] && sub[5] == s@[k + 5] && sub[6] == s@[k + 6]
                    && sub[7] == s@[k + 7]);
                assert(sub != max_age_key());
            }
        }
        eq
    } else {
        false
    }
}

/// The `max-age` value of the given `Cache-Control` header text, when
/// the first `max-age=` directive carries a well-formed number.
pub fn parse_cache_control(s: &str) -> (r: Option<u64>)
    ensures
        r == spec_parse_cache_control(encode_utf8(s@)),
{
    let bytes = s.as_bytes();
    let n = bytes.len();
    let mut i: usize = 0;
    loop
        invariant
            i <= n,
            n == bytes@.len(),
            bytes@ == encode_utf8(s@),
            scan_directives(bytes@, 0) == scan_directives(bytes@, i as int),
        decreases n - i,
    {
        let j = find_byte_exec(bytes, 0x2c, i, n);
        if directive_matches_exec(bytes, i, j) {
            proof {
                let k = skip_ws(bytes@, i as int, j as int);
                lemma_skip_ws_bounds(bytes@, i as int, j as int);
                assert(bytes@[k + 7] == max_age_key()[7]);
                lemma_find_byte_found(bytes@, 0x3d, i as int, j as int, k + 7);
            }
            let e1 = find_byte_exec(bytes, 0x3d, i, j);
            let e2 = find_byte_exec(bytes, 0x3d, e1 + 1, j);
            return parse_u64_digits(bytes, e1 + 1, e2);
        } else if j >= n {
            return None;
        } else {
            i = j + 1;
        }
    }
}

} // verus!
