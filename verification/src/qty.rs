//! The quantity-nonzero predicate: a reported quantity string counts as an
//! open amount only if it is a well-formed decimal number whose magnitude
//! exceeds the reporting epsilon of 1e-12. The test is sign-agnostic and
//! done in exact decimal arithmetic on the digit string.
//!
//! Accepted shape, after trimming ASCII whitespace: an optional `+` or `-`
//! sign, then decimal digits with at most one `.`, and at least one digit.
//! Anything else (empty, `"abc"`, a lone `.`) is not a quantity and counts
//! as zero.

use vstd::prelude::*;
use vstd::string::StrSliceExecFns;

verus! {

pub open spec fn is_digit(c: char) -> bool {
    48 <= c as int && c as int <= 57
}

pub open spec fn digit_val(c: char) -> int {
    c as int - 48
}

/// ASCII whitespace, as trimmed from both ends of a quantity string.
pub open spec fn is_space(c: char) -> bool {
    c == ' ' || c == '\t' || c == '\n' || c == '\r' || c as int == 11 || c as int == 12
}

pub open spec fn trim_start(s: Seq<char>) -> Seq<char>
    decreases s.len(),
{
    if s.len() > 0 && is_space(s[0]) {
        trim_start(s.drop_first())
    } else {
        s
    }
}

pub open spec fn trim_end(s: Seq<char>) -> Seq<char>
    decreases s.len(),
{
    if s.len() > 0 && is_space(s.last()) {
        trim_end(s.drop_last())
    } else {
        s
    }
}

pub open spec fn trimmed(s: Seq<char>) -> Seq<char> {
    trim_end(trim_start(s))
}

/// Drops one leading sign character, if present.
pub open spec fn strip_sign(t: Seq<char>) -> Seq<char> {
    if t.len() > 0 && (t[0] == '+' || t[0] == '-') {
        t.drop_first()
    } else {
        t
    }
}

/// Index of the first `.` in `u`, or `u.len()` if there is none.
pub open spec fn dot_index(u: Seq<char>) -> int
    decreases u.len(),
{
    if u.len() == 0 {
        0
    } else if u[0] == '.' {
        0
    } else {
        1 + dot_index(u.drop_first())
    }
}

pub open spec fn digits_only(s: Seq<char>) -> bool {
    forall|i: int| 0 <= i < s.len() ==> is_digit(#[trigger] s[i])
}

/// The integer part of `u` (before the first dot, or all of it).
pub open spec fn int_part(u: Seq<char>) -> Seq<char> {
    u.subrange(0, dot_index(u))
}

/// The fractional part of `u` (after the first dot), empty if no dot.
pub open spec fn frac_part(u: Seq<char>) -> Seq<char> {
    if dot_index(u) == u.len() {
        Seq::empty()
    } else {
        u.skip(dot_index(u) + 1)
    }
}

/// `u` is a well-formed unsigned decimal: digits with at most one dot and
/// at least one digit.
pub open spec fn wf_unsigned(u: Seq<char>) -> bool {
    &&& u.len() >= 1
    &&& digits_only(int_part(u))
    &&& (dot_index(u) == u.len() || (u.len() >= 2 && digits_only(frac_part(u))))
}

pub open spec fn has_nonzero_digit(s: Seq<char>) -> bool {
    exists|i: int| 0 <= i < s.len() && #[trigger] s[i] != '0'
}

/// The value of a digit string read as a base-10 integer.
pub open spec fn digits_val(s: Seq<char>) -> int
    decreases s.len(),
{
    if s.len() == 0 {
        0
    } else {
        digits_val(s.drop_last()) * 10 + digit_val(s.last())
    }
}

pub open spec fn pow10(n: nat) -> int
    decreases n,
{
    if n == 0 {
        1
    } else {
        10 * pow10((n - 1) as nat)
    }
}

/// The fractional digit string `f` denotes a value strictly above 1e-12.
/// With fewer than twelve digits any nonzero digit suffices; otherwise the
/// first twelve digits must exceed one, or equal one with a nonzero digit
/// somewhere beyond them.
pub open spec fn frac_exceeds_eps(f: Seq<char>) -> bool {
    if f.len() < 12 {
        digits_val(f) >= 1
    } else {
        ||| digits_val(f.subrange(0, 12)) >= 2
        ||| (digits_val(f.subrange(0, 12)) == 1 && has_nonzero_digit(f.skip(12)))
    }
}

/// The magnitude test of the quantity-nonzero predicate: a well-formed
/// unsigned decimal exceeds 1e-12 exactly when its integer part has a
/// nonzero digit or its fractional part exceeds the epsilon.
pub open spec fn exceeds_eps(u: Seq<char>) -> bool {
    has_nonzero_digit(int_part(u)) || frac_exceeds_eps(frac_part(u))
}

/// The quantity-nonzero predicate over a raw quantity string.
pub open spec fn spec_nonzero_qty(s: Seq<char>) -> bool {
    let u = strip_sign(trimmed(s));
    wf_unsigned(u) && exceeds_eps(u)
}

/// `dot_index` is the first dot: it is characterized by what precedes it.
proof fn lemma_dot_index_is(u: Seq<char>, k: int)
    requires
        0 <= k <= u.len(),
        forall|i: int| 0 <= i < k ==> #[trigger] u[i] != '.',
        k == u.len() || u[k] == '.',
    ensures
        dot_index(u) == k,
    decreases u.len(),
{
    if u.len() == 0 {
    } else if u[0] == '.' {
        assert(k == 0);
    } else {
        assert(k >= 1);
        let v = u.drop_first();
        assert(forall|i: int| 0 <= i < k - 1 ==> #[trigger] v[i] != '.');
        lemma_dot_index_is(v, k - 1);
    }
}

/// A digit string's value is below `pow10` of its length.
proof fn lemma_digits_val_bound(s: Seq<char>)
    requires
        digits_only(s),
    ensures
        0 <= digits_val(s) < pow10(s.len()),
    decreases s.len(),
{
    if s.len() > 0 {
        let d = s.drop_last();
        assert(digits_only(d));
        lemma_digits_val_bound(d);
        assert(is_digit(s.last()));
    }
}

fn is_space_c(c: char) -> (r: bool)
    ensures
        r == is_space(c),
{
    c == ' ' || c == '\t' || c == '\n' || c == '\r' || (c as u32) == 11 || (c as u32) == 12
}

fn is_digit_c(c: char) -> (r: bool)
    ensures
        r == is_digit(c),
{
    let v = c as u32;
    48 <= v && v <= 57
}

/// Whether `s@[from..to]` is all digits.
fn all_digits_range(s: &str, from: usize, to: usize) -> (r: bool)
    requires
        from <= to <= s@.len(),
    ensures
        r == digits_only(s@.subrange(from as int, to as int)),
{
    let mut i: usize = from;
    while i < to
        invariant
            from <= i <= to <= s@.len(),
            forall|j: int| from <= j < i ==> is_digit(#[trigger] s@[j]),
        decreases to - i,
    {
        if !is_digit_c(s.get_char(i)) {
            assert(s@.subrange(from as int, to as int)[i - from] == s@[i as int]);
            return false;
        }
        i = i + 1;
    }
    proof {
        assert forall|j: int| 0 <= j < to - from implies is_digit(
            #[trigger] s@.subrange(from as int, to as int)[j],
        ) by {
            assert(s@.subrange(from as int, to as int)[j] == s@[from + j]);
        }
    }
    true
}

/// Whether `s@[from..to]` holds a character other than `'0'`.
fn has_nonzero_range(s: &str, from: usize, to: usize) -> (r: bool)
    requires
        from <= to <= s@.len(),
    ensures
        r == has_nonzero_digit(s@.subrange(from as int, to as int)),
{
    let mut i: usize = from;
    while i < to
        invariant
            from <= i <= to <= s@.len(),
            forall|j: int| from <= j < i ==> #[trigger] s@[j] == '0',
        decreases to - i,
    {
        let c = s.get_char(i);
        if c != '0' {
            assert(s@.subrange(from as int, to as int)[i - from] == s@[i as int]);
            return true;
        }
        i = i + 1;
    }
    proof {
        assert forall|j: int| 0 <= j < to - from implies #[trigger] s@.subrange(
            from as int,
            to as int,
        )[j] == '0' by {
            assert(s@.subrange(from as int, to as int)[j] == s@[from + j]);
        }
    }
    false
}

/// The base-10 value of the digit range `s@[from..to]`, at most 12 digits.
fn digits_val_range(s: &str, from: usize, to: usize) -> (v: u64)
    requires
        from <= to <= s@.len(),
        to - from <= 12,
        digits_only(s@.subrange(from as int, to as int)),
    ensures
        v == digits_val(s@.subrange(from as int, to as int)),
{
    proof {
        reveal_with_fuel(pow10, 13);
    }
    let mut i: usize = from;
    let mut v: u64 = 0;
    while i < to
        invariant
            from <= i <= to <= s@.len(),
            to - from <= 12,
            digits_only(s@.subrange(from as int, to as int)),
            v == digits_val(s@.subrange(from as int, i as int)),
            0 <= v < pow10((i - from) as nat),
            pow10(12) == 1000000000000,
        decreases to - i,
    {
        let c = s.get_char(i);
        proof {
            assert(s@.subrange(from as int, to as int)[i - from] == s@[i as int]);
            assert(is_digit(s@[i as int]));
            let prev = s@.subrange(from as int, i as int);
            let next = s@.subrange(from as int, i + 1);
            assert(next.drop_last() =~= prev);
            assert(next.last() == s@[i as int]);
            assert(pow10(((i - from) + 1) as nat) == 10 * pow10((i - from) as nat));
            lemma_pow10_mono((i + 1 - from) as nat, 12);
        }
        let d: u64 = (c as u32 as u64) - 48;
        v = v * 10 + d;
        i = i + 1;
    }
    proof {
        assert(s@.subrange(from as int, i as int) =~= s@.subrange(from as int, to as int));
    }
    v
}

proof fn lemma_pow10_mono(a: nat, b: nat)
    requires
        a <= b,
    ensures
        pow10(a) <= pow10(b),
    decreases b,
{
    if a < b {
        lemma_pow10_mono(a, (b - 1) as nat);
        assert(pow10(b) == 10 * pow10((b - 1) as nat));
        assert(pow10(a) >= 1) by {
            lemma_pow10_pos(a);
        }
    }
}

proof fn lemma_pow10_pos(a: nat)
    ensures
        pow10(a) >= 1,
    decreases a,
{
    if a > 0 {
        lemma_pow10_pos((a - 1) as nat);
    }
}

/// Whether the quantity string `q` reports a magnitude above 1e-12.
///
/// `"0"`, `"0.0"`, `"0.000000"`, the empty string and non-numeric text all
/// count as zero; any well-formed decimal above the epsilon, of either
/// sign, counts as nonzero.
#[verifier::rlimit(50)]
pub fn is_nonzero_qty(q: &str) -> (r: bool)
    ensures
        r == spec_nonzero_qty(q@),
{
    let len = q.unicode_len();
    // Trim leading and trailing whitespace.
    let mut lo: usize = 0;
    proof {
        assert(q@.skip(0) =~= q@);
    }
    while lo < len && is_space_c(q.get_char(lo))
        invariant
            0 <= lo <= len,
            len == q@.len(),
            trim_start(q@) == trim_start(q@.skip(lo as int)),
        decreases len - lo,
    {
        proof {
            assert(q@.skip(lo as int)[0] == q@[lo as int]);
            assert(q@.skip(lo as int).drop_first() =~= q@.skip(lo + 1));
        }
        lo = lo + 1;
    }
    proof {
        assert(q@.skip(0) =~= q@);
        if lo < len {
            assert(q@.skip(lo as int)[0] == q@[lo as int]);
        }
        assert(trim_start(q@) == q@.skip(lo as int));
        assert(q@.skip(lo as int) =~= q@.subrange(lo as int, len as int));
    }
    let mut hi: usize = len;
    while hi > lo && is_space_c(q.get_char(hi - 1))
        invariant
            lo <= hi <= len,
            len == q@.len(),
            trim_start(q@) == q@.subrange(lo as int, len as int),
            trim_end(q@.subrange(lo as int, len as int)) == trim_end(
                q@.subrange(lo as int, hi as int),
            ),
        decreases hi,
    {
        proof {
            let cur = q@.subrange(lo as int, hi as int);
            assert(cur.last() == q@[hi - 1]);
            assert(cur.drop_last() =~= q@.subrange(lo as int, hi - 1));
        }
        hi = hi - 1;
    }
    proof {
        let cur = q@.subrange(lo as int, hi as int);
        if hi > lo {
            assert(cur.last() == q@[hi - 1]);
        }
        assert(trimmed(q@) == q@.subrange(lo as int, hi as int));
    }
    // Strip one sign character.
    let ulo: usize = if hi > lo {
        let c0 = q.get_char(lo);
        if c0 == '+' || c0 == '-' {
            proof {
                let t = q@.subrange(lo as int, hi as int);
                assert(t[0] == q@[lo as int]);
                assert(t.drop_first() =~= q@.subrange(lo + 1, hi as int));
            }
            lo + 1
        } else {
            lo
        }
    } else {
        lo
    };
    proof {
        let t = q@.subrange(lo as int, hi as int);
        if t.len() > 0 {
            assert(t[0] == q@[lo as int]);
        }
        assert(strip_sign(trimmed(q@)) == q@.subrange(ulo as int, hi as int));
    }
    let ghost u = q@.subrange(ulo as int, hi as int);
    if ulo == hi {
        // Empty after trimming and sign stripping: not a number.
        assert(!wf_unsigned(u));
        return false;
    }
    // Locate the first dot.
    let mut d: usize = ulo;
    while d < hi && q.get_char(d) != '.'
        invariant
            ulo <= d <= hi <= len,
            len == q@.len(),
            u == q@.subrange(ulo as int, hi as int),
            forall|j: int| ulo <= j < d ==> #[trigger] q@[j] != '.',
        decreases hi - d,
    {
        d = d + 1;
    }
    proof {
        assert forall|i: int| 0 <= i < d - ulo implies #[trigger] u[i] != '.' by {
            assert(u[i] == q@[ulo + i]);
        }
        if d < hi {
            assert(u[d - ulo] == q@[d as int]);
        }
        lemma_dot_index_is(u, d - ulo);
        assert(int_part(u) =~= q@.subrange(ulo as int, d as int));
    }
    // Well-formedness: digits around at most one dot, at least one digit.
    if !all_digits_range(q, ulo, d) {
        return false;
    }
    if d == hi {
        // No dot: all digits.
        return has_nonzero_range(q, ulo, hi);
    }
    proof {
        assert(frac_part(u) =~= q@.subrange(d + 1, hi as int));
    }
    if hi - ulo < 2 {
        // A lone dot.
        assert(!wf_unsigned(u));
        return false;
    }
    if !all_digits_range(q, d + 1, hi) {
        return false;
    }
    assert(wf_unsigned(u));
    if has_nonzero_range(q, ulo, d) {
        return true;
    }
    // The integer part is all zeros; decide by the fractional digits.
    let flen = hi - (d + 1);
    if flen < 12 {
        let v = digits_val_range(q, d + 1, hi);
        assert(q@.subrange(d + 1, hi as int) =~= frac_part(u));
        v >= 1
    } else {
        proof {
            assert(frac_part(u).subrange(0, 12) =~= q@.subrange(d + 1, d + 13));
            assert(frac_part(u).skip(12) =~= q@.subrange(d + 13, hi as int));
        }
        let v = digits_val_range(q, d + 1, d + 13);
        if v >= 2 {
            true
        } else if v == 1 {
            has_nonzero_range(q, d + 13, hi)
        } else {
            false
        }
    }
}

} // verus!
