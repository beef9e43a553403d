//! The steam2 and steam3 texts whose number groups do not fit the integers that
//! `SteamID::try_from` reads them into. Such a text has the shape of an
//! identifier, yet no identifier can be made of it.
use crate::codec::{decimal_value, is_digit};
use vstd::prelude::*;
use vstd::string::StrSliceExecFns;

verus! {

/// `s[from..to]` is a non-empty run of decimal digits.
pub open spec fn digits_in(s: Seq<char>, from: int, to: int) -> bool {
    &&& 0 <= from < to <= s.len()
    &&& forall|i: int| from <= i < to ==> is_digit(#[trigger] s[i])
}

/// The steam2 shape `STEAM_<0-4>:<0-1>:<1 to 10 digits>`.
pub open spec fn is_steam2_shape(s: Seq<char>) -> bool {
    &&& 10 < s.len() <= 20
    &&& s[0] == 'S' && s[1] == 'T' && s[2] == 'E' && s[3] == 'A' && s[4] == 'M' && s[5] == '_'
    &&& '0' <= s[6] <= '4'
    &&& s[7] == ':'
    &&& '0' <= s[8] <= '1'
    &&& s[9] == ':'
    &&& digits_in(s, 10, s.len() as int)
}

/// The account-type letters of the steam3 form.
pub open spec fn is_steam3_type(c: char) -> bool {
    c == 'A' || c == 'G' || c == 'M' || c == 'P' || c == 'C' || c == 'g' || c == 'c' || c == 'L'
        || c == 'T' || c == 'I' || c == 'U' || c == 'a' || c == 'i'
}

/// The steam3 shape `[<type>:<0-4>:<1 to 10 digits>]` or
/// `[<type>:<0-4>:<1 to 10 digits>:<digits>]`, with the account digits ending at `k`.
pub open spec fn is_steam3_shape_at(s: Seq<char>, k: int) -> bool {
    &&& s.len() > 0
    &&& s[0] == '[' && is_steam3_type(s[1]) && s[2] == ':' && '0' <= s[3] <= '4' && s[4] == ':'
    &&& k - 5 <= 10
    &&& digits_in(s, 5, k)
    &&& k < s.len()
    &&& s.last() == ']'
    &&& (k == s.len() - 1 || (s[k] == ':' && digits_in(s, k + 1, s.len() - 1)))
}

/// A steam2 text whose account number needs more than 32 bits.
pub open spec fn steam2_overflows(s: Seq<char>) -> bool {
    is_steam2_shape(s) && decimal_value(s.subrange(10, s.len() as int)) > u32::MAX
}

/// A steam3 text whose account number needs more than 32 bits, or whose
/// instance number needs more than 64.
pub open spec fn steam3_overflows(s: Seq<char>) -> bool {
    exists|k: int|
        #[trigger] is_steam3_shape_at(s, k) && (decimal_value(s.subrange(5, k)) > u32::MAX || (k
            < s.len() - 1 && decimal_value(s.subrange(k + 1, s.len() - 1)) > u64::MAX))
}

/// The texts on which `SteamID::try_from` panics: it unwraps the parse of each
/// number group into a `u32` (account) or `u64` (instance).
pub open spec fn try_from_panics(s: Seq<char>) -> bool {
    steam2_overflows(s) || steam3_overflows(s)
}

proof fn lemma_prefix_value_le(t: Seq<char>, j: int)
    requires
        0 <= j <= t.len(),
        forall|i: int| 0 <= i < t.len() ==> is_digit(#[trigger] t[i]),
    ensures
        decimal_value(t.subrange(0, j)) <= decimal_value(t),
    decreases t.len(),
{
    if j < t.len() {
        let u = t.drop_last();
        assert forall|i: int| 0 <= i < u.len() implies is_digit(#[trigger] u[i]) by {
            assert(u[i] == t[i]);
        }
        lemma_prefix_value_le(u, j);
        assert(u.subrange(0, j) =~= t.subrange(0, j));
        assert(is_digit(t[t.len() - 1]));
    } else {
        assert(t.subrange(0, j) =~= t);
    }
}

proof fn lemma_steam3_account_end(s: Seq<char>, k: int, k2: int)
    requires
        5 <= k <= s.len(),
        forall|i: int| 5 <= i < k ==> is_digit(#[trigger] s[i]),
        k == s.len() || !is_digit(s[k]),
        is_steam3_shape_at(s, k2),
    ensures
        k2 == k,
{
    if k2 < k {
        assert(is_digit(s[k2]));
    } else if k2 > k {
        assert(is_digit(s[k]));
    }
}

fn is_digit_char(c: char) -> (r: bool)
    ensures
        r == is_digit(c),
{
    '0' <= c && c <= '9'
}

/// Whether the digits `s[from..to]` denote a number above `bound`.
fn digits_exceed(s: &str, from: usize, to: usize, bound: u64) -> (r: bool)
    requires
        digits_in(s@, from as int, to as int),
    ensures
        r == (decimal_value(s@.subrange(from as int, to as int)) > bound),
{
    let mut acc: u64 = 0;
    let mut i: usize = from;
    assert(s@.subrange(from as int, from as int) =~= Seq::<char>::empty());
    while i < to
        invariant
            from <= i <= to,
            digits_in(s@, from as int, to as int),
            acc == decimal_value(s@.subrange(from as int, i as int)),
            acc <= bound,
        decreases to - i,
    {
        let c = s.get_char(i);
        assert(is_digit(s@[i as int]));
        let d: u32 = c as u32 - 48;
        let next: u128 = acc as u128 * 10 + d as u128;
        assert(s@.subrange(from as int, i + 1).drop_last() =~= s@.subrange(from as int, i as int));
        assert(next == decimal_value(s@.subrange(from as int, i + 1)));
        if next > bound as u128 {
            proof {
                let t = s@.subrange(from as int, to as int);
                assert forall|j: int| 0 <= j < t.len() implies is_digit(#[trigger] t[j]) by {
                    assert(t[j] == s@[from + j]);
                }
                lemma_prefix_value_le(t, i + 1 - from);
                assert(t.subrange(0, i + 1 - from) =~= s@.subrange(from as int, i + 1));
            }
            return true;
        }
        acc = next as u64;
        i = i + 1;
    }
    false
}

/// Whether every character of `s[from..to]` is a digit.
fn all_digits(s: &str, from: usize, to: usize) -> (r: bool)
    requires
        from <= to <= s@.len(),
    ensures
        r == forall|i: int| from <= i < to ==> is_digit(#[trigger] s@[i]),
{
    let mut i: usize = from;
    while i < to
        invariant
            from <= i <= to <= s@.len(),
            forall|j: int| from <= j < i ==> is_digit(#[trigger] s@[j]),
        decreases to - i,
    {
        if !is_digit_char(s.get_char(i)) {
            return false;
        }
        i = i + 1;
    }
    true
}

fn is_steam2_overflow(s: &str) -> (r: bool)
    ensures
        r == steam2_overflows(s@),
{
    let n = s.unicode_len();
    if n <= 10 || n > 20 {
        return false;
    }
    if !(s.get_char(0) == 'S' && s.get_char(1) == 'T' && s.get_char(2) == 'E' && s.get_char(3)
        == 'A' && s.get_char(4) == 'M' && s.get_char(5) == '_') {
        return false;
    }
    let c6 = s.get_char(6);
    let c8 = s.get_char(8);
    if !('0' <= c6 && c6 <= '4' && s.get_char(7) == ':' && '0' <= c8 && c8 <= '1' && s.get_char(9)
        == ':') {
        return false;
    }
    if !all_digits(s, 10, n) {
        return false;
    }
    digits_exceed(s, 10, n, 0xffff_ffff)
}

fn is_steam3_overflow(s: &str) -> (r: bool)
    ensures
        r == steam3_overflows(s@),
{
    let n = s.unicode_len();
    if n < 7 {
        return false;
    }
    let c1 = s.get_char(1);
    let c3 = s.get_char(3);
    let type_ok = c1 == 'A' || c1 == 'G' || c1 == 'M' || c1 == 'P' || c1 == 'C' || c1 == 'g' || c1
        == 'c' || c1 == 'L' || c1 == 'T' || c1 == 'I' || c1 == 'U' || c1 == 'a' || c1 == 'i';
    if !(s.get_char(0) == '[' && type_ok && s.get_char(2) == ':' && '0' <= c3 && c3 <= '4'
        && s.get_char(4) == ':' && s.get_char(n - 1) == ']') {
        return false;
    }
    let mut k: usize = 5;
    while k < n && is_digit_char(s.get_char(k))
        invariant
            5 <= k <= n,
            n == s@.len(),
            forall|j: int| 5 <= j < k ==> is_digit(#[trigger] s@[j]),
        decreases n - k,
    {
        k = k + 1;
    }
    assert forall|k2: int| is_steam3_shape_at(s@, k2) implies k2 == k by {
        lemma_steam3_account_end(s@, k as int, k2);
    }
    if k == 5 || k - 5 > 10 || k >= n {
        return false;
    }
    if k == n - 1 {
        let r = digits_exceed(s, 5, k, 0xffff_ffff);
        assert(is_steam3_shape_at(s@, k as int));
        return r;
    }
    if s.get_char(k) != ':' || k + 1 >= n - 1 || !all_digits(s, k + 1, n - 1) {
        return false;
    }
    assert(is_steam3_shape_at(s@, k as int));
    let account = digits_exceed(s, 5, k, 0xffff_ffff);
    let instance = digits_exceed(s, k + 1, n - 1, 0xffff_ffff_ffff_ffff);
    account || instance
}

/// Whether `SteamID::try_from` would panic on `s`.
pub fn is_try_from_panic(s: &str) -> (r: bool)
    ensures
        r == try_from_panics(s@),
{
    is_steam2_overflow(s) || is_steam3_overflow(s)
}

} // verus!
