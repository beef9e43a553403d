//! Textual forms of Steam account identifiers.
use crate::error::Error;
use crate::shape::{is_try_from_panic, try_from_panics};
use steamid_ng::{SteamID, SteamIDError};
use std::convert::TryFrom;
use vstd::prelude::*;

verus! {

/// A 64-bit Steam account identifier, compared by its numeric value.
#[derive(Clone, Copy, Debug, PartialEq, Eq, Structural, Hash)]
pub struct AccountId {
    pub value: u64,
}

impl From<u64> for AccountId {
    fn from(value: u64) -> (r: AccountId)
        ensures
            r.value == value,
    {
        AccountId { value }
    }
}

impl vstd::std_specs::convert::FromSpecImpl<u64> for AccountId {
    open spec fn obeys_from_spec() -> bool {
        true
    }

    open spec fn from_spec(v: u64) -> AccountId {
        AccountId { value: v }
    }
}

impl From<AccountId> for u64 {
    fn from(id: AccountId) -> (r: u64)
        ensures
            r == id.value,
    {
        id.value
    }
}

impl vstd::std_specs::convert::FromSpecImpl<AccountId> for u64 {
    open spec fn obeys_from_spec() -> bool {
        true
    }

    open spec fn from_spec(id: AccountId) -> u64 {
        id.value
    }
}

/// The character of the decimal digit `d`.
pub open spec fn digit_char(d: nat) -> char
    recommends
        d < 10,
{
    (('0' as nat) + d) as char
}

/// Whether `c` is one of the characters `0` to `9`.
pub open spec fn is_digit(c: char) -> bool {
    '0' <= c <= '9'
}

/// The decimal representation of `n`, most significant digit first, without
/// leading zeros (zero itself is the single digit `0`).
pub open spec fn decimal_digits(n: nat) -> Seq<char>
    decreases n,
{
    if n < 10 {
        seq![digit_char(n)]
    } else {
        decimal_digits(n / 10).push(digit_char(n % 10))
    }
}

/// The number that a string of decimal digits denotes.
pub open spec fn decimal_value(s: Seq<char>) -> nat
    decreases s.len(),
{
    if s.len() == 0 {
        0
    } else {
        decimal_value(s.drop_last()) * 10 + ((s.last() as nat) - ('0' as nat)) as nat
    }
}

/// A non-empty run of decimal digits whose value fits in 64 bits: the plain
/// decimal form of an identifier (leading zeros allowed).
pub open spec fn is_decimal_id(s: Seq<char>) -> bool {
    &&& s.len() > 0
    &&& forall|i: int| 0 <= i < s.len() ==> is_digit(#[trigger] s[i])
    &&& decimal_value(s) <= u64::MAX
}

/// What `SteamID::try_from` makes of a text: the identifier, or nothing where
/// the text is in none of the forms it accepts (decimal, steam2, steam3).
pub uninterp spec fn steam_id_of_text(s: Seq<char>) -> Option<u64>;

/// What `SteamID::steam3` renders for an identifier, such as `[U:1:22202]`.
pub uninterp spec fn steam3_of(v: u64) -> Seq<char>;

/// Relies on `steamid_ng::SteamID::try_from(&str)`: it first tries
/// `str::parse::<u64>`, which takes every plain decimal form, then the steam2
/// and steam3 forms; the result depends on the text alone. It panics where a
/// number group of those forms overflows its integer, which `requires` excludes.
#[verifier::external_body]
fn steam_id_try_from(s: &str) -> (r: Result<u64, SteamIDError>)
    requires
        !try_from_panics(s@),
    ensures
        r is Ok <==> steam_id_of_text(s@) is Some,
        r is Ok ==> steam_id_of_text(s@) == Some(r->Ok_0),
        is_decimal_id(s@) ==> r is Ok && r->Ok_0 == decimal_value(s@),
{
    SteamID::try_from(s).map(u64::from)
}

/// Relies on `steamid_ng::SteamIDError::ParseError`, the error that the
/// crate's parsers return for a malformed text.
#[verifier::external_body]
fn malformed_steam_id() -> SteamIDError {
    SteamIDError::ParseError
}

/// Relies on `steamid_ng::SteamID::steam3`: a rendering that depends on the
/// identifier alone.
#[verifier::external_body]
fn steam_id_steam3(v: u64) -> (r: String)
    ensures
        r@ == steam3_of(v),
{
    SteamID::from(v).steam3()
}

/// The one-character string of the decimal digit `d`.
fn digit_str(d: u64) -> (s: &'static str)
    requires
        d < 10,
    ensures
        s@ == seq![digit_char(d as nat)],
{
    proof {
        reveal_strlit("0");
        reveal_strlit("1");
        reveal_strlit("2");
        reveal_strlit("3");
        reveal_strlit("4");
        reveal_strlit("5");
        reveal_strlit("6");
        reveal_strlit("7");
        reveal_strlit("8");
        reveal_strlit("9");
    }
    let s = match d {
        0 => "0",
        1 => "1",
        2 => "2",
        3 => "3",
        4 => "4",
        5 => "5",
        6 => "6",
        7 => "7",
        8 => "8",
        _ => "9",
    };
    assert(s@ =~= seq![digit_char(d as nat)]);
    s
}

/// Appends the decimal digits of `n` to `out`.
pub fn push_decimal(n: u64, out: &mut String)
    ensures
        final(out)@ == old(out)@ + decimal_digits(n as nat),
    decreases n,
{
    if n >= 10 {
        push_decimal(n / 10, out);
    }
    out.append(digit_str(n % 10));
    assert(final(out)@ =~= old(out)@ + decimal_digits(n as nat));
}

impl AccountId {
    /// The plain decimal form, as used in profile paths (`76561198024494988`).
    pub fn to_decimal(&self) -> (r: String)
        ensures
            r@ == decimal_digits(self.value as nat),
    {
        let mut out = String::new();
        push_decimal(self.value, &mut out);
        assert(out@ =~= decimal_digits(self.value as nat));
        out
    }

    /// The steam3 form (`[U:1:22202]`).
    pub fn steam3(&self) -> (r: String)
        ensures
            r@ == steam3_of(self.value),
    {
        steam_id_steam3(self.value)
    }
}

proof fn lemma_decimal_digits(n: nat)
    ensures
        decimal_digits(n).len() > 0,
        forall|i: int| 0 <= i < decimal_digits(n).len() ==> is_digit(#[trigger] decimal_digits(n)[i]),
        decimal_value(decimal_digits(n)) == n,
    decreases n,
{
    let s = decimal_digits(n);
    if n < 10 {
        assert(s.drop_last() =~= Seq::<char>::empty());
        assert(digit_char(n) as nat == ('0' as nat) + n);
        assert(s.last() == digit_char(n));
        assert(decimal_value(s) == decimal_value(s.drop_last()) * 10 + ((s.last() as nat) - ('0' as nat)) as nat);
    } else {
        assert(digit_char(n % 10) as nat == ('0' as nat) + n % 10);
        assert((n / 10) * 10 + n % 10 == n) by (nonlinear_arith);
        assert(s.last() == digit_char(n % 10));
        assert(decimal_value(s) == decimal_value(s.drop_last()) * 10 + ((s.last() as nat) - ('0' as nat)) as nat);
        lemma_decimal_digits(n / 10);
        assert(s.drop_last() =~= decimal_digits(n / 10));
        assert forall|i: int| 0 <= i < s.len() implies is_digit(#[trigger] s[i]) by {
            if i < s.len() - 1 {
                assert(s[i] == decimal_digits(n / 10)[i]);
            }
        }
    }
}

/// Formatting an identifier in decimal and parsing the text back gives the same
/// identifier: the decimal form of every identifier is a plain decimal text
/// whose value is the identifier, which `parse_steam_id` maps back to it.
pub proof fn lemma_parse_format_round_trip(x: AccountId)
    ensures
        is_decimal_id(decimal_digits(x.value as nat)),
        (AccountId { value: decimal_value(decimal_digits(x.value as nat)) as u64 }) == x,
{
    lemma_decimal_digits(x.value as nat);
}

/// Parses an identifier from its plain decimal, steam2 or steam3 form. A steam2
/// or steam3 text whose account number needs more than 32 bits, or whose steam3
/// instance needs more than 64, is malformed.
pub fn parse_steam_id(text: &str) -> (r: Result<AccountId, Error>)
    ensures
        try_from_panics(text@) ==> r is Err,
        !try_from_panics(text@) ==> (r is Ok <==> steam_id_of_text(text@) is Some),
        r is Ok ==> steam_id_of_text(text@) == Some(r->Ok_0.value),
        r is Err ==> r->Err_0 is SteamId,
        is_decimal_id(text@) ==> r == Ok::<AccountId, Error>(AccountId { value: decimal_value(text@) as u64 }),
{
    proof {
        if is_decimal_id(text@) {
            assert(is_digit(text@[0]));
        }
    }
    if is_try_from_panic(text) {
        return Err(Error::SteamId(malformed_steam_id()));
    }
    match steam_id_try_from(text) {
        Ok(v) => Ok(AccountId { value: v }),
        Err(e) => Err(Error::SteamId(e)),
    }
}

} // verus!
