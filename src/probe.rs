//! Reading a profile's vanity name off the redirect of its numeric profile page.
use crate::codec::{decimal_digits, push_decimal, AccountId};
use vstd::prelude::*;
use vstd::string::StrSliceExecFns;
use vstd::string::StringExecFns;

verus! {

/// The address of a profile page by numeric identifier, without the identifier.
pub const PROFILE_URL_PREFIX: &'static str = "https://steamcommunity.com/profiles/";

/// The address of a profile page by vanity name, without the name.
pub const VANITY_URL_PREFIX: &'static str = "https://steamcommunity.com/id/";

/// The HTTP status of a temporary redirect (302 Found).
pub const STATUS_FOUND: u16 = 302;

/// `s` without its trailing slashes.
pub open spec fn trim_trailing_slashes(s: Seq<char>) -> Seq<char>
    decreases s.len(),
{
    if s.len() > 0 && s.last() == '/' {
        trim_trailing_slashes(s.drop_last())
    } else {
        s
    }
}

/// The vanity name that a redirect target names: what follows the vanity
/// prefix, without trailing slashes, where the target starts with that prefix
/// and the rest is not empty.
pub open spec fn vanity_of_location(location: Seq<char>) -> Option<Seq<char>> {
    let p = VANITY_URL_PREFIX@;
    if location.len() >= p.len() && location.subrange(0, p.len() as int) == p {
        let name = trim_trailing_slashes(location.subrange(p.len() as int, location.len() as int));
        if name.len() > 0 {
            Some(name)
        } else {
            None
        }
    } else {
        None
    }
}

/// The vanity name that a profile probe finds, given the status of the answer
/// and its `Location` header: only a 302 redirect names one.
pub open spec fn vanity_of_redirect(status: u16, location: Option<Seq<char>>) -> Option<Seq<char>> {
    if status == STATUS_FOUND {
        match location {
            Some(l) => vanity_of_location(l),
            None => None,
        }
    } else {
        None
    }
}

/// The characters of a header value, if there is one.
pub open spec fn header_view(location: Option<&str>) -> Option<Seq<char>> {
    match location {
        Some(l) => Some(l@),
        None => None,
    }
}

/// A redirect to the vanity page of a name yields that name back, for every
/// non-empty name that does not end in a slash: probing the identifier that a
/// name resolves to finds that name while it stays bound.
pub proof fn lemma_probe_finds_alias(name: Seq<char>)
    requires
        name.len() > 0,
        name.last() != '/',
    ensures
        vanity_of_redirect(STATUS_FOUND, Some(VANITY_URL_PREFIX@ + name)) == Some(name),
{
    let p = VANITY_URL_PREFIX@;
    let l = p + name;
    assert(l.subrange(0, p.len() as int) =~= p);
    assert(l.subrange(p.len() as int, l.len() as int) =~= name);
}

/// A probe finds no vanity name unless the answer is a 302 redirect, and a
/// redirect back to a numeric profile page names none either.
pub proof fn lemma_probe_absence(status: u16, location: Option<Seq<char>>, x: u64)
    ensures
        status != STATUS_FOUND ==> vanity_of_redirect(status, location) is None,
        vanity_of_redirect(status, Some(PROFILE_URL_PREFIX@ + decimal_digits(x as nat))) is None,
{
    reveal_strlit("https://steamcommunity.com/profiles/");
    reveal_strlit("https://steamcommunity.com/id/");
    let p = VANITY_URL_PREFIX@;
    let l = PROFILE_URL_PREFIX@ + decimal_digits(x as nat);
    if l.len() >= p.len() {
        assert(l.subrange(0, p.len() as int)[27] != p[27]);
    }
}

/// The numeric profile page of an identifier.
pub fn profile_url(id: AccountId) -> (r: String)
    ensures
        r@ == PROFILE_URL_PREFIX@ + decimal_digits(id.value as nat),
{
    let mut url = String::from_str(PROFILE_URL_PREFIX);
    push_decimal(id.value, &mut url);
    url
}

/// The vanity name in a redirect target, if it names one.
pub fn vanity_from_location(location: &str) -> (r: Option<String>)
    ensures
        r is Some <==> vanity_of_location(location@) is Some,
        r is Some ==> vanity_of_location(location@) == Some(r->Some_0@),
{
    let prefix = VANITY_URL_PREFIX;
    let n = location.unicode_len();
    let p = prefix.unicode_len();
    if n < p {
        return None;
    }
    let mut i: usize = 0;
    while i < p
        invariant
            prefix@ == VANITY_URL_PREFIX@,
            p == prefix@.len(),
            n == location@.len(),
            p <= n,
            i <= p,
            forall|j: int| 0 <= j < i ==> location@[j] == prefix@[j],
        decreases p - i,
    {
        if location.get_char(i) != prefix.get_char(i) {
            assert(location@.subrange(0, p as int)[i as int] != prefix@[i as int]);
            return None;
        }
        i = i + 1;
    }
    assert(location@.subrange(0, p as int) =~= prefix@);
    let mut end: usize = n;
    while end > p && location.get_char(end - 1) == '/'
        invariant
            prefix@ == VANITY_URL_PREFIX@,
            p == prefix@.len(),
            n == location@.len(),
            p <= end <= n,
            trim_trailing_slashes(location@.subrange(p as int, end as int))
                == trim_trailing_slashes(location@.subrange(p as int, n as int)),
        decreases end,
    {
        assert(location@.subrange(p as int, end as int).drop_last() =~= location@.subrange(
            p as int,
            end - 1,
        ));
        end = end - 1;
    }
    if end == p {
        assert(location@.subrange(p as int, end as int).len() == 0);
        None
    } else {
        let name = location.substring_char(p, end);
        Some(name.to_owned())
    }
}

/// The vanity name that a probe of a numeric profile page finds, given the
/// status of the answer and its `Location` header, if it had one.
pub fn vanity_from_redirect(status: u16, location: Option<&str>) -> (r: Option<String>)
    ensures
        r is Some <==> vanity_of_redirect(status, header_view(location)) is Some,
        r is Some ==> vanity_of_redirect(status, header_view(location)) == Some(r->Some_0@),
{
    if status != STATUS_FOUND {
        return None;
    }
    match location {
        Some(l) => vanity_from_location(l),
        None => None,
    }
}

} // verus!
