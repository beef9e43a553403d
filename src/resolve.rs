//! Interpretation of the Web API's answer to a vanity-name resolution.
use crate::codec::{parse_steam_id, steam_id_of_text, AccountId};
use crate::error::Error;
use crate::shape::try_from_panics;
use vstd::prelude::*;

verus! {

/// The endpoint that resolves a vanity name; it takes the query parameters
/// `key` (the API key) and `vanityurl` (the name).
pub const RESOLVE_VANITY_URL_ENDPOINT: &'static str =
    "http://api.steampowered.com/ISteamUser/ResolveVanityURL/v0001/";

/// The HTTP status with which the Web API rejects a key.
pub const STATUS_FORBIDDEN: u16 = 403;

/// The `steamid` field of an answer. Depending on the API revision it is sent
/// as a JSON string or as a JSON number.
pub enum SteamIdField {
    Number(u64),
    Text(String),
}

/// The `response` object of an answer:
/// `{ "response": { "success": <int>, "steamid": <string or number> } }`.
pub struct VanityUrlResponse {
    /// The identifier, where the answer holds one.
    pub steamid: Option<SteamIdField>,
    /// The success flag: 1 means that the name was resolved.
    pub success: Option<i64>,
}

/// Whether the answer counts as a successful resolution.
pub open spec fn is_success(response: &VanityUrlResponse) -> bool {
    response.success == Some(1i64)
}

/// Checks the status of the answer before its body is read: 403 means that the
/// key was rejected, which is never a "not found".
pub fn check_resolve_status(status: u16) -> (r: Result<(), Error>)
    ensures
        r is Ok <==> status != STATUS_FORBIDDEN,
        r is Err ==> r->Err_0 is InvalidKey,
{
    if status == STATUS_FORBIDDEN {
        Err(Error::InvalidKey)
    } else {
        Ok(())
    }
}

/// The outcome that a decoded answer stands for: `Some(id)` where it reports
/// success with an identifier, `None` where it does not. An identifier string
/// that cannot be parsed under a successful answer is an error.
pub fn resolution_outcome(response: &VanityUrlResponse) -> (r: Result<Option<AccountId>, Error>)
    ensures
        !is_success(response) ==> r == Ok::<Option<AccountId>, Error>(None),
        is_success(response) && response.steamid is None ==> r == Ok::<
            Option<AccountId>,
            Error,
        >(None),
        is_success(response) ==> match response.steamid {
            Some(SteamIdField::Number(v)) => r == Ok::<Option<AccountId>, Error>(
                Some(AccountId { value: v }),
            ),
            Some(SteamIdField::Text(t)) => if try_from_panics(t@) {
                r is Err && r->Err_0 is SteamId
            } else {
                match steam_id_of_text(t@) {
                    Some(v) => r == Ok::<Option<AccountId>, Error>(Some(AccountId { value: v })),
                    None => r is Err && r->Err_0 is SteamId,
                }
            },
            None => true,
        },
{
    if response.success != Some(1i64) {
        return Ok(None);
    }
    match &response.steamid {
        None => Ok(None),
        Some(SteamIdField::Number(v)) => Ok(Some(AccountId { value: *v })),
        Some(SteamIdField::Text(t)) => match parse_steam_id(t.as_str()) {
            Ok(id) => Ok(Some(id)),
            Err(e) => Err(e),
        },
    }
}

} // verus!
