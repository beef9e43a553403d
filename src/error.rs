use reqwest::Error as RequestError;
use steamid_ng::SteamIDError;
use vstd::prelude::*;

verus! {

/// Declares `reqwest::Error`, carried unopened in `Error::Request`.
#[verifier::external_type_specification]
#[verifier::external_body]
pub struct ExRequestError(RequestError);

/// Declares `steamid_ng::SteamIDError`, returned by `SteamID::try_from` and
/// carried unopened in `Error::SteamId`.
#[verifier::external_type_specification]
#[verifier::external_body]
pub struct ExSteamIdError(SteamIDError);

/// The ways in which a lookup can fail. "Not found" is an outcome, not an error.
#[derive(Debug)]
pub enum Error {
    /// The Web API rejected the key (HTTP 403 on the resolution endpoint).
    InvalidKey,
    /// The request could not be completed, or its body could not be decoded.
    Request(RequestError),
    /// A value that should have been a Steam identifier could not be parsed.
    SteamId(SteamIDError),
}

} // verus!
