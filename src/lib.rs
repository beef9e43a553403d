//! Resolution between Steam vanity names and 64-bit Steam account identifiers.
//!
//! The library holds the logic: the textual codec for identifiers, the request
//! targets, and the interpretation of what the two Steam endpoints answer. The
//! HTTP exchange itself is performed by the caller, which hands the status code,
//! the decoded body or the redirect header to the functions here.
use vstd::prelude::*;

pub mod error;
pub mod codec;
pub mod resolve;
pub mod probe;
pub mod shape;

pub use codec::{parse_steam_id, AccountId};
pub use error::Error;
pub use probe::{profile_url, vanity_from_location, vanity_from_redirect};
pub use resolve::{check_resolve_status, resolution_outcome, SteamIdField, VanityUrlResponse};
