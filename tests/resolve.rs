use steam_resolve_vanity::resolve::RESOLVE_VANITY_URL_ENDPOINT;
use steam_resolve_vanity::{
    check_resolve_status, resolution_outcome, AccountId, Error, SteamIdField, VanityUrlResponse,
};

fn answer(success: Option<i64>, steamid: Option<SteamIdField>) -> VanityUrlResponse {
    VanityUrlResponse { steamid, success }
}

#[test]
fn endpoint_address() {
    assert_eq!(
        RESOLVE_VANITY_URL_ENDPOINT,
        "http://api.steampowered.com/ISteamUser/ResolveVanityURL/v0001/"
    );
}

#[test]
fn forbidden_status_is_invalid_key() {
    assert!(matches!(check_resolve_status(403), Err(Error::InvalidKey)));
}

#[test]
fn other_statuses_go_on_to_the_body() {
    for status in [200u16, 302, 401, 404, 500] {
        assert!(check_resolve_status(status).is_ok());
    }
}

#[test]
fn successful_answer_with_text_identifier() {
    let r = answer(Some(1), Some(SteamIdField::Text("76561198024494988".to_string())));
    assert_eq!(
        resolution_outcome(&r).unwrap(),
        Some(AccountId::from(76561198024494988u64))
    );
}

#[test]
fn successful_answer_with_numeric_identifier() {
    let r = answer(Some(1), Some(SteamIdField::Number(76561198024494988)));
    assert_eq!(
        resolution_outcome(&r).unwrap(),
        Some(AccountId::from(76561198024494988u64))
    );
}

#[test]
fn successful_answer_with_steam3_identifier() {
    let r = answer(Some(1), Some(SteamIdField::Text("[U:1:22202]".to_string())));
    assert_eq!(
        resolution_outcome(&r).unwrap(),
        Some(AccountId::from(76561197960287930u64))
    );
}

#[test]
fn no_match_answer_is_not_found() {
    let r = answer(Some(42), None);
    assert_eq!(resolution_outcome(&r).unwrap(), None);
}

#[test]
fn failed_answer_with_identifier_is_not_found() {
    let r = answer(Some(42), Some(SteamIdField::Number(76561198024494988)));
    assert_eq!(resolution_outcome(&r).unwrap(), None);
    let r = answer(Some(0), Some(SteamIdField::Text("garbage".to_string())));
    assert_eq!(resolution_outcome(&r).unwrap(), None);
}

#[test]
fn answer_without_success_flag_is_not_found() {
    let r = answer(None, Some(SteamIdField::Number(76561198024494988)));
    assert_eq!(resolution_outcome(&r).unwrap(), None);
}

#[test]
fn successful_answer_without_identifier_is_not_found() {
    let r = answer(Some(1), None);
    assert_eq!(resolution_outcome(&r).unwrap(), None);
}

#[test]
fn successful_answer_with_malformed_identifier_is_an_error() {
    let r = answer(Some(1), Some(SteamIdField::Text("not-a-steam-id".to_string())));
    assert!(matches!(resolution_outcome(&r), Err(Error::SteamId(_))));
}

#[test]
fn successful_answer_with_overflowing_identifier_is_an_error() {
    let r = answer(Some(1), Some(SteamIdField::Text("[U:1:9999999999]".to_string())));
    assert!(matches!(resolution_outcome(&r), Err(Error::SteamId(_))));
}
