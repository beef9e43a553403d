use steam_resolve_vanity::codec::push_decimal;
use steam_resolve_vanity::shape::is_try_from_panic;
use steam_resolve_vanity::{parse_steam_id, AccountId, Error};

#[test]
fn decimal_form_of_known_account() {
    let id = AccountId::from(76561198024494988u64);
    assert_eq!(id.to_decimal(), "76561198024494988");
}

#[test]
fn decimal_form_of_edges() {
    assert_eq!(AccountId::from(0u64).to_decimal(), "0");
    assert_eq!(AccountId::from(9u64).to_decimal(), "9");
    assert_eq!(AccountId::from(10u64).to_decimal(), "10");
    assert_eq!(AccountId::from(u64::MAX).to_decimal(), "18446744073709551615");
}

#[test]
fn push_decimal_appends() {
    let mut s = String::from("id=");
    push_decimal(4207, &mut s);
    assert_eq!(s, "id=4207");
}

#[test]
fn parse_then_format_round_trip() {
    for v in [0u64, 1, 9, 10, 99, 100, 76561198024494988, 76561197960287930, u64::MAX] {
        let id = AccountId::from(v);
        let back = parse_steam_id(&id.to_decimal()).unwrap();
        assert_eq!(back, id);
        assert_eq!(u64::from(back), v);
    }
}

#[test]
fn parse_decimal_with_leading_zeros() {
    assert_eq!(parse_steam_id("0042").unwrap(), AccountId::from(42u64));
}

#[test]
fn parse_steam3_and_steam2() {
    let expected = AccountId::from(76561197960287930u64);
    assert_eq!(parse_steam_id("[U:1:22202]").unwrap(), expected);
    assert_eq!(parse_steam_id("STEAM_1:0:11101").unwrap(), expected);
}

#[test]
fn steam3_rendering() {
    assert_eq!(AccountId::from(76561197960287930u64).steam3(), "[U:1:22202]");
}

#[test]
fn malformed_identifiers_are_rejected() {
    for text in [
        "",
        "icewind1991",
        "18446744073709551616",
        "[X:1:2]",
        "STEAM_9:0:1",
        "12ab",
        "STEAM_0:0:9999999999",
        "STEAM_1:1:4294967296",
        "[U:1:9999999999]",
        "[U:1:4294967296]",
        "[U:1:22202:99999999999999999999]",
        "[g:1:4294967296:1]",
    ] {
        assert!(matches!(parse_steam_id(text), Err(Error::SteamId(_))), "{}", text);
    }
}

#[test]
fn largest_number_groups_still_parse() {
    assert!(parse_steam_id("STEAM_0:0:4294967295").is_ok());
    assert!(parse_steam_id("[U:1:4294967295]").is_ok());
    assert!(parse_steam_id("[U:1:22202:18446744073709551615]").is_ok());
}

#[test]
fn overflowing_number_groups_are_recognised() {
    assert!(is_try_from_panic("STEAM_0:0:9999999999"));
    assert!(is_try_from_panic("[U:1:9999999999]"));
    assert!(is_try_from_panic("[U:1:22202:18446744073709551616]"));
    assert!(!is_try_from_panic("STEAM_0:0:4294967295"));
    assert!(!is_try_from_panic("[U:1:4294967295]"));
    assert!(!is_try_from_panic("[U:1:22202:18446744073709551615]"));
    assert!(!is_try_from_panic("STEAM_0:0:99999999999"));
    assert!(!is_try_from_panic("[U:1:99999999999]"));
    assert!(!is_try_from_panic("76561198024494988"));
}
