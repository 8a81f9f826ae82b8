use charizhard::nvs::{get_value, WgConfig, WifiConfig};
use charizhard::strings::{parse_u16, HeaplessString, StrError};

#[test]
fn push_str_within_capacity() {
    let mut s = HeaplessString::<8>::new();
    assert!(s.push_str("abc").is_ok());
    assert_eq!(s.as_str(), "abc");
    assert!(s.push_str("de").is_ok());
    assert_eq!(s.as_str(), "abcde");
}

#[test]
fn push_str_rejects_oversized_text() {
    let mut s = HeaplessString::<4>::new();
    assert_eq!(s.push_str("abcde"), Err(StrError::TooLong));
    assert_eq!(s.as_str(), "");
}

#[test]
fn push_str_drops_text_that_no_longer_fits() {
    let mut s = HeaplessString::<4>::new();
    assert!(s.push_str("abc").is_ok());
    // "de" fits the capacity but not behind the current content: it is
    // dropped without an error, as the fixed-width store behaves.
    assert!(s.push_str("de").is_ok());
    assert_eq!(s.as_str(), "abc");
}

#[test]
fn clean_string_strips_control_and_non_ascii() {
    let mut s = HeaplessString::<32>::new();
    assert!(s.push_str("ab\u{7}c\u{0}d \u{e9}!").is_ok());
    let cleaned = s.clean_string();
    assert_eq!(cleaned.as_str(), "abcd !");
}

#[test]
fn clean_string_keeps_whitespace() {
    let mut s = HeaplessString::<32>::new();
    assert!(s.push_str("a b\tc").is_ok());
    assert_eq!(s.clean_string().as_str(), "a b\tc");
}

#[test]
fn clean_string_is_idempotent() {
    let mut s = HeaplessString::<32>::new();
    assert!(s.push_str("key\u{1}=\u{80}val").is_ok());
    let once = s.clean_string();
    let twice = once.clean_string();
    assert_eq!(once.as_str(), twice.as_str());
    assert_eq!(once.as_str(), "key=val");
}

#[test]
fn inner_hands_the_content_out() {
    let mut s = HeaplessString::<8>::new();
    assert!(s.push_str("abc").is_ok());
    let owned: String = s.inner();
    assert_eq!(owned, "abc");
}

#[test]
fn parse_u16_reads_plain_decimals() {
    assert_eq!(parse_u16("51820"), Some(51820));
    assert_eq!(parse_u16("0"), Some(0));
    assert_eq!(parse_u16("007"), Some(7));
    assert_eq!(parse_u16("65535"), Some(65535));
}

#[test]
fn parse_u16_refuses_bad_texts() {
    assert_eq!(parse_u16(""), None);
    assert_eq!(parse_u16("65536"), None);
    assert_eq!(parse_u16("99999999999999999999"), None);
    assert_eq!(parse_u16("12a"), None);
    assert_eq!(parse_u16("-1"), None);
    assert_eq!(parse_u16(" 1"), None);
}

#[test]
fn wg_config_defaults() {
    let c = WgConfig::from_fields(None, None, None, None);
    assert_eq!(c.address.as_str(), "");
    assert_eq!(c.port.as_str(), "51820");
    assert_eq!(c.client_private_key.as_str(), "");
    assert_eq!(c.server_public_key.as_str(), "");
}

#[test]
fn wg_config_sanitises_stored_fields() {
    let c = WgConfig::from_fields(
        Some("10.0.0.1\u{0}\u{0}"),
        Some("51821\u{0}"),
        Some("priv\u{7}key"),
        Some("pub\u{80}key"),
    );
    assert_eq!(c.address.as_str(), "10.0.0.1");
    assert_eq!(c.port.as_str(), "51821");
    assert_eq!(c.client_private_key.as_str(), "privkey");
    assert_eq!(c.server_public_key.as_str(), "pubkey");
}

#[test]
fn wg_config_sanitized_copy() {
    let c = WgConfig::from_fields(Some("a"), Some("1"), Some("b"), Some("c"));
    let s = c.sanitized();
    assert_eq!(s.address.as_str(), "a");
    assert_eq!(s.port.as_str(), "1");
}

#[test]
fn wifi_config_defaults() {
    let c = WifiConfig::from_fields(None, None, None);
    assert_eq!(c.sta_ssid.as_str(), "");
    assert_eq!(c.sta_passwd.as_str(), "");
    assert_eq!(c.sta_auth.as_str(), "wpa2personal");
}

#[test]
fn wifi_config_sanitises_stored_fields() {
    let c = WifiConfig::from_fields(Some("my\u{1}net"), Some("pass word"), Some("wpa3personal"));
    assert_eq!(c.sta_ssid.as_str(), "mynet");
    assert_eq!(c.sta_passwd.as_str(), "pass word");
    assert_eq!(c.sta_auth.as_str(), "wpa3personal");
}

#[test]
fn get_value_honours_remember_me() {
    let mut flag = HeaplessString::<8>::new();
    assert!(flag.push_str("true").is_ok());
    let mut value = HeaplessString::<32>::new();
    assert!(value.push_str("10.0.0.1").is_ok());
    assert_eq!(get_value(&flag, &value), "10.0.0.1");

    let mut off = HeaplessString::<8>::new();
    assert!(off.push_str("false").is_ok());
    assert_eq!(get_value(&off, &value), "");

    let mut odd = HeaplessString::<8>::new();
    assert!(odd.push_str("True").is_ok());
    assert_eq!(get_value(&odd, &value), "");
}
