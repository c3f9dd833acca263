//! Settings parsing and the device registry schema.
use pushauth::codec::encode;
use pushauth::config::{ConfigError, Device, Options};
use pushauth::crypto::{random, PrivKey, PubKey};
use pushauth::strings::split2;

fn sample_device(username: &str) -> Device {
    let own = PrivKey::generate().unwrap();
    let other_pair = PrivKey::generate().unwrap();
    let other = PubKey::from_der(&other_pair.public().to_der().unwrap()).unwrap();
    Device {
        username: username.to_string(),
        id: encode(&random(32).unwrap()),
        other_key: other,
        own_key: own,
    }
}

#[test]
fn options_parse_reads_settings() {
    let args = vec![
        "keyfile=/etc/pushauth/keys".to_string(),
        "baseurl=https://backend.example/db".to_string(),
        "timeout=5".to_string(),
    ];
    let o = Options::parse(&args, "alice");
    assert_eq!(o.keyfile, "/etc/pushauth/keys");
    assert_eq!(o.baseurl, "https://backend.example/db");
    assert_eq!(o.timeout, 5);
    assert_eq!(o.username, "alice");
}

#[test]
fn options_parse_defaults() {
    let o = Options::parse(&Vec::new(), "bob");
    assert_eq!(o.keyfile, "");
    assert_eq!(o.baseurl, "");
    assert_eq!(o.timeout, 30);
    assert_eq!(o.username, "bob");
}

#[test]
fn options_parse_skips_malformed_settings() {
    // a setting without exactly one `=` is locally recoverable: it is
    // skipped and the remaining arguments still apply
    let args = vec![
        "keyfile".to_string(),
        "a=b=c".to_string(),
        "baseurl=https://backend.example/db".to_string(),
    ];
    let o = Options::parse(&args, "u");
    assert_eq!(o.keyfile, "");
    assert_eq!(o.baseurl, "https://backend.example/db");
    assert_eq!(o.timeout, 30);
    assert_eq!(o.username, "u");
}

#[test]
fn options_parse_skips_bad_timeout_and_unknown_keys() {
    let args = vec!["timeout=soon".to_string(), "color=red".to_string()];
    let o = Options::parse(&args, "u");
    assert_eq!(o.timeout, 30);
}

#[test]
fn config_line_round_trip() {
    let device = sample_device("alice");
    let line = device.to_config().unwrap();
    let (user, devpart) = split2(&line, '=').unwrap();
    assert_eq!(user, "alice");
    let back = Device::parse(&user, &devpart).unwrap();
    assert_eq!(back.username, device.username);
    assert_eq!(back.id, device.id);
    assert_eq!(back.other_key.to_der().unwrap(), device.other_key.to_der().unwrap());
    assert_eq!(back.own_key.to_der().unwrap(), device.own_key.to_der().unwrap());
}

fn parse_error(user: &str, dev: &str) -> ConfigError {
    match Device::parse(user, dev) {
        Ok(_) => panic!("parse unexpectedly succeeded"),
        Err(e) => e,
    }
}

#[test]
fn parse_rejects_wrong_field_count() {
    assert_eq!(parse_error("u", "only-two:fields"), ConfigError::NotThreeParts);
    assert_eq!(parse_error("u", "a:b:c:d"), ConfigError::NotThreeParts);
}

#[test]
fn parse_rejects_id_of_wrong_length() {
    let device = sample_device("u");
    let okey = encode(&device.other_key.to_der().unwrap());
    let wkey = encode(&device.own_key.to_der().unwrap());
    let short = format!("{}:{}:{}", "x".repeat(42), okey, wkey);
    assert_eq!(parse_error("u", &short), ConfigError::BadDeviceId);
    let long = format!("{}:{}:{}", "x".repeat(44), okey, wkey);
    assert_eq!(parse_error("u", &long), ConfigError::BadDeviceId);
}

#[test]
fn parse_rejects_bad_base64_key() {
    let id = "x".repeat(43);
    let dev = format!("{}:{}:{}", id, "!!!", "AAAA");
    assert_eq!(parse_error("u", &dev), ConfigError::NotBase64);
}

#[test]
fn parse_rejects_undecodable_key_bytes() {
    let id = "x".repeat(43);
    // well-formed base64 of bytes that are no DER key
    let dev = format!("{}:{}:{}", id, "AAAA", "AAAA");
    assert_eq!(parse_error("u", &dev), ConfigError::BadKey);
}

#[test]
fn fetch_all_filters_by_user_and_skips_malformed() {
    let alice1 = sample_device("alice");
    let alice2 = sample_device("alice");
    let bob = sample_device("bob");
    let lines = vec![
        alice1.to_config().unwrap(),
        "not a registry line".to_string(),
        bob.to_config().unwrap(),
        "alice=too:short".to_string(),
        alice2.to_config().unwrap(),
    ];
    let devices = Device::fetch_all(&lines, "alice");
    assert_eq!(devices.len(), 2);
    assert_eq!(devices[0].id, alice1.id);
    assert_eq!(devices[1].id, alice2.id);
    assert!(Device::fetch_all(&lines, "carol").is_empty());
}

#[test]
fn fetch_all_keeps_duplicate_registrations() {
    let d = sample_device("alice");
    let line = d.to_config().unwrap();
    let lines = vec![line.clone(), line];
    assert_eq!(Device::fetch_all(&lines, "alice").len(), 2);
}
