//! The protocol engine: message interpretation, stream consumption, the
//! race, and flow preparation.
use pushauth::codec::{decode, encode};
use pushauth::config::Device;
use pushauth::crypto::{random, PrivKey, PubKey, SecretKey};
use pushauth::protocol::{
    auth_step, classify_event, prepare_auth, prepare_enrollment, race_outcome, run_auth_stream,
    run_enroll_stream, EventKind, Failure, RaceEvent, StreamEvent,
};
use pushauth::transport::build_url;
use pushauth::usage;

fn put(data: String) -> StreamEvent {
    StreamEvent { event: "put".to_string(), data }
}

fn text_body(s: &str) -> String {
    format!("{{\"path\":\"/\",\"data\":\"{}\"}}", s)
}

fn pair_body(p: &str, s: &str) -> String {
    format!("{{\"path\":\"/\",\"data\":{{\"p\":\"{}\",\"s\":\"{}\"}}}}", p, s)
}

struct AuthSetup {
    device_key: PubKey,
    device_priv: PrivKey,
    challenge: Vec<u8>,
    own_sig_b64: String,
}

fn auth_setup() -> AuthSetup {
    let own = PrivKey::generate().unwrap();
    let device_priv = PrivKey::generate().unwrap();
    let device_key = PubKey::from_der(&device_priv.public().to_der().unwrap()).unwrap();
    let challenge = random(32).unwrap();
    let own_sig_b64 = encode(&own.sign(&challenge).unwrap());
    AuthSetup { device_key, device_priv, challenge, own_sig_b64 }
}

#[test]
fn classify_event_maps_every_tag() {
    assert_eq!(classify_event("put"), EventKind::Put);
    assert_eq!(classify_event("patch"), EventKind::Patch);
    assert_eq!(classify_event("keep-alive"), EventKind::KeepAlive);
    assert_eq!(classify_event("cancel"), EventKind::Cancel);
    assert_eq!(classify_event("auth_revoked"), EventKind::AuthRevoked);
    assert_eq!(classify_event("something-else"), EventKind::Other);
    assert_eq!(classify_event(""), EventKind::Other);
}

#[test]
fn auth_accepts_valid_device_response() {
    let s = auth_setup();
    let response = encode(&s.device_priv.sign(&s.challenge).unwrap());
    let events = vec![put(text_body(&response))];
    assert_eq!(
        run_auth_stream(&s.device_key, &s.challenge, &s.own_sig_b64, &events),
        Ok(())
    );
}

#[test]
fn auth_rejects_bad_signature() {
    let s = auth_setup();
    let mut sig = s.device_priv.sign(&s.challenge).unwrap();
    sig[8] ^= 1;
    let events = vec![put(text_body(&encode(&sig)))];
    assert_eq!(
        run_auth_stream(&s.device_key, &s.challenge, &s.own_sig_b64, &events),
        Err(Failure::BadSignature)
    );
}

#[test]
fn auth_ignores_echo_of_own_write() {
    let s = auth_setup();
    let events = vec![put(text_body(&s.own_sig_b64))];
    assert_eq!(
        run_auth_stream(&s.device_key, &s.challenge, &s.own_sig_b64, &events),
        Err(Failure::ConnectionClosed)
    );
}

#[test]
fn auth_ignores_echo_then_accepts_response() {
    let s = auth_setup();
    let response = encode(&s.device_priv.sign(&s.challenge).unwrap());
    let events = vec![
        put(text_body(&s.own_sig_b64)),
        StreamEvent { event: "keep-alive".to_string(), data: String::new() },
        put(text_body(&response)),
    ];
    assert_eq!(
        run_auth_stream(&s.device_key, &s.challenge, &s.own_sig_b64, &events),
        Ok(())
    );
}

#[test]
fn auth_fails_on_patch() {
    let s = auth_setup();
    let events = vec![StreamEvent { event: "patch".to_string(), data: String::new() }];
    assert_eq!(
        run_auth_stream(&s.device_key, &s.challenge, &s.own_sig_b64, &events),
        Err(Failure::UnexpectedModification)
    );
}

#[test]
fn auth_fails_on_cancel() {
    let s = auth_setup();
    let events = vec![StreamEvent { event: "cancel".to_string(), data: String::new() }];
    assert_eq!(
        run_auth_stream(&s.device_key, &s.challenge, &s.own_sig_b64, &events),
        Err(Failure::PermissionsRevoked)
    );
}

#[test]
fn auth_fails_on_malformed_body_and_strange_path() {
    let s = auth_setup();
    assert_eq!(
        run_auth_stream(&s.device_key, &s.challenge, &s.own_sig_b64, &vec![put(
            "not json".to_string()
        )]),
        Err(Failure::BadMessage)
    );
    assert_eq!(
        run_auth_stream(&s.device_key, &s.challenge, &s.own_sig_b64, &vec![put(
            "{\"path\":\"/child\",\"data\":\"x\"}".to_string()
        )]),
        Err(Failure::BadMessage)
    );
}

#[test]
fn auth_ignores_unrecognized_events_until_stream_ends() {
    let s = auth_setup();
    let events = vec![
        StreamEvent { event: "auth_revoked".to_string(), data: String::new() },
        StreamEvent { event: "mystery".to_string(), data: String::new() },
    ];
    assert_eq!(
        run_auth_stream(&s.device_key, &s.challenge, &s.own_sig_b64, &events),
        Err(Failure::ConnectionClosed)
    );
}

#[test]
fn auth_step_ignores_missing_path() {
    let s = auth_setup();
    assert_eq!(
        auth_step(
            &s.device_key,
            &s.challenge,
            &s.own_sig_b64,
            EventKind::Put,
            "{\"data\":\"x\"}"
        ),
        None
    );
}

#[test]
fn enrollment_accepts_properly_tagged_key() {
    let e = prepare_enrollment().unwrap();
    let paired = PrivKey::generate().unwrap();
    let pub_der = paired.public().to_der().unwrap();
    let tag = e.secret.sign(&pub_der).unwrap();
    let events = vec![put(pair_body(&encode(&pub_der), &encode(&tag)))];
    assert_eq!(run_enroll_stream(&e.secret, &events), Ok(pub_der));
}

#[test]
fn enrollment_rejects_tampered_tag() {
    let e = prepare_enrollment().unwrap();
    let paired = PrivKey::generate().unwrap();
    let pub_der = paired.public().to_der().unwrap();
    let mut tag = e.secret.sign(&pub_der).unwrap();
    tag[0] ^= 1;
    let events = vec![put(pair_body(&encode(&pub_der), &encode(&tag)))];
    assert_eq!(run_enroll_stream(&e.secret, &events), Err(Failure::BadSignature));
}

#[test]
fn enrollment_ignores_plain_text_and_foreign_paths() {
    let e = prepare_enrollment().unwrap();
    let events = vec![
        put(text_body("just-a-string")),
        put("{\"path\":\"/other\",\"data\":{\"p\":\"AAAA\",\"s\":\"AAAA\"}}".to_string()),
    ];
    assert_eq!(run_enroll_stream(&e.secret, &events), Err(Failure::ConnectionClosed));
}

#[test]
fn enrollment_material_is_well_formed() {
    let e = prepare_enrollment().unwrap();
    assert_eq!(e.id.len(), 43);
    assert_eq!(decode(&e.id).unwrap().len(), 32);
    assert_eq!(decode(&e.secret_b64).unwrap().len(), 32);
    assert_eq!(
        decode(&e.public_key_b64).unwrap(),
        e.key.public().to_der().unwrap()
    );
}

#[test]
fn race_takes_earliest_failure_over_later_success() {
    // device A fails early with a bad signature, device B would succeed
    // later, the timer would fire last: the early failure is final
    let events = vec![
        RaceEvent { at_ms: 50, outcome: Err(Failure::BadSignature) },
        RaceEvent { at_ms: 200, outcome: Ok(()) },
        RaceEvent { at_ms: 500, outcome: Err(Failure::Timeout) },
    ];
    assert_eq!(race_outcome(&events), Some(Err(Failure::BadSignature)));
}

#[test]
fn race_takes_earliest_success_over_later_failure() {
    let events = vec![
        RaceEvent { at_ms: 500, outcome: Err(Failure::Timeout) },
        RaceEvent { at_ms: 20, outcome: Ok(()) },
    ];
    assert_eq!(race_outcome(&events), Some(Ok(())));
}

#[test]
fn race_breaks_ties_by_listing_order() {
    let events = vec![
        RaceEvent { at_ms: 100, outcome: Err(Failure::PermissionsRevoked) },
        RaceEvent { at_ms: 100, outcome: Ok(()) },
    ];
    assert_eq!(race_outcome(&events), Some(Err(Failure::PermissionsRevoked)));
    assert_eq!(race_outcome(&Vec::new()), None);
}

#[test]
fn zero_devices_fail_immediately_with_no_tasks() {
    assert!(matches!(
        prepare_auth("https://backend.example/db", &Vec::new()),
        Err(Failure::NoDevices)
    ));
}

#[test]
fn prepare_auth_builds_one_signed_challenge_per_device() {
    let own = PrivKey::generate().unwrap();
    let other_pair = PrivKey::generate().unwrap();
    let other = PubKey::from_der(&other_pair.public().to_der().unwrap()).unwrap();
    let device = Device {
        username: "alice".to_string(),
        id: encode(&random(32).unwrap()),
        other_key: other,
        own_key: own,
    };
    let own_pub = PubKey::from_der(&device.own_key.public().to_der().unwrap()).unwrap();
    let tasks = prepare_auth("https://backend.example/db", &vec![device]).unwrap();
    assert_eq!(tasks.len(), 1);
    let task = &tasks[0];
    assert_eq!(task.challenge.len(), 32);
    assert!(task.resource.starts_with("https://backend.example/db/c/"));
    assert!(task.resource.ends_with("/.json/"));
    let sig = decode(&task.signature_b64).unwrap();
    assert!(own_pub.verify(&task.challenge, &sig));
}

#[test]
fn build_url_has_canonical_shape() {
    assert_eq!(
        build_url("https://h/db", "c", "ID", Some("MSG")),
        "https://h/db/c/ID/MSG/.json/"
    );
    assert_eq!(build_url("https://h/db", "i", "ID", None), "https://h/db/i/ID/.json/");
}

#[test]
fn usage_names_every_argument() {
    assert_eq!(
        usage("pushauth-enroll"),
        "Usage: pushauth-enroll <baseurl> <keyfile> <username> <device-name>"
    );
}
