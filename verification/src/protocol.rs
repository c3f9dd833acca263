//! The challenge-response protocol engine: interpretation of stream
//! messages for the authentication and enrollment flows, the verified
//! consumption of a whole message stream, the first-arrival race decision,
//! and the preparation of the per-device challenges and the enrollment
//! material.
use vstd::prelude::*;
use vstd::string::*;
use crate::codec::{all_b64url, b64_decode_of, b64_of, decode, encode};
use crate::config::Device;
use crate::crypto::{
    is_pub_der, mac_accepts, pub_der_of, random, sig_valid, tag_matches, CryptoError, PrivKey,
    PubKey, SecretKey,
};
use crate::strings::str_eq;
use crate::transport::{build_url, spec_build_url, Info, InfoView};

verus! {

/// A tagged failure reason: every worker error is caught locally and
/// becomes one of these; the race exposes exactly one of them, or success.
#[derive(Clone, Copy, PartialEq, Eq, Structural, Debug)]
pub enum Failure {
    /// A response signature or MAC tag that does not verify.
    BadSignature,
    /// A `patch` event: challenge data is never legitimately modified.
    UnexpectedModification,
    /// A `cancel` event: the backend revoked permission for the resource.
    PermissionsRevoked,
    /// The shared time bound elapsed.
    Timeout,
    /// The stream ended without a terminal message.
    ConnectionClosed,
    /// A message whose shape the protocol does not allow: unparsable
    /// body, a path other than the root, or an undecodable field.
    BadMessage,
    /// The cryptographic engine failed while interpreting a message.
    Crypto,
    /// No device is registered for the user: failure without any
    /// transport activity.
    NoDevices,
}

/// The type tag of a stream message.
#[derive(Clone, Copy, PartialEq, Eq, Structural, Debug)]
pub enum EventKind {
    Put,
    Patch,
    KeepAlive,
    Cancel,
    AuthRevoked,
    Other,
}

/// Which tag a raw event-type string denotes.
pub open spec fn spec_classify(s: Seq<char>) -> EventKind {
    if s == "put"@ {
        EventKind::Put
    } else if s == "patch"@ {
        EventKind::Patch
    } else if s == "keep-alive"@ {
        EventKind::KeepAlive
    } else if s == "cancel"@ {
        EventKind::Cancel
    } else if s == "auth_revoked"@ {
        EventKind::AuthRevoked
    } else {
        EventKind::Other
    }
}

/// Maps a raw event-type string to its tag; unrecognized types are
/// [`EventKind::Other`].
pub fn classify_event(event: &str) -> (r: EventKind)
    ensures
        r == spec_classify(event@),
{
    if str_eq(event, "put") {
        EventKind::Put
    } else if str_eq(event, "patch") {
        EventKind::Patch
    } else if str_eq(event, "keep-alive") {
        EventKind::KeepAlive
    } else if str_eq(event, "cancel") {
        EventKind::Cancel
    } else if str_eq(event, "auth_revoked") {
        EventKind::AuthRevoked
    } else {
        EventKind::Other
    }
}

/// The value part of a message body, reduced to the shapes the protocol
/// reads.
pub enum PayloadData {
    /// The value is a single string.
    Text(String),
    /// The value is an object carrying a public key and a tag.
    Pair(Info),
    /// Any other value.
    Other,
}

/// The mathematical content of a [`PayloadData`].
pub enum PayloadDataSpec {
    Text(Seq<char>),
    Pair(InfoView),
    Other,
}

impl View for PayloadData {
    type V = PayloadDataSpec;

    open spec fn view(&self) -> PayloadDataSpec {
        match self {
            PayloadData::Text(s) => PayloadDataSpec::Text(s@),
            PayloadData::Pair(i) => PayloadDataSpec::Pair(i@),
            PayloadData::Other => PayloadDataSpec::Other,
        }
    }
}

/// A message body as the protocol sees it.
pub enum Payload {
    /// The body is not JSON.
    Malformed,
    /// The body has no string at its `path` member.
    NoPath,
    /// A path and the associated value.
    Value { path: String, data: PayloadData },
}

/// The mathematical content of a [`Payload`].
pub enum PayloadSpec {
    Malformed,
    NoPath,
    Value { path: Seq<char>, data: PayloadDataSpec },
}

impl View for Payload {
    type V = PayloadSpec;

    open spec fn view(&self) -> PayloadSpec {
        match self {
            Payload::Malformed => PayloadSpec::Malformed,
            Payload::NoPath => PayloadSpec::NoPath,
            Payload::Value { path, data } => PayloadSpec::Value { path: path@, data: data@ },
        }
    }
}

/// How a message body reads as a payload: a function of the body text
/// alone.
pub uninterp spec fn payload_of(s: Seq<char>) -> PayloadSpec;

/// Relies on json's `parse` and the `JsonValue` accessors: reads the event
/// body `{"path": <string>, "data": <value>}`, keeping of the value only
/// the string form, or the `p`/`s` string pair, that the two flows read.
#[verifier::external_body]
pub fn parse_payload(body: &str) -> (r: Payload)
    ensures
        r@ == payload_of(body@),
{
    let v = match json::parse(body) { Ok(v) => v, Err(_) => return Payload::Malformed };
    let path = match v["path"].as_str() { Some(p) => p.to_string(), None => return Payload::NoPath };
    let d = &v["data"];
    if let Some(s) = d.as_str() {
        return Payload::Value { path, data: PayloadData::Text(s.to_string()) };
    }
    if let (Some(p), Some(s)) = (d["p"].as_str(), d["s"].as_str()) {
        let info = Info { public_key: p.to_string(), signature: s.to_string() };
        return Payload::Value { path, data: PayloadData::Pair(info) };
    }
    Payload::Value { path, data: PayloadData::Other }
}

/// What one message does to the authentication flow: `None` keeps
/// waiting; `Some` is the worker's terminal outcome.  An echo of this
/// system's own signature is ignored; any other string payload at the
/// root is decoded and verified against the device's registered key and
/// the original challenge.
pub open spec fn spec_auth_step(
    key: Seq<u8>,
    challenge: Seq<u8>,
    own_sig_b64: Seq<char>,
    kind: EventKind,
    body: Seq<char>,
) -> Option<Result<(), Failure>> {
    match kind {
        EventKind::Put => match payload_of(body) {
            PayloadSpec::Malformed => Some(Err(Failure::BadMessage)),
            PayloadSpec::NoPath => None,
            PayloadSpec::Value { path, data } => if path != "/"@ {
                Some(Err(Failure::BadMessage))
            } else {
                match data {
                    PayloadDataSpec::Text(s) => if s == own_sig_b64 {
                        None
                    } else {
                        match b64_decode_of(s) {
                            None => Some(Err(Failure::BadMessage)),
                            Some(sig) => if sig_valid(key, challenge, sig) {
                                Some(Ok(()))
                            } else {
                                Some(Err(Failure::BadSignature))
                            },
                        }
                    },
                    _ => Some(Err(Failure::BadMessage)),
                }
            },
        },
        EventKind::Patch => Some(Err(Failure::UnexpectedModification)),
        EventKind::Cancel => Some(Err(Failure::PermissionsRevoked)),
        EventKind::KeepAlive => None,
        EventKind::AuthRevoked => None,
        EventKind::Other => None,
    }
}

/// Interprets one stream message for the authentication flow.
pub fn auth_step(
    device_key: &PubKey,
    challenge: &Vec<u8>,
    own_sig_b64: &str,
    kind: EventKind,
    body: &str,
) -> (r: Option<Result<(), Failure>>)
    ensures
        r == spec_auth_step(device_key@, challenge@, own_sig_b64@, kind, body@),
{
    match kind {
        EventKind::Put => {
            match parse_payload(body) {
                Payload::Malformed => Some(Err(Failure::BadMessage)),
                Payload::NoPath => None,
                Payload::Value { path, data } => {
                    if !str_eq(path.as_str(), "/") {
                        Some(Err(Failure::BadMessage))
                    } else {
                        match data {
                            PayloadData::Text(s) => {
                                if str_eq(s.as_str(), own_sig_b64) {
                                    None
                                } else {
                                    match decode(s.as_str()) {
                                        Err(_) => Some(Err(Failure::BadMessage)),
                                        Ok(sig) => {
                                            if device_key.verify(
                                                challenge.as_slice(),
                                                sig.as_slice(),
                                            ) {
                                                Some(Ok(()))
                                            } else {
                                                Some(Err(Failure::BadSignature))
                                            }
                                        },
                                    }
                                }
                            },
                            _ => Some(Err(Failure::BadMessage)),
                        }
                    }
                },
            }
        },
        EventKind::Patch => Some(Err(Failure::UnexpectedModification)),
        EventKind::Cancel => Some(Err(Failure::PermissionsRevoked)),
        EventKind::KeepAlive => None,
        EventKind::AuthRevoked => None,
        EventKind::Other => None,
    }
}

/// What one message does to the enrollment flow: a root `put` carrying a
/// key and a tag is verified under the pairing secret; other root values
/// keep the flow waiting.
pub open spec fn spec_enroll_step(secret: Seq<u8>, kind: EventKind, body: Seq<char>) -> Option<
    Result<Seq<u8>, Failure>,
> {
    match kind {
        EventKind::Put => match payload_of(body) {
            PayloadSpec::Malformed => Some(Err(Failure::BadMessage)),
            PayloadSpec::NoPath => None,
            PayloadSpec::Value { path, data } => if path == "/"@ {
                match data {
                    PayloadDataSpec::Pair(info) => match b64_decode_of(info.public_key) {
                        None => Some(Err(Failure::BadMessage)),
                        Some(pk) => match b64_decode_of(info.signature) {
                            None => Some(Err(Failure::BadMessage)),
                            Some(tag) => if mac_accepts(secret, pk, tag) {
                                Some(Ok(pk))
                            } else {
                                Some(Err(Failure::BadSignature))
                            },
                        },
                    },
                    _ => None,
                }
            } else {
                None
            },
        },
        EventKind::Patch => Some(Err(Failure::UnexpectedModification)),
        EventKind::Cancel => Some(Err(Failure::PermissionsRevoked)),
        EventKind::KeepAlive => None,
        EventKind::AuthRevoked => None,
        EventKind::Other => None,
    }
}

/// The mathematical content of an enrollment step result.
pub open spec fn enroll_step_view(r: Option<Result<Vec<u8>, Failure>>) -> Option<
    Result<Seq<u8>, Failure>,
> {
    match r {
        None => None,
        Some(Ok(v)) => Some(Ok(v@)),
        Some(Err(e)) => Some(Err(e)),
    }
}

/// The one message shape whose interpretation computes a MAC: a root
/// `put` carrying a decodable key and tag.  Only there can the engine
/// itself fail.
pub open spec fn spec_step_needs_mac(kind: EventKind, body: Seq<char>) -> bool {
    &&& kind is Put
    &&& payload_of(body) matches PayloadSpec::Value { path, data } && path == "/"@
        && (data matches PayloadDataSpec::Pair(info) && b64_decode_of(info.public_key) is Some
        && b64_decode_of(info.signature) is Some)
}

/// Interprets one stream message for the enrollment flow.  The result is
/// exactly the spec interpretation; only on the one shape that computes a
/// MAC may it instead report [`Failure::Crypto`], when the engine fails.
pub fn enroll_step(secret: &SecretKey, kind: EventKind, body: &str) -> (r: Option<
    Result<Vec<u8>, Failure>,
>)
    ensures
        enroll_step_view(r) == spec_enroll_step(secret@, kind, body@) || (r == Some(
            Err::<Vec<u8>, Failure>(Failure::Crypto),
        ) && spec_step_needs_mac(kind, body@)),
{
    match kind {
        EventKind::Put => {
            match parse_payload(body) {
                Payload::Malformed => Some(Err(Failure::BadMessage)),
                Payload::NoPath => None,
                Payload::Value { path, data } => {
                    if str_eq(path.as_str(), "/") {
                        match data {
                            PayloadData::Pair(info) => {
                                let pk = match decode(info.public_key.as_str()) {
                                    Ok(v) => v,
                                    Err(_) => {
                                        return Some(Err(Failure::BadMessage));
                                    },
                                };
                                let tag = match decode(info.signature.as_str()) {
                                    Ok(v) => v,
                                    Err(_) => {
                                        return Some(Err(Failure::BadMessage));
                                    },
                                };
                                match secret.sign(pk.as_slice()) {
                                    Err(_) => Some(Err(Failure::Crypto)),
                                    Ok(expected) => {
                                        if tag_matches(expected.as_slice(), tag.as_slice()) {
                                            Some(Ok(pk))
                                        } else {
                                            Some(Err(Failure::BadSignature))
                                        }
                                    },
                                }
                            },
                            _ => None,
                        }
                    } else {
                        None
                    }
                },
            }
        },
        EventKind::Patch => Some(Err(Failure::UnexpectedModification)),
        EventKind::Cancel => Some(Err(Failure::PermissionsRevoked)),
        EventKind::KeepAlive => None,
        EventKind::AuthRevoked => None,
        EventKind::Other => None,
    }
}


/// One received stream message: the raw event-type string and the raw
/// body.
pub struct StreamEvent {
    pub event: String,
    pub data: String,
}

/// The mathematical content of a [`StreamEvent`].
pub struct StreamEventView {
    pub event: Seq<char>,
    pub data: Seq<char>,
}

impl View for StreamEvent {
    type V = StreamEventView;

    open spec fn view(&self) -> StreamEventView {
        StreamEventView { event: self.event@, data: self.data@ }
    }
}

/// The authentication outcome of a whole message stream: the first
/// terminal step decides; a stream that ends without one fails with
/// [`Failure::ConnectionClosed`].
pub open spec fn spec_run_auth(
    key: Seq<u8>,
    challenge: Seq<u8>,
    own_sig_b64: Seq<char>,
    events: Seq<StreamEventView>,
) -> Result<(), Failure>
    decreases events.len(),
{
    if events.len() == 0 {
        Err(Failure::ConnectionClosed)
    } else {
        match spec_auth_step(
            key,
            challenge,
            own_sig_b64,
            spec_classify(events[0].event),
            events[0].data,
        ) {
            Some(res) => res,
            None => spec_run_auth(key, challenge, own_sig_b64, events.skip(1)),
        }
    }
}

/// Consumes a finished message stream for the authentication flow: the
/// first terminal message decides the worker's outcome.
pub fn run_auth_stream(
    device_key: &PubKey,
    challenge: &Vec<u8>,
    own_sig_b64: &str,
    events: &Vec<StreamEvent>,
) -> (r: Result<(), Failure>)
    ensures
        r == spec_run_auth(
            device_key@,
            challenge@,
            own_sig_b64@,
            events@.map_values(|e: StreamEvent| e@),
        ),
{
    let ghost ev = events@.map_values(|e: StreamEvent| e@);
    proof {
        assert(ev.skip(0) =~= ev);
    }
    let mut i: usize = 0;
    while i < events.len()
        invariant
            0 <= i <= events.len(),
            ev == events@.map_values(|e: StreamEvent| e@),
            ev.len() == events@.len(),
            spec_run_auth(device_key@, challenge@, own_sig_b64@, ev) == spec_run_auth(
                device_key@,
                challenge@,
                own_sig_b64@,
                ev.skip(i as int),
            ),
        decreases events.len() - i,
    {
        let e = &events[i];
        proof {
            assert(ev.skip(i as int)[0] == ev[i as int]);
            assert(ev.skip(i as int).skip(1) =~= ev.skip(i + 1));
        }
        let kind = classify_event(e.event.as_str());
        match auth_step(device_key, challenge, own_sig_b64, kind, e.data.as_str()) {
            Some(res) => {
                return res;
            },
            None => {},
        }
        i += 1;
    }
    proof {
        assert(ev.skip(ev.len() as int) =~= Seq::<StreamEventView>::empty());
    }
    Err(Failure::ConnectionClosed)
}

/// The enrollment outcome of a whole message stream.
pub open spec fn spec_run_enroll(secret: Seq<u8>, events: Seq<StreamEventView>) -> Result<
    Seq<u8>,
    Failure,
>
    decreases events.len(),
{
    if events.len() == 0 {
        Err(Failure::ConnectionClosed)
    } else {
        match spec_enroll_step(secret, spec_classify(events[0].event), events[0].data) {
            Some(res) => res,
            None => spec_run_enroll(secret, events.skip(1)),
        }
    }
}

/// The mathematical content of an enrollment outcome.
pub open spec fn enroll_result_view(r: Result<Vec<u8>, Failure>) -> Result<Seq<u8>, Failure> {
    match r {
        Ok(v) => Ok(v@),
        Err(e) => Err(e),
    }
}

/// Whether folding the stream reaches a MAC computation: its first
/// terminal message — every message before it interpreting as
/// non-terminal — is the one shape that computes a MAC.
pub open spec fn spec_stream_reaches_mac(secret: Seq<u8>, events: Seq<StreamEventView>) -> bool
    decreases events.len(),
{
    if events.len() == 0 {
        false
    } else {
        match spec_enroll_step(secret, spec_classify(events[0].event), events[0].data) {
            Some(_) => spec_step_needs_mac(spec_classify(events[0].event), events[0].data),
            None => spec_stream_reaches_mac(secret, events.skip(1)),
        }
    }
}

/// Consumes a finished message stream for the enrollment flow.  The
/// outcome is exactly the spec fold; only a stream whose first terminal
/// message computes a MAC may instead report [`Failure::Crypto`], when
/// the engine fails there.
pub fn run_enroll_stream(secret: &SecretKey, events: &Vec<StreamEvent>) -> (r: Result<
    Vec<u8>,
    Failure,
>)
    ensures
        enroll_result_view(r) == spec_run_enroll(secret@, events@.map_values(|e: StreamEvent| e@))
            || (r == Err::<Vec<u8>, Failure>(Failure::Crypto) && spec_stream_reaches_mac(
            secret@,
            events@.map_values(|e: StreamEvent| e@),
        )),
{
    let ghost ev = events@.map_values(|e: StreamEvent| e@);
    proof {
        assert(ev.skip(0) =~= ev);
    }
    let mut i: usize = 0;
    while i < events.len()
        invariant
            0 <= i <= events.len(),
            ev == events@.map_values(|e: StreamEvent| e@),
            ev.len() == events@.len(),
            spec_run_enroll(secret@, ev) == spec_run_enroll(secret@, ev.skip(i as int)),
            spec_stream_reaches_mac(secret@, ev) == spec_stream_reaches_mac(
                secret@,
                ev.skip(i as int),
            ),
        decreases events.len() - i,
    {
        let e = &events[i];
        proof {
            assert(ev.skip(i as int)[0] == ev[i as int]);
            assert(ev.skip(i as int).skip(1) =~= ev.skip(i + 1));
        }
        let kind = classify_event(e.event.as_str());
        match enroll_step(secret, kind, e.data.as_str()) {
            Some(res) => {
                return res;
            },
            None => {},
        }
        i += 1;
    }
    proof {
        assert(ev.skip(ev.len() as int) =~= Seq::<StreamEventView>::empty());
    }
    Err(Failure::ConnectionClosed)
}

/// One participant's terminal event in the race: when it arrived, and
/// what it decided.
pub struct RaceEvent {
    pub at_ms: u64,
    pub outcome: Result<(), Failure>,
}

/// Whether participant `i` wins the race: no event arrives earlier, and
/// among events of the same time the earliest-listed participant wins.
pub open spec fn wins(events: Seq<RaceEvent>, i: int) -> bool {
    &&& 0 <= i < events.len()
    &&& forall|k: int| 0 <= k < events.len() ==> events[i].at_ms <= #[trigger] events[k].at_ms
    &&& forall|k: int| 0 <= k < i ==> #[trigger] events[k].at_ms > events[i].at_ms
}

/// The participant whose terminal event completes first.
pub fn first_arrival(events: &Vec<RaceEvent>) -> (r: Option<usize>)
    ensures
        match r {
            Some(i) => wins(events@, i as int),
            None => events@.len() == 0,
        },
{
    if events.len() == 0 {
        return None;
    }
    let mut best: usize = 0;
    let mut i: usize = 1;
    while i < events.len()
        invariant
            0 <= best < i <= events@.len(),
            forall|k: int| 0 <= k < i ==> events@[best as int].at_ms <= #[trigger] events@[k].at_ms,
            forall|k: int| 0 <= k < best ==> #[trigger] events@[k].at_ms > events@[best as int].at_ms,
        decreases events@.len() - i,
    {
        if events[i].at_ms < events[best].at_ms {
            best = i;
        }
        i += 1;
    }
    Some(best)
}

/// The race's final result: exactly the outcome of the first-arriving
/// terminal event, whatever its kind — a later success never overrides
/// an earlier failure or timeout, and the other way round.
pub fn race_outcome(events: &Vec<RaceEvent>) -> (r: Option<Result<(), Failure>>)
    ensures
        match r {
            Some(o) => exists|i: int| wins(events@, i) && o == events@[i].outcome,
            None => events@.len() == 0,
        },
{
    match first_arrival(events) {
        Some(i) => {
            let o = events[i].outcome;
            proof {
                assert(wins(events@, i as int) && o == events@[i as int].outcome);
            }
            Some(o)
        },
        None => None,
    }
}

/// Everything one device's racing worker needs: the challenge resource
/// address, the fresh challenge bytes, and this system's signature over
/// them, base64url-encoded as published.
pub struct ChallengeTask {
    pub resource: String,
    pub challenge: Vec<u8>,
    pub signature_b64: String,
}

/// A well-prepared challenge for a device: 32 fresh bytes, published
/// under the canonical challenge resource, signed with this system's key
/// for that device.
pub open spec fn task_fits(t: ChallengeTask, d: Device, base: Seq<char>) -> bool {
    &&& t.challenge@.len() == 32
    &&& t.resource@ == spec_build_url(base, "c"@, d.id@, Some(b64_of(t.challenge@)))
    &&& exists|sig: Seq<u8>|
        {
            &&& t.signature_b64@ == b64_of(sig)
            &&& b64_decode_of(t.signature_b64@) == Some(sig)
            &&& #[trigger] sig_valid(pub_der_of(d.own_key@), t.challenge@, sig)
        }
}

/// Prepares the authentication race: one signed challenge per registered
/// device.  With no devices the race fails at once, before any challenge
/// or resource exists, so no transport activity can follow.
pub fn prepare_auth(baseurl: &str, devices: &Vec<Device>) -> (r: Result<Vec<ChallengeTask>, Failure>)
    ensures
        devices@.len() == 0 <==> r == Err::<Vec<ChallengeTask>, Failure>(Failure::NoDevices),
        r matches Err(e) ==> e == Failure::NoDevices || e == Failure::Crypto,
        r matches Ok(ts) ==> ts@.len() == devices@.len() && forall|i: int|
            0 <= i < ts@.len() ==> task_fits(#[trigger] ts@[i], devices@[i], baseurl@),
{
    if devices.len() == 0 {
        return Err(Failure::NoDevices);
    }
    let mut tasks: Vec<ChallengeTask> = Vec::new();
    let mut i: usize = 0;
    while i < devices.len()
        invariant
            0 <= i <= devices@.len(),
            devices@.len() > 0,
            tasks@.len() == i,
            forall|k: int| 0 <= k < i ==> task_fits(#[trigger] tasks@[k], devices@[k], baseurl@),
        decreases devices.len() - i,
    {
        let device = &devices[i];
        let challenge = match random(32) {
            Ok(v) => v,
            Err(_) => {
                return Err(Failure::Crypto);
            },
        };
        let signature = match device.own_key.sign(challenge.as_slice()) {
            Ok(v) => v,
            Err(_) => {
                return Err(Failure::Crypto);
            },
        };
        let signature_b64 = encode(signature.as_slice());
        let challenge_b64 = encode(challenge.as_slice());
        let resource = build_url(baseurl, "c", device.id.as_str(), Some(challenge_b64.as_str()));
        proof {
            reveal_strlit("c");
        }
        let task = ChallengeTask { resource, challenge, signature_b64 };
        proof {
            assert(sig_valid(pub_der_of(device.own_key@), task.challenge@, signature@));
        }
        tasks.push(task);
        i += 1;
    }
    Ok(tasks)
}

/// The material a fresh enrollment presents out of band: a 43-character
/// device id over 32 random bytes, a pairing secret, a new keypair, and
/// the encodings that are shown to the paired device.
pub struct Enrollment {
    pub id: String,
    pub secret: SecretKey,
    pub key: PrivKey,
    pub secret_b64: String,
    pub public_key_b64: String,
}

/// Generates the enrollment material: a fresh id, pairing secret and
/// keypair, with the id and the presented encodings pinned to them.
pub fn prepare_enrollment() -> (r: Result<Enrollment, CryptoError>)
    ensures
        r matches Ok(e) ==> {
            &&& e.id@.len() == 43
            &&& all_b64url(e.id@)
            &&& exists|idb: Seq<u8>|
                idb.len() == 32 && #[trigger] b64_decode_of(e.id@) == Some(idb) && e.id@ == b64_of(
                    idb,
                )
            &&& e.secret_b64@ == b64_of(e.secret@)
            &&& e.public_key_b64@ == b64_of(pub_der_of(e.key@))
        },
        r matches Err(e) ==> e == CryptoError::Engine,
{
    let id_bytes = match random(32) {
        Ok(v) => v,
        Err(e) => {
            return Err(e);
        },
    };
    let id = encode(id_bytes.as_slice());
    let secret_bytes = match random(32) {
        Ok(v) => v,
        Err(e) => {
            return Err(e);
        },
    };
    let secret = match SecretKey::from(secret_bytes.as_slice()) {
        Ok(k) => k,
        Err(e) => {
            return Err(e);
        },
    };
    let key = match PrivKey::generate() {
        Ok(k) => k,
        Err(e) => {
            return Err(e);
        },
    };
    let public_der = match key.public().to_der() {
        Ok(v) => v,
        Err(e) => {
            return Err(e);
        },
    };
    let public_key_b64 = encode(public_der.as_slice());
    let secret_b64 = encode(secret.raw().as_slice());
    Ok(Enrollment { id, secret, key, secret_b64, public_key_b64 })
}

/// Builds the device record that a successful enrollment persists: the
/// paired device's received public key and this system's fresh private
/// key, under the new id and the enrolling user.
pub fn finish_enrollment(username: &str, id: &str, key: PrivKey, public_key: &Vec<u8>) -> (r:
    Result<Device, CryptoError>)
    ensures
        match r {
            Ok(d) => is_pub_der(public_key@) && d@.username == username@ && d@.id == id@
                && d@.other_key == public_key@ && d@.own_key == key@,
            Err(e) => !is_pub_der(public_key@) && e == CryptoError::MalformedKey,
        },
{
    let other_key = match PubKey::from_der(public_key.as_slice()) {
        Ok(k) => k,
        Err(e) => {
            return Err(e);
        },
    };
    Ok(
        Device {
            username: String::from_str(username),
            id: String::from_str(id),
            other_key,
            own_key: key,
        },
    )
}





} // verus!
