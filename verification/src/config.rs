//! Settings and the device registry.
//!
//! A registry line reads `username=deviceid:key:key`, where `deviceid` is
//! exactly 43 characters and each `key` is the URL-safe unpadded base64 of
//! a DER key: the paired device's public key, then this system's private
//! key for that device.  Malformed lines are locally recoverable: they are
//! skipped, never fatal.
use vstd::prelude::*;
use vstd::string::*;
use crate::codec::{all_b64url, b64_decode_of, b64_of, decode, encode, is_b64url_char};
use crate::crypto::{is_priv_der, is_pub_der, CryptoError, PrivKey, PubKey};
use crate::strings::{
    spec_parse_u64, spec_split2, spec_split3, lemma_first_occurrence, parse_u64, split2, split3,
    str_eq,
};

verus! {

/// A malformed registry field.
#[derive(Clone, Copy, PartialEq, Eq, Structural, Debug)]
pub enum ConfigError {
    /// A registry device field is not three `:`-separated parts.
    NotThreeParts,
    /// A device id is not exactly 43 characters.
    BadDeviceId,
    /// A key field is not well-formed base64url.
    NotBase64,
    /// Key bytes that the cryptographic engine does not accept.
    BadKey,
}

/// The mathematical content of [`Options`].
pub struct OptionsView {
    pub keyfile: Seq<char>,
    pub baseurl: Seq<char>,
    pub timeout: u64,
    pub username: Seq<char>,
}

/// The settings an authentication attempt runs under.
pub struct Options {
    pub keyfile: String,
    pub baseurl: String,
    /// Shared race timeout, in seconds.
    pub timeout: u64,
    pub username: String,
}

impl View for Options {
    type V = OptionsView;

    open spec fn view(&self) -> OptionsView {
        OptionsView {
            keyfile: self.keyfile@,
            baseurl: self.baseurl@,
            timeout: self.timeout@,
            username: self.username@,
        }
    }
}

/// The options before any setting is applied: empty paths, a 30 second
/// timeout, and the authenticating user's name.
pub open spec fn spec_initial_options(username: Seq<char>) -> OptionsView {
    OptionsView { keyfile: Seq::empty(), baseurl: Seq::empty(), timeout: 30, username }
}

/// How one setting argument changes the options: `keyfile` and `baseurl`
/// append to the current value, a well-formed `timeout` replaces the
/// current one, and everything else — a malformed timeout value, an
/// unknown key, or an argument without exactly one `=` — is locally
/// recoverable: the argument is skipped and the options stand unchanged.
pub open spec fn spec_apply_setting(o: OptionsView, arg: Seq<char>) -> OptionsView {
    match spec_split2(arg, '=') {
        None => o,
        Some((k, v)) => if k == "keyfile"@ {
            OptionsView { keyfile: o.keyfile + v, ..o }
        } else if k == "baseurl"@ {
            OptionsView { baseurl: o.baseurl + v, ..o }
        } else if k == "timeout"@ {
            match spec_parse_u64(v) {
                Some(t) => OptionsView { timeout: t, ..o },
                None => o,
            }
        } else {
            o
        },
    }
}

/// The settings folded over a whole argument list, left to right.
pub open spec fn spec_parse_options_from(o: OptionsView, args: Seq<Seq<char>>) -> OptionsView
    decreases args.len(),
{
    if args.len() == 0 {
        o
    } else {
        spec_parse_options_from(spec_apply_setting(o, args[0]), args.skip(1))
    }
}

impl Options {
    /// Parses the module's settings arguments for the given user.  No
    /// argument shape is fatal: malformed settings are skipped and
    /// parsing continues.
    pub fn parse(args: &Vec<String>, username: &str) -> (r: Options)
        ensures
            r@ == spec_parse_options_from(
                spec_initial_options(username@),
                args@.map_values(|a: String| a@),
            ),
    {
        let ghost av = args@.map_values(|a: String| a@);
        let mut options = Options {
            keyfile: String::new(),
            baseurl: String::new(),
            timeout: 30,
            username: String::from_str(username),
        };
        proof {
            assert(options@ =~= spec_initial_options(username@));
            assert(av.skip(0) =~= av);
        }
        let mut i: usize = 0;
        while i < args.len()
            invariant
                0 <= i <= args.len(),
                av == args@.map_values(|a: String| a@),
                av.len() == args@.len(),
                options@.username == username@,
                spec_parse_options_from(spec_initial_options(username@), av)
                    == spec_parse_options_from(options@, av.skip(i as int)),
            decreases args.len() - i,
        {
            let ghost before = options@;
            let arg = &args[i];
            match split2(arg.as_str(), '=') {
                None => {},
                Some((k, v)) => {
                    if str_eq(k.as_str(), "keyfile") {
                        options.keyfile.append(v.as_str());
                    } else if str_eq(k.as_str(), "baseurl") {
                        options.baseurl.append(v.as_str());
                    } else if str_eq(k.as_str(), "timeout") {
                        match parse_u64(v.as_str()) {
                            Some(t) => {
                                options.timeout = t;
                            },
                            None => {},
                        }
                    }
                },
            }
            proof {
                assert(av.skip(i as int)[0] == av[i as int]);
                assert(spec_apply_setting(before, av[i as int]) == options@);
                assert(av.skip(i as int).skip(1) =~= av.skip(i + 1));
            }
            i += 1;
        }
        proof {
            assert(av.skip(args@.len() as int) =~= Seq::<Seq<char>>::empty());
        }
        options
    }
}

/// The mathematical content of a [`Device`]: the keys stand as their DER
/// bytes.
pub struct DeviceView {
    pub username: Seq<char>,
    pub id: Seq<char>,
    pub other_key: Seq<u8>,
    pub own_key: Seq<u8>,
}

/// One paired device: who it belongs to, its 43-character id, the paired
/// device's public key, and this system's private key for it.
pub struct Device {
    pub username: String,
    pub id: String,
    pub other_key: PubKey,
    pub own_key: PrivKey,
}

impl View for Device {
    type V = DeviceView;

    open spec fn view(&self) -> DeviceView {
        DeviceView {
            username: self.username@,
            id: self.id@,
            other_key: self.other_key@,
            own_key: self.own_key@,
        }
    }
}

/// What parsing the device part of a registry line yields: three
/// `:`-separated fields, a 43-character id, and two base64url DER keys the
/// engine accepts — or the specific reason the line is rejected.
pub open spec fn spec_parse_device(user: Seq<char>, dev: Seq<char>) -> Result<
    DeviceView,
    ConfigError,
> {
    match spec_split3(dev, ':') {
        None => Err(ConfigError::NotThreeParts),
        Some((id, okey, wkey)) => if id.len() != 43 {
            Err(ConfigError::BadDeviceId)
        } else {
            match b64_decode_of(okey) {
                None => Err(ConfigError::NotBase64),
                Some(o) => match b64_decode_of(wkey) {
                    None => Err(ConfigError::NotBase64),
                    Some(w) => if !is_pub_der(o) {
                        Err(ConfigError::BadKey)
                    } else if !is_priv_der(w) {
                        Err(ConfigError::BadKey)
                    } else {
                        Ok(DeviceView { username: user, id, other_key: o, own_key: w })
                    },
                },
            }
        },
    }
}

impl Device {
    /// Parses the device part of a registry line (everything after the
    /// `=`) for the given user.
    pub fn parse(username: &str, device: &str) -> (r: Result<Device, ConfigError>)
        ensures
            match r {
                Ok(d) => spec_parse_device(username@, device@) == Ok::<DeviceView, ConfigError>(
                    d@,
                ),
                Err(e) => spec_parse_device(username@, device@) == Err::<DeviceView, ConfigError>(
                    e,
                ),
            },
    {
        let parts = match split3(device, ':') {
            Some(p) => p,
            None => {
                return Err(ConfigError::NotThreeParts);
            },
        };
        let (id, okey, wkey) = parts;
        if id.unicode_len() != 43 {
            return Err(ConfigError::BadDeviceId);
        }
        let other = match decode(okey.as_str()) {
            Ok(v) => v,
            Err(_) => {
                return Err(ConfigError::NotBase64);
            },
        };
        let own = match decode(wkey.as_str()) {
            Ok(v) => v,
            Err(_) => {
                return Err(ConfigError::NotBase64);
            },
        };
        let other_key = match PubKey::from_der(other.as_slice()) {
            Ok(k) => k,
            Err(_) => {
                return Err(ConfigError::BadKey);
            },
        };
        let own_key = match PrivKey::from_der(own.as_slice()) {
            Ok(k) => k,
            Err(_) => {
                return Err(ConfigError::BadKey);
            },
        };
        let d = Device { username: String::from_str(username), id, other_key, own_key };
        proof {
            assert(d@ =~= spec_parse_device(username@, device@).unwrap());
        }
        Ok(d)
    }
}


/// The device part of a registry line: id, then the two base64url keys,
/// `:`-separated.
pub open spec fn spec_device_part(d: DeviceView) -> Seq<char> {
    d.id + seq![':'] + b64_of(d.other_key) + seq![':'] + b64_of(d.own_key)
}

/// A whole registry line: the username, `=`, then the device part.
pub open spec fn spec_config_line(d: DeviceView) -> Seq<char> {
    d.username + seq!['='] + spec_device_part(d)
}

impl Device {
    /// Renders this device's registry line.
    pub fn to_config(&self) -> (r: Result<String, CryptoError>)
        ensures
            r matches Ok(line) && line@ == spec_config_line(self@),
            b64_decode_of(b64_of(self@.other_key)) == Some(self@.other_key),
            b64_decode_of(b64_of(self@.own_key)) == Some(self@.own_key),
            all_b64url(b64_of(self@.other_key)),
            all_b64url(b64_of(self@.own_key)),
    {
        let other_der = match self.other_key.to_der() {
            Ok(v) => v,
            Err(e) => {
                return Err(e);
            },
        };
        let own_der = match self.own_key.to_der() {
            Ok(v) => v,
            Err(e) => {
                return Err(e);
            },
        };
        let o = encode(other_der.as_slice());
        let w = encode(own_der.as_slice());
        let mut line = String::new();
        line.append(self.username.as_str());
        line.append("=");
        line.append(self.id.as_str());
        line.append(":");
        line.append(o.as_str());
        line.append(":");
        line.append(w.as_str());
        proof {
            reveal_strlit("=");
            reveal_strlit(":");
            assert(line@ =~= spec_config_line(self@));
        }
        Ok(line)
    }
}

/// Registry round trip: a device whose username holds no separator and
/// whose id is 43 URL-safe base64 characters parses back, field for field,
/// from its own registry line.  (A username with an `=` in it breaks the
/// line format and is excluded.)
pub proof fn lemma_config_round_trip(d: DeviceView)
    requires
        !d.username.contains('='),
        d.id.len() == 43,
        all_b64url(d.id),
        is_pub_der(d.other_key),
        is_priv_der(d.own_key),
        b64_decode_of(b64_of(d.other_key)) == Some(d.other_key),
        b64_decode_of(b64_of(d.own_key)) == Some(d.own_key),
        all_b64url(b64_of(d.other_key)),
        all_b64url(b64_of(d.own_key)),
    ensures
        spec_split2(spec_config_line(d), '=') == Some((d.username, spec_device_part(d))),
        spec_parse_device(d.username, spec_device_part(d)) == Ok::<DeviceView, ConfigError>(d),
{
    let u = d.username;
    let id = d.id;
    let o = b64_of(d.other_key);
    let w = b64_of(d.own_key);
    let dev = spec_device_part(d);
    let line = spec_config_line(d);
    assert(dev.len() == id.len() + 1 + o.len() + 1 + w.len());
    assert forall|k: int| 0 <= k < dev.len() implies dev[k] != '=' && (k != 43 ==> (44 <= k < 44
        + o.len() || 45 + o.len() <= k) ==> dev[k] != ':') by {
        if k < 43 {
            assert(dev[k] == id[k]);
            assert(is_b64url_char(id[k]));
        } else if k == 43 {
            assert(dev[k] == ':');
        } else if k < 44 + o.len() {
            assert(dev[k] == o[k - 44]);
            assert(is_b64url_char(o[k - 44]));
        } else if k == 44 + o.len() {
            assert(dev[k] == ':');
        } else {
            assert(dev[k] == w[k - 45 - o.len()]);
            assert(is_b64url_char(w[k - 45 - o.len()]));
        }
    };
    // the single '=' sits right after the username
    assert(line[u.len() as int] == '=');
    assert forall|k: int| 0 <= k < u.len() implies line[k] != '=' by {
        assert(line[k] == u[k]);
        assert(!u.contains('='));
    };
    lemma_first_occurrence(line, '=', u.len() as int);
    assert(line.take(u.len() as int) =~= u);
    assert(line.skip(u.len() as int + 1) =~= dev);
    assert(!dev.contains('='));
    assert(spec_split2(line, '=') == Some((u, dev)));
    // the first ':' of the device part closes the 43-character id
    assert(dev[43] == ':');
    assert forall|k: int| 0 <= k < 43 implies dev[k] != ':' by {
        assert(dev[k] == id[k]);
        assert(is_b64url_char(id[k]));
    };
    lemma_first_occurrence(dev, ':', 43);
    assert(dev.take(43) =~= id);
    let rest = dev.skip(44);
    assert(rest =~= o + seq![':'] + w);
    // the second ':' closes the first key
    assert(rest[o.len() as int] == ':');
    assert forall|k: int| 0 <= k < o.len() implies rest[k] != ':' by {
        assert(rest[k] == o[k]);
        assert(is_b64url_char(o[k]));
    };
    lemma_first_occurrence(rest, ':', o.len() as int);
    assert(rest.take(o.len() as int) =~= o);
    assert(rest.skip(o.len() as int + 1) =~= w);
    assert forall|k: int| 0 <= k < w.len() implies w[k] != ':' by {
        assert(is_b64url_char(w[k]));
    };
    assert(!w.contains(':'));
    assert(spec_split3(dev, ':') == Some((id, o, w)));
    assert(spec_parse_device(u, dev) == Ok::<DeviceView, ConfigError>(
        DeviceView { username: u, id, other_key: d.other_key, own_key: d.own_key },
    ));
    assert(DeviceView { username: u, id, other_key: d.other_key, own_key: d.own_key } == d);
}

/// The device a registry line contributes for a wanted user: none unless
/// the line is a single `=`-separated pair, its user is the wanted one,
/// and its device part parses.
pub open spec fn spec_line_device(line: Seq<char>, user: Seq<char>) -> Option<DeviceView> {
    match spec_split2(line, '=') {
        Some((u, devpart)) => if u == user {
            match spec_parse_device(u, devpart) {
                Ok(d) => Some(d),
                Err(_) => None,
            }
        } else {
            None
        },
        None => None,
    }
}

/// The devices a whole registry contributes for a wanted user, in line
/// order, malformed and foreign lines skipped.
pub open spec fn spec_fetch_all(lines: Seq<Seq<char>>, user: Seq<char>) -> Seq<DeviceView>
    decreases lines.len(),
{
    if lines.len() == 0 {
        Seq::empty()
    } else {
        match spec_line_device(lines[0], user) {
            Some(d) => seq![d] + spec_fetch_all(lines.skip(1), user),
            None => spec_fetch_all(lines.skip(1), user),
        }
    }
}

impl Device {
    /// The devices registered for `wanted_user` among the given registry
    /// lines; lines of other users and malformed lines are skipped.
    pub fn fetch_all(lines: &Vec<String>, wanted_user: &str) -> (r: Vec<Device>)
        ensures
            r@.map_values(|d: Device| d@) == spec_fetch_all(
                lines@.map_values(|l: String| l@),
                wanted_user@,
            ),
    {
        let ghost lv = lines@.map_values(|l: String| l@);
        let mut devices: Vec<Device> = Vec::new();
        let mut i: usize = 0;
        proof {
            assert(lv.skip(0) =~= lv);
            assert(devices@.map_values(|d: Device| d@) =~= Seq::<DeviceView>::empty());
        }
        while i < lines.len()
            invariant
                0 <= i <= lines.len(),
                lv == lines@.map_values(|l: String| l@),
                lv.len() == lines@.len(),
                spec_fetch_all(lv, wanted_user@) == devices@.map_values(|d: Device| d@)
                    + spec_fetch_all(lv.skip(i as int), wanted_user@),
            decreases lines.len() - i,
        {
            let ghost before = devices@.map_values(|d: Device| d@);
            let line = &lines[i];
            proof {
                assert(lv.skip(i as int)[0] == lv[i as int]);
                assert(lv.skip(i as int).skip(1) =~= lv.skip(i + 1));
            }
            match split2(line.as_str(), '=') {
                None => {
                    proof {
                        assert(spec_line_device(lv[i as int], wanted_user@) is None);
                    }
                },
                Some((user, devpart)) => {
                    if str_eq(user.as_str(), wanted_user) {
                        match Device::parse(user.as_str(), devpart.as_str()) {
                            Ok(device) => {
                                devices.push(device);
                                proof {
                                    assert(devices@.map_values(|d: Device| d@) =~= before
                                        + seq![devices@.last()@]);
                                    assert(before + seq![devices@.last()@] + spec_fetch_all(
                                        lv.skip(i + 1),
                                        wanted_user@,
                                    ) =~= before + (seq![devices@.last()@] + spec_fetch_all(
                                        lv.skip(i + 1),
                                        wanted_user@,
                                    )));
                                }
                            },
                            Err(_) => {
                                proof {
                                    assert(spec_line_device(lv[i as int], wanted_user@) is None);
                                }
                            },
                        }
                    } else {
                        proof {
                            assert(spec_line_device(lv[i as int], wanted_user@) is None);
                        }
                    }
                },
            }
            i += 1;
        }
        proof {
            assert(lv.skip(lv.len() as int) =~= Seq::<Seq<char>>::empty());
            assert(devices@.map_values(|d: Device| d@) + Seq::<DeviceView>::empty() =~= devices@
                .map_values(|d: Device| d@));
        }
        devices
    }
}

} // verus!
