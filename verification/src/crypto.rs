//! Cryptographic engine: P-256 keypairs with DER import/export, SHA-256
//! based asymmetric signing and verification, keyed MAC (HMAC-SHA256)
//! generation and verification, and secure random bytes.
//!
//! The arithmetic itself is openssl's; this module pins down, as contracts
//! over the DER bytes of the keys, what each operation returns.  A key's
//! mathematical identity here is its DER encoding: the view of every key
//! type is a byte sequence.
use vstd::prelude::*;

verus! {

/// An error from the cryptographic engine.
#[derive(Clone, Copy, PartialEq, Eq, Structural, Debug)]
pub enum CryptoError {
    /// The engine itself failed (entropy, allocation, curve parameters).
    Engine,
    /// DER input that the key import routines do not accept.
    MalformedKey,
}

#[verifier::external_type_specification]
#[verifier::external_body]
#[verifier::reject_recursive_types(T)]
pub struct ExPKey<T>(openssl::pkey::PKey<T>);

#[verifier::external_type_specification]
#[verifier::external_body]
pub struct ExPublic(openssl::pkey::Public);

#[verifier::external_type_specification]
#[verifier::external_body]
pub struct ExPrivate(openssl::pkey::Private);

/// Whether openssl's `PKey::public_key_from_der` accepts these bytes as a
/// public key on an elliptic curve (the parse succeeds and `ec_key`
/// conversion succeeds).
pub uninterp spec fn is_pub_der(der: Seq<u8>) -> bool;

/// Whether openssl's `PKey::private_key_from_der` accepts these bytes as a
/// private key on an elliptic curve (the parse and the `ec_key`
/// conversion succeed, and the public half can be re-exported).
pub uninterp spec fn is_priv_der(der: Seq<u8>) -> bool;

/// The DER encoding of the public half that openssl's `public_key_to_der`
/// re-derives from a private key given by these DER bytes.
pub uninterp spec fn pub_der_of(priv_der: Seq<u8>) -> Seq<u8>;

/// What openssl's `Verifier::verify` (SHA-256 digest) decides for a public
/// key (by DER), a message and a signature.  Errors count as a mismatch:
/// verification fails closed.
pub uninterp spec fn sig_valid(pub_der: Seq<u8>, data: Seq<u8>, sig: Seq<u8>) -> bool;

/// The HMAC-SHA256 tag of a message under a secret key; always 32 bytes.
pub uninterp spec fn hmac_tag(key: Seq<u8>, data: Seq<u8>) -> Seq<u8>;

/// The public half of a keypair on the fixed curve.
pub struct PubKey {
    key: openssl::pkey::PKey<openssl::pkey::Public>,
    der: Vec<u8>,
}

impl View for PubKey {
    type V = Seq<u8>;

    closed spec fn view(&self) -> Seq<u8> {
        self.der@
    }
}

impl PubKey {
    #[verifier::type_invariant]
    closed spec fn type_inv(self) -> bool {
        is_pub_der(self.der@)
    }

    /// Relies on openssl's `PKey::public_key_from_der` and `ec_key`:
    /// imports a DER public key, accepts only elliptic-curve keys, and
    /// keeps the imported bytes as the key's identity.
    #[verifier::external_body]
    pub fn from_der(key: &[u8]) -> (r: Result<PubKey, CryptoError>)
        ensures
            match r {
                Ok(k) => is_pub_der(key@) && k@ == key@,
                Err(e) => !is_pub_der(key@) && e == CryptoError::MalformedKey,
            },
    {
        let e = CryptoError::MalformedKey;
        let pkey = openssl::pkey::PKey::public_key_from_der(key).map_err(|_| e)?;
        pkey.ec_key().map_err(|_| e)?;
        Ok(PubKey { key: pkey, der: key.to_vec() })
    }

    /// The DER encoding of this key.
    pub fn to_der(&self) -> (r: Result<Vec<u8>, CryptoError>)
        ensures
            r matches Ok(v) && v@ == self@,
    {
        Ok(self.der.clone())
    }

    /// Whether `signature` is a valid signature over `data` under this key.
    ///
    /// Relies on openssl's `Verifier` with a SHA-256 digest: deterministic
    /// in the key, the data and the signature; any engine error or
    /// malformed signature yields `false` rather than an error, so
    /// verification fails closed.
    #[verifier::external_body]
    pub fn verify(&self, data: &[u8], signature: &[u8]) -> (r: bool)
        ensures
            r == sig_valid(self@, data@, signature@),
    {
        let digest = openssl::hash::MessageDigest::sha256();
        let mut verifier = match openssl::sign::Verifier::new(digest, &self.key) {
            Ok(v) => v,
            Err(_) => return false,
        };
        if verifier.update(data).is_err() {
            return false;
        }
        verifier.verify(signature).unwrap_or(false)
    }
}

/// The private half of a keypair on the fixed curve, together with its
/// re-derived public half.
pub struct PrivKey {
    key: openssl::pkey::PKey<openssl::pkey::Private>,
    /// The public half consistently re-derived from the private key.
    pub public_key: PubKey,
    der: Vec<u8>,
}

impl View for PrivKey {
    type V = Seq<u8>;

    closed spec fn view(&self) -> Seq<u8> {
        self.der@
    }
}

impl PrivKey {
    #[verifier::type_invariant]
    closed spec fn type_inv(self) -> bool {
        is_priv_der(self.der@) && self.public_key@ == pub_der_of(self.der@)
    }

    /// The DER bytes of the re-derived public half.
    pub closed spec fn public_view(self) -> Seq<u8> {
        self.public_key@
    }

    /// The public half of this keypair.
    pub fn public(&self) -> (r: &PubKey)
        ensures
            r@ == self.public_view(),
            r@ == pub_der_of(self@),
    {
        proof {
            use_type_invariant(self);
        }
        &self.public_key
    }

    /// Relies on openssl's P-256 key generation (`EcGroup`, `EcKey`,
    /// `PKey`): a fresh keypair on the named curve, exported to DER and
    /// imported back, so that the key is importable and its public half is
    /// the re-derived one.
    #[verifier::external_body]
    pub fn generate() -> (r: Result<PrivKey, CryptoError>)
        ensures
            match r {
                Ok(k) => is_priv_der(k@) && k.public_view() == pub_der_of(k@),
                Err(e) => e == CryptoError::Engine,
            },
    {
        let curve = openssl::nid::Nid::X9_62_PRIME256V1;
        let mut group = openssl::ec::EcGroup::from_curve_name(curve).map_err(|_| CryptoError::Engine)?;
        group.set_asn1_flag(openssl::ec::Asn1Flag::NAMED_CURVE);
        let key = openssl::ec::EcKey::generate(&group).map_err(|_| CryptoError::Engine)?;
        let pkey = openssl::pkey::PKey::from_ec_key(key).map_err(|_| CryptoError::Engine)?;
        let der = pkey.private_key_to_der().map_err(|_| CryptoError::Engine)?;
        PrivKey::from_der(&der).map_err(|_| CryptoError::Engine)
    }

    /// Relies on openssl's `PKey::private_key_from_der` and
    /// `public_key_to_der`: imports a DER private key, keeping the imported
    /// bytes as the key's identity, and re-derives the public half.
    #[verifier::external_body]
    pub fn from_der(key: &[u8]) -> (r: Result<PrivKey, CryptoError>)
        ensures
            match r {
                Ok(k) => is_priv_der(key@) && k@ == key@ && k.public_view() == pub_der_of(key@),
                Err(e) => !is_priv_der(key@) && e == CryptoError::MalformedKey,
            },
    {
        let e = CryptoError::MalformedKey;
        let pkey = openssl::pkey::PKey::private_key_from_der(key).map_err(|_| e)?;
        pkey.ec_key().map_err(|_| e)?;
        let pub_der = pkey.public_key_to_der().map_err(|_| e)?;
        let public_key = PubKey::from_der(&pub_der)?;
        Ok(PrivKey { key: pkey, public_key, der: key.to_vec() })
    }

    /// The DER encoding of this key.
    pub fn to_der(&self) -> (r: Result<Vec<u8>, CryptoError>)
        ensures
            r matches Ok(v) && v@ == self@,
    {
        Ok(self.der.clone())
    }

    /// Signs `bytes` with this key over a SHA-256 digest.
    ///
    /// Relies on openssl's `Signer`: a signature it produces is accepted by
    /// openssl's `Verifier` under the re-derived public half of the same
    /// key, for the same bytes.
    #[verifier::external_body]
    pub fn sign(&self, bytes: &[u8]) -> (r: Result<Vec<u8>, CryptoError>)
        ensures
            match r {
                Ok(sig) => sig_valid(pub_der_of(self@), bytes@, sig@),
                Err(e) => e == CryptoError::Engine,
            },
    {
        let digest = openssl::hash::MessageDigest::sha256();
        let mut signer = openssl::sign::Signer::new(digest, &self.key).map_err(|_| CryptoError::Engine)?;
        signer.update(bytes).map_err(|_| CryptoError::Engine)?;
        signer.sign_to_vec().map_err(|_| CryptoError::Engine)
    }
}

/// A symmetric keyed-MAC secret; used during pairing only.
pub struct SecretKey {
    secret_key: openssl::pkey::PKey<openssl::pkey::Private>,
    /// The raw secret bytes the key was built from.
    pub bytes: Vec<u8>,
}

impl View for SecretKey {
    type V = Seq<u8>;

    closed spec fn view(&self) -> Seq<u8> {
        self.bytes@
    }
}

impl SecretKey {
    /// The raw secret bytes.
    pub fn raw(&self) -> (r: &Vec<u8>)
        ensures
            r@ == self@,
    {
        &self.bytes
    }

    /// Relies on openssl's `PKey::hmac`: builds an HMAC key over the given
    /// secret bytes.  `PKey::hmac` asserts that the key length fits in a
    /// C `int`, so longer keys are excluded by the machine limit here.
    #[verifier::external_body]
    pub fn from(bytes: &[u8]) -> (r: Result<SecretKey, CryptoError>)
        requires
            bytes@.len() <= 0x7fff_ffff,
        ensures
            match r {
                Ok(k) => k@ == bytes@,
                Err(e) => e == CryptoError::Engine,
            },
    {
        match openssl::pkey::PKey::hmac(bytes) {
            Ok(k) => Ok(SecretKey { secret_key: k, bytes: bytes.to_vec() }),
            Err(_) => Err(CryptoError::Engine),
        }
    }

    /// The HMAC-SHA256 tag of `bytes` under this secret.
    ///
    /// Relies on openssl's `Signer` over an HMAC key: the tag is a function
    /// of the secret and the message alone, and a SHA-256 tag is 32 bytes.
    #[verifier::external_body]
    pub fn sign(&self, bytes: &[u8]) -> (r: Result<Vec<u8>, CryptoError>)
        ensures
            match r {
                Ok(tag) => tag@ == hmac_tag(self@, bytes@) && tag@.len() == 32,
                Err(e) => e == CryptoError::Engine,
            },
    {
        let digest = openssl::hash::MessageDigest::sha256();
        let mut signer = openssl::sign::Signer::new(digest, &self.secret_key).map_err(|_| CryptoError::Engine)?;
        signer.update(bytes).map_err(|_| CryptoError::Engine)?;
        signer.sign_to_vec().map_err(|_| CryptoError::Engine)
    }

    /// Whether `signature` is the MAC tag of `data` under this secret.
    ///
    /// A tag whose length differs from the expected 32 bytes is rejected
    /// before any byte comparison; tags of the right length are compared in
    /// constant time.
    pub fn verify(&self, data: &[u8], signature: &[u8]) -> (r: bool)
        ensures
            r ==> mac_accepts(self@, data@, signature@),
            signature@.len() != 32 ==> !r,
    {
        match self.sign(data) {
            Ok(tag) => tag_matches(tag.as_slice(), signature),
            Err(_) => false,
        }
    }
}

/// The acceptance predicate of MAC verification: a tag is accepted exactly
/// when it is the tag of the message under the secret.
pub open spec fn mac_accepts(key: Seq<u8>, data: Seq<u8>, tag: Seq<u8>) -> bool {
    tag == hmac_tag(key, data)
}

/// A tag generated over a message with a secret is accepted when verified
/// for the same message under the same secret.
pub proof fn lemma_mac_round_trip(key: Seq<u8>, data: Seq<u8>)
    ensures
        mac_accepts(key, data, hmac_tag(key, data)),
{
}

/// Whether a given tag equals the expected one: a length mismatch is
/// rejected before any byte comparison, and equal-length tags are compared
/// without short-circuiting.
pub fn tag_matches(expected: &[u8], given: &[u8]) -> (r: bool)
    ensures
        r == (expected@ == given@),
{
    if expected.len() != given.len() {
        return false;
    }
    ct_eq(expected, given)
}

/// Relies on openssl's `memcmp::eq` (`CRYPTO_memcmp`): a constant-time
/// equality check of two equal-length byte strings.
#[verifier::external_body]
fn ct_eq(a: &[u8], b: &[u8]) -> (r: bool)
    requires
        a@.len() == b@.len(),
    ensures
        r == (a@ == b@),
{
    openssl::memcmp::eq(a, b)
}

/// `length` cryptographically secure random bytes.
///
/// Relies on openssl's `rand_bytes`: fills the buffer from the secure
/// entropy source, or fails.  `rand_bytes` asserts that the buffer
/// length fits in a C `int`, so larger requests are excluded by the
/// machine limit here.
#[verifier::external_body]
pub fn random(length: usize) -> (r: Result<Vec<u8>, CryptoError>)
    requires
        length <= 0x7fff_ffff,
    ensures
        match r {
            Ok(v) => v@.len() == length,
            Err(e) => e == CryptoError::Engine,
        },
{
    let mut buf = vec![0; length];
    match openssl::rand::rand_bytes(&mut buf) {
        Ok(()) => Ok(buf),
        Err(_) => Err(CryptoError::Engine),
    }
}

} // verus!
