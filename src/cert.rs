//! The root certificate authority: what its certificate and the leaf
//! certificates it issues say, and how it is installed into and checked
//! against the host's trust store.
//!
//! Keys, signatures and encodings come from rcgen; the validity window
//! from the time crate. Running the trust-store tools is left to the
//! caller, which reports back whether each command ran and succeeded.
use vstd::prelude::*;
use vstd::string::*;

verus! {

#[verifier::external_type_specification]
#[verifier::external_body]
pub struct ExCertificate(rcgen::Certificate);

#[verifier::external_type_specification]
#[verifier::external_body]
pub struct ExKeyPair(rcgen::KeyPair);

#[verifier::external_type_specification]
#[verifier::external_body]
pub struct ExCertificateParams(rcgen::CertificateParams);

#[verifier::external_type_specification]
#[verifier::external_body]
pub struct ExRcgenError(rcgen::Error);

#[verifier::external_type_specification]
#[verifier::external_body]
pub struct ExOffsetDateTime(time::OffsetDateTime);

#[verifier::external_type_specification]
#[verifier::external_body]
pub struct ExComponentRange(time::error::ComponentRange);

/// The first moment a certificate can carry: 0000-01-01T00:00:00Z, in
/// seconds since the Unix epoch.
pub const EARLIEST_WRITABLE: i64 = -62_167_219_200;

/// The last moment a certificate can carry: 9999-12-31T23:59:59Z, in
/// seconds since the Unix epoch.
pub const LATEST_WRITABLE: i64 = 253_402_300_799;

/// Seconds in a day.
pub const SECONDS_PER_DAY: i64 = 86_400;

/// Name of the root certificate the application creates.
pub const DEFAULT_CA_NAME: &'static str = "Devya CA";

/// Validity of the root certificate the application creates, in days.
pub const DEFAULT_CA_VALIDITY_DAYS: i64 = 3650;

/// The end of a validity window of `days` days that starts at `now`, in
/// seconds since the Unix epoch.
pub open spec fn validity_end(now: int, days: int) -> int {
    now + days * SECONDS_PER_DAY
}

/// Whether a moment, in seconds since the Unix epoch, can stand in a certificate.
pub open spec fn writable_moment(t: int) -> bool {
    EARLIEST_WRITABLE <= t <= LATEST_WRITABLE
}

/// The validity window of certificate parameters as rcgen writes it: the
/// year of `not_before`, the year of `not_after`, and whether each of the
/// two is in UTC.
pub uninterp spec fn validity_of(p: rcgen::CertificateParams) -> (i32, i32, bool, bool);

/// rcgen can write the window `v`: both ends in UTC, in the years 0 to 9999.
pub open spec fn writable_validity(v: (i32, i32, bool, bool)) -> bool {
    v.2 && v.3 && 0 <= v.0 <= 9999 && 0 <= v.1 <= 9999
}

/// The key pair holds its private key in memory (it is no remote key).
pub uninterp spec fn key_held_locally(k: rcgen::KeyPair) -> bool;

/// Whether rcgen accepts `names` as the alternative names of a certificate:
/// an IP address, or else a DNS name, which must be ASCII; the text of an
/// IP address is ASCII too.
pub open spec fn alt_names_accepted(names: Seq<Seq<char>>) -> bool {
    forall|i: int, j: int|
        0 <= i < names.len() && 0 <= j < names[i].len() ==> (#[trigger] names[i][j] as u32) < 128
}

/// Whether rcgen reads `pem` as a CA certificate.
pub uninterp spec fn ca_cert_pem_parses(pem: Seq<char>) -> bool;

/// The validity window, as `validity_of` reads it, of the CA certificate
/// that rcgen reads from `pem`.
pub uninterp spec fn ca_pem_validity(pem: Seq<char>) -> (i32, i32, bool, bool);

/// Whether `pem` holds a private key that rcgen can read.
pub uninterp spec fn key_pem_parses(pem: Seq<char>) -> bool;

/// The end of the validity window of certificate parameters, in seconds
/// since the Unix epoch.
pub uninterp spec fn not_after_moment(p: rcgen::CertificateParams) -> int;

/// The issuer field of certificate `c` is the subject of certificate `issuer`.
pub uninterp spec fn issuer_is_subject_of(c: rcgen::Certificate, issuer: rcgen::Certificate) -> bool;

/// The DER encoding of certificate `c`.
pub uninterp spec fn der_of(c: rcgen::Certificate) -> Seq<u8>;

/// The current time in UTC, from the system clock.
pub assume_specification[ time::OffsetDateTime::now_utc ]() -> time::OffsetDateTime;

/// The moment as seconds since the Unix epoch.
pub assume_specification[ time::OffsetDateTime::unix_timestamp ](
    self_: time::OffsetDateTime,
) -> i64;

/// A fresh key pair of rcgen's default algorithm, held in memory.
pub assume_specification[ rcgen::KeyPair::generate ]() -> (r: Result<rcgen::KeyPair, rcgen::Error>)
    ensures
        r is Ok ==> key_held_locally(r->Ok_0),
;

/// A self-signed certificate made from the parameters with the key pair.
/// rcgen panics on a validity window it cannot write.
pub assume_specification[ rcgen::CertificateParams::self_signed ](
    self_: rcgen::CertificateParams,
    key_pair: &rcgen::KeyPair,
) -> Result<rcgen::Certificate, rcgen::Error>
    requires
        writable_validity(validity_of(self_)),
;

/// The key pair's private key, DER-encoded; rcgen panics for a remote key.
pub assume_specification[ rcgen::KeyPair::serialize_der ](self_: &rcgen::KeyPair) -> Vec<u8>
    requires
        key_held_locally(*self_),
;

/// A key pair read from PEM text, held in memory.
pub assume_specification[ rcgen::KeyPair::from_pem ](pem_str: &str) -> (r: Result<
    rcgen::KeyPair,
    rcgen::Error,
>)
    ensures
        r is Ok ==> key_held_locally(r->Ok_0),
        r is Ok ==> key_pem_parses(pem_str@),
;

/// The parameters of a CA certificate read from PEM text; whether it parses
/// depends on the text alone.
pub assume_specification[ rcgen::CertificateParams::from_ca_cert_pem ](pem_str: &str) -> (r:
    Result<rcgen::CertificateParams, rcgen::Error>)
    ensures
        r is Ok <==> ca_cert_pem_parses(pem_str@),
        r is Ok ==> validity_of(r->Ok_0) == ca_pem_validity(pem_str@),
;

/// Why an operation of the certificate authority failed.
#[derive(PartialEq, Eq, Structural, Debug, Clone, Copy)]
pub enum CaError {
    /// Generating a key, building or signing a certificate failed.
    Crypto,
    /// An install command could not be run or did not succeed.
    InstallFailed,
    /// A trust check command could not be run.
    CheckFailed,
    /// The platform has no trust-store support.
    UnsupportedPlatform,
    /// The platform has a trust store, but checking it is not implemented.
    NotSupported,
    /// No root certificate is configured to sign with.
    MissingRoot,
}

impl CaError {
    /// The error's text.
    pub fn message(&self) -> (r: &'static str)
        ensures
            *self == CaError::Crypto ==> r@ == "Failed to generate or sign a certificate"@,
            *self == CaError::InstallFailed ==> r@ == "Failed to install cert"@,
            *self == CaError::CheckFailed ==> r@ == "Failed to check cert"@,
            *self == CaError::NotSupported ==> r@
                == "Checking the trust store is not supported on this platform"@,
            *self == CaError::UnsupportedPlatform ==> r@ == "Unsupported platform"@,
            *self == CaError::MissingRoot ==> r@ == "No ca root"@,
    {
        match self {
            CaError::Crypto => "Failed to generate or sign a certificate",
            CaError::InstallFailed => "Failed to install cert",
            CaError::CheckFailed => "Failed to check cert",
            CaError::UnsupportedPlatform => "Unsupported platform",
            CaError::NotSupported => "Checking the trust store is not supported on this platform",
            CaError::MissingRoot => "No ca root",
        }
    }
}

/// A use that a certificate's key is allowed.
#[derive(PartialEq, Eq, Structural, Debug, Clone, Copy)]
pub enum KeyUsage {
    KeyCertSign,
    CrlSign,
    DigitalSignature,
}

/// A purpose that a certificate is issued for.
#[derive(PartialEq, Eq, Structural, Debug, Clone, Copy)]
pub enum ExtendedUsage {
    ServerAuth,
}

/// Whether a certificate may issue others.
#[derive(PartialEq, Eq, Structural, Debug, Clone, Copy)]
pub enum Authority {
    /// A CA without a limit on the length of the chains below it.
    UnconstrainedCa,
    /// An end-entity certificate.
    NoCa,
}

/// What a certificate states about its subject, before it is signed.
pub struct CertProfile {
    pub common_name: String,
    pub subject_alt_names: Vec<String>,
    pub authority: Authority,
    pub key_usages: Vec<KeyUsage>,
    pub extended_key_usages: Vec<ExtendedUsage>,
}

/// The texts of a sequence of strings.
pub open spec fn texts(v: Seq<String>) -> Seq<Seq<char>> {
    v.map_values(|s: String| s@)
}

/// The profile of a root certificate named `name`.
pub open spec fn is_ca_profile(p: CertProfile, name: Seq<char>) -> bool {
    &&& p.common_name@ == name
    &&& p.subject_alt_names@.len() == 0
    &&& p.authority == Authority::UnconstrainedCa
    &&& p.key_usages@ == seq![KeyUsage::KeyCertSign, KeyUsage::CrlSign]
    &&& p.extended_key_usages@.len() == 0
}

/// The profile of a leaf certificate for `host`.
pub open spec fn is_leaf_profile(p: CertProfile, host: Seq<char>) -> bool {
    &&& p.common_name@ == host
    &&& texts(p.subject_alt_names@) == seq![host]
    &&& p.authority == Authority::NoCa
    &&& p.key_usages@ == seq![KeyUsage::DigitalSignature]
    &&& p.extended_key_usages@ == seq![ExtendedUsage::ServerAuth]
}

/// The profile of a root certificate named `name`: a CA without a path
/// length limit, allowed to sign certificates and revocation lists.
pub fn ca_profile(name: &str) -> (r: CertProfile)
    ensures
        is_ca_profile(r, name@),
{
    CertProfile {
        common_name: String::from_str(name),
        subject_alt_names: Vec::new(),
        authority: Authority::UnconstrainedCa,
        key_usages: vec![KeyUsage::KeyCertSign, KeyUsage::CrlSign],
        extended_key_usages: Vec::new(),
    }
}

/// The profile of a leaf certificate for `host`: the host is its common
/// name and its one alternative name; it signs digitally, serves TLS, and
/// is no CA.
pub fn leaf_profile(host: &str) -> (r: CertProfile)
    ensures
        is_leaf_profile(r, host@),
{
    let names = vec![String::from_str(host)];
    let r = CertProfile {
        common_name: String::from_str(host),
        subject_alt_names: names,
        authority: Authority::NoCa,
        key_usages: vec![KeyUsage::DigitalSignature],
        extended_key_usages: vec![ExtendedUsage::ServerAuth],
    };
    assert(texts(r.subject_alt_names@) =~= seq![host@]);
    assert(r.key_usages@ =~= seq![KeyUsage::DigitalSignature]);
    assert(r.extended_key_usages@ =~= seq![ExtendedUsage::ServerAuth]);
    r
}

/// Relies on rcgen's `CertificateParams::new`, which takes the alternative
/// names (and fails on one that is no valid name), and on
/// `DistinguishedName::push`, which sets the common name in place of the
/// default one; the rest of the profile is copied field by field into
/// rcgen's parameters. The window is rcgen's default, 1975 to 4096 in UTC.
#[verifier::external_body]
fn params_for(p: &CertProfile) -> (r: Result<rcgen::CertificateParams, rcgen::Error>)
    ensures
        r is Ok <==> alt_names_accepted(texts(p.subject_alt_names@)),
        r is Ok ==> validity_of(r->Ok_0) == (1975i32, 4096i32, true, true),
{
    let mut params = rcgen::CertificateParams::new(p.subject_alt_names.clone())?;
    params.distinguished_name.push(rcgen::DnType::CommonName, p.common_name.as_str());
    params.is_ca = match p.authority {
        Authority::UnconstrainedCa => rcgen::IsCa::Ca(rcgen::BasicConstraints::Unconstrained),
        Authority::NoCa => rcgen::IsCa::NoCa,
    };
    params.key_usages = p.key_usages.iter().map(|u| match u {
        KeyUsage::KeyCertSign => rcgen::KeyUsagePurpose::KeyCertSign,
        KeyUsage::CrlSign => rcgen::KeyUsagePurpose::CrlSign,
        KeyUsage::DigitalSignature => rcgen::KeyUsagePurpose::DigitalSignature,
    }).collect();
    params.extended_key_usages = p.extended_key_usages.iter().map(|_| rcgen::ExtendedKeyUsagePurpose::ServerAuth).collect();
    Ok(params)
}

/// Relies on time's `OffsetDateTime::from_unix_timestamp`, the UTC moment
/// `end` seconds after the Unix epoch, which fails only outside the years
/// -9999 to 9999; the moment becomes the `not_after` field of rcgen's
/// parameters.
#[verifier::external_body]
fn with_not_after(params: rcgen::CertificateParams, end: i64) -> (r: Result<
    rcgen::CertificateParams,
    time::error::ComponentRange,
>)
    requires
        writable_moment(end as int),
    ensures
        r is Ok,
        validity_of(r->Ok_0).0 == validity_of(params).0,
        validity_of(r->Ok_0).2 == validity_of(params).2,
        validity_of(r->Ok_0).3,
        0 <= validity_of(r->Ok_0).1 <= 9999,
        not_after_moment(r->Ok_0) == end,
{
    let mut params = params;
    params.not_after = time::OffsetDateTime::from_unix_timestamp(end)?;
    Ok(params)
}

/// Relies on time's `OffsetDateTime::year` and `offset`: the years of both
/// ends of the validity window, and whether each is in UTC.
#[verifier::external_body]
fn read_validity(p: &rcgen::CertificateParams) -> (r: (i32, i32, bool, bool))
    ensures
        r == validity_of(*p),
{
    (p.not_before.year(), p.not_after.year(), p.not_before.offset().is_utc(), p.not_after.offset().is_utc())
}

/// Relies on rcgen's `CertificateParams::signed_by`: the certificate for
/// `key`, whose issuer is the subject of `issuer`, signed with `issuer_key`.
/// rcgen panics on a validity window it cannot write.
#[verifier::external_body]
fn signed_by(
    params: rcgen::CertificateParams,
    key: &rcgen::KeyPair,
    issuer: &rcgen::Certificate,
    issuer_key: &rcgen::KeyPair,
) -> (r: Result<rcgen::Certificate, rcgen::Error>)
    requires
        writable_validity(validity_of(params)),
    ensures
        r is Ok ==> issuer_is_subject_of(r->Ok_0, *issuer),
{
    params.signed_by(key, issuer, issuer_key)
}

/// Relies on rcgen's `Certificate::der`: the certificate, DER-encoded.
#[verifier::external_body]
fn certificate_der(c: &rcgen::Certificate) -> (r: Vec<u8>)
    ensures
        r@ == der_of(*c),
{
    c.der().to_vec()
}

/// A root certificate and its key pair.
pub struct RootCA {
    pub cert: rcgen::Certificate,
    pub key_pair: rcgen::KeyPair,
}

/// A leaf certificate and its private key, both DER-encoded.
#[derive(Clone, Debug)]
pub struct SignedCert {
    pub cert: Vec<u8>,
    pub key_pair: Vec<u8>,
}

/// The end of a validity window of `days` days from `now` (seconds since
/// the Unix epoch), when a certificate can carry it.
pub fn validity_end_checked(now: i64, days: i64) -> (r: Option<i64>)
    ensures
        r == (if writable_moment(validity_end(now as int, days as int)) {
            Some(validity_end(now as int, days as int) as i64)
        } else {
            None::<i64>
        }),
{
    assert(i64::MIN as int * 86_400 <= days as int * 86_400 <= i64::MAX as int * 86_400)
        by (nonlinear_arith);
    let end_wide: i128 = now as i128 + days as i128 * SECONDS_PER_DAY as i128;
    if end_wide < EARLIEST_WRITABLE as i128 || end_wide > LATEST_WRITABLE as i128 {
        None
    } else {
        Some(end_wide as i64)
    }
}

impl RootCA {
    /// Generates a key pair and a self-signed root certificate named
    /// `name`, valid from now for `days_until_expiry` days. Fails with
    /// `Crypto` when generating or signing fails or the end of the window
    /// lies outside the years 0 to 9999.
    pub fn new(name: &str, days_until_expiry: i64) -> (r: Result<RootCA, CaError>)
        ensures
            r is Err ==> r->Err_0 == CaError::Crypto,
    {
        let profile = ca_profile(name);
        let params = match params_for(&profile) {
            Ok(p) => p,
            Err(_) => return Err(CaError::Crypto),
        };
        let now = time::OffsetDateTime::now_utc().unix_timestamp();
        let end = match validity_end_checked(now, days_until_expiry) {
            Some(end) => end,
            None => return Err(CaError::Crypto),
        };
        let params = match with_not_after(params, end) {
            Ok(p) => p,
            Err(_) => return Err(CaError::Crypto),
        };
        let key_pair = match rcgen::KeyPair::generate() {
            Ok(k) => k,
            Err(_) => return Err(CaError::Crypto),
        };
        match params.self_signed(&key_pair) {
            Ok(cert) => Ok(RootCA { cert, key_pair }),
            Err(_) => Err(CaError::Crypto),
        }
    }

    /// Reads a root certificate and its key from PEM text. Nothing when the
    /// certificate text does not parse, when the key does not, when the
    /// certificate's validity window cannot be written again, or when the
    /// certificate cannot be rebuilt.
    pub fn from_pem(cert_pem: &str, key_pem: &str) -> (r: Option<RootCA>)
        ensures
            !ca_cert_pem_parses(cert_pem@) ==> r is None,
            !key_pem_parses(key_pem@) ==> r is None,
            !writable_validity(ca_pem_validity(cert_pem@)) ==> r is None,
    {
        let key_pair = match rcgen::KeyPair::from_pem(key_pem) {
            Ok(k) => k,
            Err(_) => return None,
        };
        let params = match rcgen::CertificateParams::from_ca_cert_pem(cert_pem) {
            Ok(p) => p,
            Err(_) => return None,
        };
        let (from_year, to_year, from_utc, to_utc) = read_validity(&params);
        if !(from_utc && to_utc && 0 <= from_year && from_year <= 9999 && 0 <= to_year
            && to_year <= 9999) {
            return None;
        }
        match params.self_signed(&key_pair) {
            Ok(cert) => Some(RootCA { cert, key_pair }),
            Err(_) => None,
        }
    }

    /// Issues a leaf certificate for `host` under this root, with a fresh
    /// key pair; the certificate states the leaf profile of `host`. Needs
    /// no file. Fails with `Crypto` when the host is no valid name or
    /// generating or signing fails.
    pub fn sign(&self, host: &str) -> (r: Result<SignedCert, CaError>)
        ensures
            r is Err ==> r->Err_0 == CaError::Crypto,
            !alt_names_accepted(seq![host@]) ==> r is Err,
            r is Ok ==> exists|c: rcgen::Certificate|
                issuer_is_subject_of(c, self.cert) && der_of(c) == r->Ok_0.cert@,
    {
        let profile = leaf_profile(host);
        let params = match params_for(&profile) {
            Ok(p) => p,
            Err(_) => return Err(CaError::Crypto),
        };
        let key_pair = match rcgen::KeyPair::generate() {
            Ok(k) => k,
            Err(_) => return Err(CaError::Crypto),
        };
        match signed_by(params, &key_pair, &self.cert, &self.key_pair) {
            Ok(cert) => Ok(SignedCert { cert: certificate_der(&cert), key_pair: key_pair.serialize_der() }),
            Err(_) => Err(CaError::Crypto),
        }
    }
}

} // verus!
