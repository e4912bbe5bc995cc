use devya::cert::{validity_end_checked, EARLIEST_WRITABLE, LATEST_WRITABLE, ca_profile, leaf_profile, Authority, CaError, ExtendedUsage, KeyUsage, RootCA, DEFAULT_CA_NAME, DEFAULT_CA_VALIDITY_DAYS};
use devya::proxy::{MitmProxy, CERT_CACHE_CAPACITY};
use std::sync::Arc;

type Proxy = MitmProxy<(), (), ()>;

#[test]
fn ca_profile_is_an_unconstrained_signing_ca() {
    let p = ca_profile("Devya CA");
    assert_eq!(p.common_name, "Devya CA");
    assert!(p.subject_alt_names.is_empty());
    assert_eq!(p.authority, Authority::UnconstrainedCa);
    assert_eq!(p.key_usages, vec![KeyUsage::KeyCertSign, KeyUsage::CrlSign]);
    assert!(p.extended_key_usages.is_empty());
}

#[test]
fn leaf_profile_names_the_host() {
    let p = leaf_profile("any.test");
    assert_eq!(p.common_name, "any.test");
    assert_eq!(p.subject_alt_names, vec!["any.test"]);
    assert_eq!(p.authority, Authority::NoCa);
    assert_eq!(p.key_usages, vec![KeyUsage::DigitalSignature]);
    assert_eq!(p.extended_key_usages, vec![ExtendedUsage::ServerAuth]);
}

#[test]
fn signed_leaf_carries_the_host() {
    let ca = RootCA::new(DEFAULT_CA_NAME, DEFAULT_CA_VALIDITY_DAYS).unwrap();
    for host in ["one.test", "two.test"] {
        let leaf = ca.sign(host).unwrap();
        assert!(!leaf.cert.is_empty());
        assert!(!leaf.key_pair.is_empty());
        let der = rustls::pki_types::CertificateDer::from(leaf.cert.clone());
        let params = rcgen::CertificateParams::from_ca_cert_der(&der).unwrap();
        match params.distinguished_name.get(&rcgen::DnType::CommonName) {
            Some(rcgen::DnValue::Utf8String(cn)) => assert_eq!(cn, host),
            other => panic!("unexpected common name {:?}", other),
        }
        assert_eq!(params.subject_alt_names.len(), 1);
        match &params.subject_alt_names[0] {
            rcgen::SanType::DnsName(n) => assert_eq!(n.as_str(), host),
            other => panic!("unexpected alternative name {:?}", other),
        }
    }
}

#[test]
fn root_survives_a_pem_round_trip() {
    let ca = RootCA::new("Test CA", 30).unwrap();
    let (cert_pem, key_pem) = (ca.cert.pem(), ca.key_pair.serialize_pem());
    assert!(cert_pem.contains("BEGIN CERTIFICATE"));
    assert!(key_pem.contains("PRIVATE KEY"));
    let back = RootCA::from_pem(&cert_pem, &key_pem).unwrap();
    assert!(back.sign("x.test").is_ok());
    assert!(RootCA::from_pem("junk", &key_pem).is_none());
    assert!(RootCA::from_pem(&cert_pem, "junk").is_none());
}

#[test]
fn invalid_host_fails_to_sign() {
    let ca = RootCA::new("Test CA", 30).unwrap();
    assert!(matches!(ca.sign("bad\u{e9}host"), Err(CaError::Crypto)));
}

#[test]
fn no_root_means_nothing_to_sign() {
    let proxy: Proxy = MitmProxy::builder().build();
    assert!(!proxy.intercepts());
    assert!(matches!(proxy.get_signed_cert("a.test"), Err(CaError::MissingRoot)));
}

#[test]
fn concurrent_first_lookups_sign_once() {
    let ca = RootCA::new("Test CA", 30).unwrap();
    let proxy: Arc<Proxy> = Arc::new(
        MitmProxy::builder()
            .with_root_ca(Some(ca))
            .with_cert_cache(quick_cache::sync::Cache::new(CERT_CACHE_CAPACITY))
            .build(),
    );
    let rt = tokio::runtime::Builder::new_multi_thread().worker_threads(8).build().unwrap();
    let certs: Vec<_> = rt.block_on(async {
        let handles: Vec<_> = (0..50)
            .map(|_| {
                let p = proxy.clone();
                tokio::task::spawn_blocking(move || p.get_signed_cert("same.test").unwrap())
            })
            .collect();
        let mut out = Vec::new();
        for h in handles {
            out.push(h.await.unwrap());
        }
        out
    });
    for c in &certs {
        assert_eq!(c.cert, certs[0].cert);
        assert_eq!(c.key_pair, certs[0].key_pair);
    }
}

#[test]
fn without_cache_every_lookup_signs_afresh() {
    let ca = RootCA::new("Test CA", 30).unwrap();
    let proxy: Proxy = MitmProxy::builder().with_root_ca(Some(ca)).build();
    assert!(proxy.intercepts());
    let a = proxy.get_signed_cert("h.test").unwrap();
    let b = proxy.get_signed_cert("h.test").unwrap();
    assert_ne!(a.key_pair, b.key_pair);
}

#[test]
fn validity_beyond_the_calendar_fails() {
    assert!(matches!(RootCA::new("Far CA", 10_000_000), Err(CaError::Crypto)));
    assert!(matches!(RootCA::new("Past CA", -1_000_000), Err(CaError::Crypto)));
    assert!(matches!(RootCA::new("Huge CA", i64::MAX), Err(CaError::Crypto)));
    assert!(matches!(RootCA::new("Tiny CA", i64::MIN), Err(CaError::Crypto)));
    assert!(RootCA::new("Near CA", 1).is_ok());
}

#[test]
fn unreadable_certificate_text_gives_nothing() {
    let ca = RootCA::new("Test CA", 30).unwrap();
    let key_pem = ca.key_pair.serialize_pem();
    assert!(RootCA::from_pem("-----BEGIN CERTIFICATE-----\nAAAA\n-----END CERTIFICATE-----\n", &key_pem).is_none());
    assert!(RootCA::from_pem("", "").is_none());
}

#[test]
fn validity_end_is_now_plus_whole_days_within_the_calendar() {
    assert_eq!(validity_end_checked(1_700_000_000, 3650), Some(1_700_000_000 + 3650 * 86_400));
    assert_eq!(validity_end_checked(0, -1), Some(-86_400));
    assert_eq!(validity_end_checked(LATEST_WRITABLE, 0), Some(LATEST_WRITABLE));
    assert_eq!(validity_end_checked(LATEST_WRITABLE, 1), None);
    assert_eq!(validity_end_checked(EARLIEST_WRITABLE, -1), None);
    assert_eq!(validity_end_checked(i64::MAX, i64::MAX), None);
}

#[test]
fn unreadable_key_text_gives_nothing() {
    let ca = RootCA::new("Key CA", 30).unwrap();
    assert!(RootCA::from_pem(&ca.cert.pem(), "not a key").is_none());
    assert!(RootCA::from_pem(&ca.cert.pem(), &ca.key_pair.serialize_pem()).is_some());
}
