//! The proxy's configuration and the issuing of leaf certificates through
//! the bounded per-host cache.
//!
//! The configuration is generic over the bind address `A`, the request
//! handler `H` and the shutdown sender `S`; the network engine that runs a
//! configured proxy lives with the caller.
use crate::cert::{alt_names_accepted, der_of, issuer_is_subject_of, CaError, RootCA, SignedCert};
use vstd::prelude::*;

verus! {

#[verifier::external_type_specification]
#[verifier::external_body]
#[verifier::reject_recursive_types(Key)]
#[verifier::reject_recursive_types(Val)]
#[verifier::reject_recursive_types(We)]
#[verifier::reject_recursive_types(B)]
#[verifier::reject_recursive_types(L)]
pub struct ExCache<Key, Val, We, B, L>(quick_cache::sync::Cache<Key, Val, We, B, L>);

#[verifier::external_type_specification]
#[verifier::external_body]
pub struct ExUnitWeighter(quick_cache::UnitWeighter);

#[verifier::external_type_specification]
#[verifier::external_body]
pub struct ExHashBuilder(quick_cache::DefaultHashBuilder);

#[verifier::external_type_specification]
#[verifier::external_body]
#[verifier::reject_recursive_types(Key)]
#[verifier::reject_recursive_types(Val)]
pub struct ExLifecycle<Key, Val>(quick_cache::sync::DefaultLifecycle<Key, Val>);

/// How many leaf certificates the cache of a started proxy holds.
pub const CERT_CACHE_CAPACITY: usize = 128;

/// The bounded cache of leaf certificates, keyed by host.
pub type CertCache = quick_cache::sync::Cache<String, SignedCert>;

/// Relies on quick_cache's `Cache::get_or_insert_with`: the certificate
/// held for `host`, or else the one that signing returns, which is stored.
/// Callers asking for the same host while it is signed wait for it, so the
/// signer runs once per miss. An error can only be the signer's.
#[verifier::external_body]
fn cached_sign(cache: &CertCache, root: &RootCA, host: &str) -> (r: Result<SignedCert, CaError>)
    ensures
        r is Err ==> r->Err_0 == CaError::Crypto,
{
    cache.get_or_insert_with(host, || root.sign(host))
}

/// A configured proxy.
pub struct MitmProxy<A, H, S> {
    pub bind_addr: Option<A>,
    pub root_cert: Option<RootCA>,
    pub cert_cache: Option<CertCache>,
    pub handler: Option<H>,
    pub shutdown_tx: Option<S>,
}

/// Gathers a proxy's configuration.
pub struct MitmProxyBuilder<A, H, S> {
    pub bind_addr: Option<A>,
    pub root_ca: Option<RootCA>,
    pub cert_cache: Option<CertCache>,
    pub handler: Option<H>,
    pub shutdown_tx: Option<S>,
}

impl<A, H, S> MitmProxy<A, H, S> {
    /// A builder with nothing configured.
    pub fn builder() -> (r: MitmProxyBuilder<A, H, S>)
        ensures
            r.bind_addr is None,
            r.root_ca is None,
            r.cert_cache is None,
            r.handler is None,
            r.shutdown_tx is None,
    {
        MitmProxyBuilder {
            bind_addr: None,
            root_ca: None,
            cert_cache: None,
            handler: None,
            shutdown_tx: None,
        }
    }

    /// Whether `CONNECT` tunnels are intercepted rather than passed through
    /// blind: exactly when a root certificate is configured.
    pub fn intercepts(&self) -> (r: bool)
        ensures
            r == self.root_cert is Some,
    {
        self.root_cert.is_some()
    }

    /// The leaf certificate for `host`: taken from the cache when one is
    /// configured (signing only on a miss), else freshly signed. Without a
    /// root certificate there is nothing to sign with.
    pub fn get_signed_cert(&self, host: &str) -> (r: Result<SignedCert, CaError>)
        ensures
            self.root_cert is None ==> r == Err::<SignedCert, CaError>(CaError::MissingRoot),
            self.root_cert is Some && r is Err ==> r->Err_0 == CaError::Crypto,
            self.root_cert is Some && self.cert_cache is None && !alt_names_accepted(seq![host@])
                ==> r is Err,
            self.root_cert is Some && self.cert_cache is None && r is Ok ==> exists|
                c: rcgen::Certificate,
            |
                issuer_is_subject_of(c, self.root_cert->Some_0.cert) && der_of(c)
                    == r->Ok_0.cert@,
    {
        let root = match &self.root_cert {
            Some(root) => root,
            None => return Err(CaError::MissingRoot),
        };
        match &self.cert_cache {
            Some(cache) => cached_sign(cache, root, host),
            None => root.sign(host),
        }
    }
}

impl<A, H, S> MitmProxyBuilder<A, H, S> {
    /// Sets the root certificate; with `None` tunnels pass through blind.
    pub fn with_root_ca(self, root_ca: Option<RootCA>) -> (r: Self)
        ensures
            r.root_ca == root_ca,
            r.bind_addr == self.bind_addr,
            r.cert_cache == self.cert_cache,
            r.handler == self.handler,
            r.shutdown_tx == self.shutdown_tx,
    {
        MitmProxyBuilder { root_ca, ..self }
    }

    /// Sets the request handler.
    pub fn with_handler(self, handler: H) -> (r: Self)
        ensures
            r.handler == Some(handler),
            r.bind_addr == self.bind_addr,
            r.root_ca == self.root_ca,
            r.cert_cache == self.cert_cache,
            r.shutdown_tx == self.shutdown_tx,
    {
        MitmProxyBuilder { handler: Some(handler), ..self }
    }

    /// Sets the address to bind.
    pub fn with_addr(self, addr: A) -> (r: Self)
        ensures
            r.bind_addr == Some(addr),
            r.root_ca == self.root_ca,
            r.cert_cache == self.cert_cache,
            r.handler == self.handler,
            r.shutdown_tx == self.shutdown_tx,
    {
        MitmProxyBuilder { bind_addr: Some(addr), ..self }
    }

    /// Sets the cache of leaf certificates.
    pub fn with_cert_cache(self, cert_cache: CertCache) -> (r: Self)
        ensures
            r.cert_cache == Some(cert_cache),
            r.bind_addr == self.bind_addr,
            r.root_ca == self.root_ca,
            r.handler == self.handler,
            r.shutdown_tx == self.shutdown_tx,
    {
        MitmProxyBuilder { cert_cache: Some(cert_cache), ..self }
    }

    /// Sets the sender whose signal shuts the proxy down.
    pub fn with_shutdown(self, shutdown_tx: S) -> (r: Self)
        ensures
            r.shutdown_tx == Some(shutdown_tx),
            r.bind_addr == self.bind_addr,
            r.root_ca == self.root_ca,
            r.cert_cache == self.cert_cache,
            r.handler == self.handler,
    {
        MitmProxyBuilder { shutdown_tx: Some(shutdown_tx), ..self }
    }

    /// The configured proxy.
    pub fn build(self) -> (r: MitmProxy<A, H, S>)
        ensures
            r.bind_addr == self.bind_addr,
            r.root_cert == self.root_ca,
            r.cert_cache == self.cert_cache,
            r.handler == self.handler,
            r.shutdown_tx == self.shutdown_tx,
    {
        MitmProxy {
            bind_addr: self.bind_addr,
            root_cert: self.root_ca,
            cert_cache: self.cert_cache,
            handler: self.handler,
            shutdown_tx: self.shutdown_tx,
        }
    }
}

} // verus!
