//! Core of a local TLS-capable HTTP interception proxy: certificate
//! authority planning, per-request dispatch decisions, the proxy lifecycle
//! record, and the rule-file tree.
pub mod paths;
pub mod rules;
pub mod lifecycle;
pub mod dispatch;
pub mod cert;
pub mod trust;
pub mod proxy;
pub mod store;
