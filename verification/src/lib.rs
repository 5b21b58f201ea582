//! Automatic HTTPS certificates for a TLS server, driven by the ACME
//! tls-alpn-01 challenge.
//!
//! The crate models the three pieces that make such a setup safe to run
//! unattended, and proves their behaviour:
//!
//! - [`config`]: a builder that collects domains, contact addresses, the
//!   ACME environment and a certificate cache, and validates them before
//!   anything touches the network.
//! - [`driver`]: the state machine behind the long-lived background task
//!   that registers the account, orders certificates, publishes challenges
//!   and installs issued certificates, surviving every transient failure.
//! - [`acceptor`]: the per-connection decision that answers ACME
//!   validation handshakes out of band and hands every other connection to
//!   the application untouched.
//!
//! The certificate store shared between the driver and the TLS handshake
//! layer lives in [`resolver`]; [`cache`] holds the pluggable persistence
//! interface, and [`kvmap`] the string-keyed map both build on.

pub mod acceptor;
pub mod cache;
pub mod config;
pub mod driver;
pub mod kvmap;
pub mod resolver;
