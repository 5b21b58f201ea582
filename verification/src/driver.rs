//! The background certificate driver.
//!
//! A single long-lived task owns the ACME lifecycle for the configured
//! domain set: register the account, submit an order, publish the
//! tls-alpn-01 challenge, wait for validation, install the issued
//! certificate, and start over when renewal is due. The loop never gives
//! up: a failed step is logged and retried — availability of HTTPS
//! depends on eventual success — and even an invalid account only stops
//! renewal while an already-cached certificate goes on being served.
//!
//! The host's event loop performs the network work and feeds each
//! outcome to [`Driver::handle`], which makes every decision: the next
//! state, the updates to the shared resolver and the cache, and the log
//! line to emit.

use vstd::prelude::*;

use crate::cache::Cache;
use crate::config::{AcmeConfig, ConfigError, ValidatedConfig};
use crate::resolver::{Certificate, CertificateResolver};

verus! {

/// The lifecycle states: `Idle → AccountReady → OrderPending →
/// ChallengePublished → ChallengeValidating → CertificateIssued`, and
/// from there back to `OrderPending` when renewal is due.
#[derive(Clone, Copy, PartialEq, Eq, Structural, Debug)]
pub enum DriverState {
    Idle,
    AccountReady,
    OrderPending,
    ChallengePublished,
    ChallengeValidating,
    CertificateIssued,
}

/// One successful lifecycle step, as the ACME client reports it.
#[derive(PartialEq, Eq, Debug)]
pub enum AcmeEvent {
    /// The account is registered; carries the credentials to persist.
    AccountRegistered(Vec<u8>),
    /// An order was submitted; carries the order URL.
    OrderCreated(String),
    /// A challenge certificate was produced for a domain and must be
    /// served for its SNI name until validation finishes.
    ChallengePublished(String, Certificate),
    /// The certificate authority was asked to validate the challenge.
    ValidationStarted,
    /// A certificate was issued for the configured domain set.
    CertificateIssued(Certificate),
    /// The renewal threshold of the current certificate has passed.
    RenewalDue,
}

/// One failed lifecycle step.
#[derive(PartialEq, Eq, Debug)]
pub enum AcmeError {
    /// A transient failure — network trouble, a directory rejection,
    /// rate limiting: the same step is retried.
    Transient(String),
    /// The account itself is unusable. Renewal stops, but an
    /// already-installed certificate goes on being served.
    AccountInvalid(String),
}

/// Severity of one log line.
#[derive(Clone, Copy, PartialEq, Eq, Structural, Debug)]
pub enum Severity {
    /// A successful step.
    Info,
    /// A transient failure; the loop continues.
    Error,
    /// An account-fatal failure; renewal stops.
    Critical,
}

/// What a log line reports.
#[derive(Clone, Copy, PartialEq, Eq, Structural, Debug)]
pub enum EventKind {
    AccountRegistered,
    OrderCreated,
    ChallengePublished,
    ValidationStarted,
    CertificateIssued,
    RenewalDue,
    TransientError,
    AccountInvalid,
}

/// The log line the host emits for one iteration of the loop.
#[derive(Clone, Copy, PartialEq, Eq, Structural, Debug)]
pub struct LogRecord {
    pub severity: Severity,
    pub kind: EventKind,
}

/// The state each event leads to.
pub open spec fn event_state(e: AcmeEvent) -> DriverState {
    match e {
        AcmeEvent::AccountRegistered(_) => DriverState::AccountReady,
        AcmeEvent::OrderCreated(_) => DriverState::OrderPending,
        AcmeEvent::ChallengePublished(_, _) => DriverState::ChallengePublished,
        AcmeEvent::ValidationStarted => DriverState::ChallengeValidating,
        AcmeEvent::CertificateIssued(_) => DriverState::CertificateIssued,
        AcmeEvent::RenewalDue => DriverState::OrderPending,
    }
}

/// The transition rule: a successful step moves to the event's state; a
/// failed step of either kind leaves the machine where it was, so the
/// same step is retried.
pub open spec fn spec_next_state(s: DriverState, outcome: Result<AcmeEvent, AcmeError>) -> DriverState {
    match outcome {
        Ok(e) => event_state(e),
        Err(_) => s,
    }
}

/// The severity of the log line for one outcome.
pub open spec fn spec_severity(outcome: Result<AcmeEvent, AcmeError>) -> Severity {
    match outcome {
        Ok(_) => Severity::Info,
        Err(AcmeError::Transient(_)) => Severity::Error,
        Err(AcmeError::AccountInvalid(_)) => Severity::Critical,
    }
}

/// What the log line for one outcome reports.
pub open spec fn spec_kind(outcome: Result<AcmeEvent, AcmeError>) -> EventKind {
    match outcome {
        Ok(AcmeEvent::AccountRegistered(_)) => EventKind::AccountRegistered,
        Ok(AcmeEvent::OrderCreated(_)) => EventKind::OrderCreated,
        Ok(AcmeEvent::ChallengePublished(_, _)) => EventKind::ChallengePublished,
        Ok(AcmeEvent::ValidationStarted) => EventKind::ValidationStarted,
        Ok(AcmeEvent::CertificateIssued(_)) => EventKind::CertificateIssued,
        Ok(AcmeEvent::RenewalDue) => EventKind::RenewalDue,
        Err(AcmeError::Transient(_)) => EventKind::TransientError,
        Err(AcmeError::AccountInvalid(_)) => EventKind::AccountInvalid,
    }
}

/// The full log line for one outcome.
pub open spec fn spec_log(outcome: Result<AcmeEvent, AcmeError>) -> LogRecord {
    LogRecord { severity: spec_severity(outcome), kind: spec_kind(outcome) }
}

/// The cache key under which the account credentials are stored.
pub open spec fn account_key() -> Seq<char> {
    "account"@
}

/// The log line for one outcome of the loop, for a host that runs the
/// underlying client itself: a successful step is informational, a
/// transient failure an error, an invalid account critical.
pub fn log_record_for(outcome: &Result<AcmeEvent, AcmeError>) -> (r: LogRecord)
    ensures
        r == spec_log(*outcome),
{
    match outcome {
        Ok(AcmeEvent::AccountRegistered(_)) => LogRecord {
            severity: Severity::Info,
            kind: EventKind::AccountRegistered,
        },
        Ok(AcmeEvent::OrderCreated(_)) => LogRecord {
            severity: Severity::Info,
            kind: EventKind::OrderCreated,
        },
        Ok(AcmeEvent::ChallengePublished(_, _)) => LogRecord {
            severity: Severity::Info,
            kind: EventKind::ChallengePublished,
        },
        Ok(AcmeEvent::ValidationStarted) => LogRecord {
            severity: Severity::Info,
            kind: EventKind::ValidationStarted,
        },
        Ok(AcmeEvent::CertificateIssued(_)) => LogRecord {
            severity: Severity::Info,
            kind: EventKind::CertificateIssued,
        },
        Ok(AcmeEvent::RenewalDue) => LogRecord {
            severity: Severity::Info,
            kind: EventKind::RenewalDue,
        },
        Err(AcmeError::Transient(_)) => LogRecord {
            severity: Severity::Error,
            kind: EventKind::TransientError,
        },
        Err(AcmeError::AccountInvalid(_)) => LogRecord {
            severity: Severity::Critical,
            kind: EventKind::AccountInvalid,
        },
    }
}

/// The driver: the state machine, the shared resolver it writes, the
/// cache, and whether it is still attempting issuance and renewal.
pub struct Driver<C: Cache> {
    pub state: DriverState,
    pub renewing: bool,
    pub resolver: CertificateResolver,
    pub config: ValidatedConfig<C>,
}

impl<C: Cache> Driver<C> {
    /// Build the driver from a validated configuration, consuming it.
    /// The resolver starts from the certificate found in the cache, if
    /// any, so a restarted server serves HTTPS at once.
    pub fn new(config: ValidatedConfig<C>, cached: Option<Certificate>) -> (r: Driver<C>)
        ensures
            r.state == DriverState::Idle,
            r.renewing,
            r.config == config,
            r.resolver.spec_certificate() == cached,
            r.resolver.spec_challenges() == Map::<Seq<char>, Certificate>::empty(),
    {
        Driver {
            state: DriverState::Idle,
            renewing: true,
            resolver: CertificateResolver::seeded(cached),
            config,
        }
    }

    /// Validate a configuration and build the driver, before any network
    /// I/O: construction fails exactly when the domain list is empty or
    /// no cache was set.
    pub fn try_new(config: AcmeConfig<C>, cached: Option<Certificate>) -> (r: Result<
        Driver<C>,
        ConfigError,
    >)
        ensures
            r is Ok <==> config.is_valid(),
            config.domains@.len() == 0 ==> (r matches Err(e) && e == ConfigError::NoDomains),
            config.domains@.len() > 0 && config.cache is None ==> (r matches Err(e) && e
                == ConfigError::NoCache),
            (r matches Ok(d) ==> d.state == DriverState::Idle && d.renewing && d.config.wf()
                && d.config.domains == config.domains && d.config.contact == config.contact
                && d.config.environment == config.environment && Some(d.config.cache)
                == config.cache && d.resolver.spec_certificate() == cached
                && d.resolver.spec_challenges() == Map::<Seq<char>, Certificate>::empty()),
    {
        match config.validate() {
            Ok(v) => Ok(Driver::new(v, cached)),
            Err(e) => Err(e),
        }
    }

    /// Consume one outcome of the loop and decide everything that
    /// follows from it: the next state, the resolver and cache updates,
    /// and the log line. A successful step moves the machine to the
    /// event's state; a transient failure changes nothing at all, so the
    /// next event is handled as if the failure had not happened; an
    /// invalid account only stops renewal — the certificate already
    /// installed goes on being served.
    pub fn handle(&mut self, outcome: Result<AcmeEvent, AcmeError>) -> (log: LogRecord)
        ensures
            log == spec_log(outcome),
            final(self).state == spec_next_state(old(self).state, outcome),
            final(self).renewing == (old(self).renewing && !(outcome matches Err(
                AcmeError::AccountInvalid(_),
            ))),
            final(self).config.domains == old(self).config.domains,
            final(self).config.contact == old(self).config.contact,
            final(self).config.environment == old(self).config.environment,
            (outcome matches Err(AcmeError::Transient(_)) ==> *final(self) == *old(self)),
            (match outcome {
                Ok(AcmeEvent::AccountRegistered(b)) => final(self).config.cache.contents()
                    == old(self).config.cache.contents().insert(account_key(), b@),
                _ => final(self).config.cache == old(self).config.cache,
            }),
            (match outcome {
                Ok(AcmeEvent::ChallengePublished(d, c)) => final(self).resolver.spec_certificate()
                    == old(self).resolver.spec_certificate()
                    && final(self).resolver.spec_challenges()
                    == old(self).resolver.spec_challenges().insert(d@, c),
                Ok(AcmeEvent::CertificateIssued(c)) => final(self).resolver.spec_certificate()
                    == Some(c) && final(self).resolver.spec_challenges() == Map::<
                    Seq<char>,
                    Certificate,
                >::empty(),
                _ => final(self).resolver == old(self).resolver,
            }),
    {
        match outcome {
            Ok(AcmeEvent::AccountRegistered(credentials)) => {
                self.state = DriverState::AccountReady;
                let key = "account".to_owned();
                self.config.cache.store(key, credentials);
                LogRecord { severity: Severity::Info, kind: EventKind::AccountRegistered }
            },
            Ok(AcmeEvent::OrderCreated(_url)) => {
                self.state = DriverState::OrderPending;
                LogRecord { severity: Severity::Info, kind: EventKind::OrderCreated }
            },
            Ok(AcmeEvent::ChallengePublished(sni, certificate)) => {
                self.state = DriverState::ChallengePublished;
                self.resolver.set_challenge(sni, certificate);
                LogRecord { severity: Severity::Info, kind: EventKind::ChallengePublished }
            },
            Ok(AcmeEvent::ValidationStarted) => {
                self.state = DriverState::ChallengeValidating;
                LogRecord { severity: Severity::Info, kind: EventKind::ValidationStarted }
            },
            Ok(AcmeEvent::CertificateIssued(certificate)) => {
                self.state = DriverState::CertificateIssued;
                self.resolver.set_certificate(certificate);
                self.resolver.clear_challenges();
                LogRecord { severity: Severity::Info, kind: EventKind::CertificateIssued }
            },
            Ok(AcmeEvent::RenewalDue) => {
                self.state = DriverState::OrderPending;
                LogRecord { severity: Severity::Info, kind: EventKind::RenewalDue }
            },
            Err(AcmeError::Transient(_)) => {
                LogRecord { severity: Severity::Error, kind: EventKind::TransientError }
            },
            Err(AcmeError::AccountInvalid(_)) => {
                self.renewing = false;
                LogRecord { severity: Severity::Critical, kind: EventKind::AccountInvalid }
            },
        }
    }
}

/// A failed step never ends the loop and never loses progress: the state
/// after an error is the state before it, and the following outcome is
/// handled exactly as it would have been had the error not happened.
pub proof fn lemma_error_keeps_state(
    s: DriverState,
    err: AcmeError,
    next: Result<AcmeEvent, AcmeError>,
)
    ensures
        spec_next_state(s, Result::<AcmeEvent, AcmeError>::Err(err)) == s,
        spec_next_state(spec_next_state(s, Result::<AcmeEvent, AcmeError>::Err(err)), next)
            == spec_next_state(s, next),
{
}

/// Renewal re-enters the ordering path: whatever state the machine is
/// in, the renewal event leads back to a pending order — the lifecycle
/// never halts after the first issuance.
pub proof fn lemma_renewal_reenters_order(s: DriverState)
    ensures
        spec_next_state(s, Result::<AcmeEvent, AcmeError>::Ok(AcmeEvent::RenewalDue))
            == DriverState::OrderPending,
{
}

} // verus!
