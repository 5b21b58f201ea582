//! Configuration of the certificate machinery.
//!
//! A builder collects the domain set, the optional contact addresses, the
//! ACME environment and the certificate cache. Validation happens before
//! anything touches the network: a configuration without domains or
//! without a cache is refused outright, since a server that silently
//! re-registers on every start or serves nothing is a programming error,
//! not a runtime condition. The environment defaults to the staging
//! directory, so that a freshly configured server cannot trip production
//! rate limits by accident; production is an explicit opt-in.

use vstd::prelude::*;

verus! {

/// The ACME environment certificates are requested from.
#[derive(PartialEq, Eq, Debug)]
pub enum Environment {
    /// The Let's Encrypt staging directory: generous rate limits,
    /// certificates signed by a staging root that browsers do not trust.
    Staging,
    /// The Let's Encrypt production directory.
    Production,
    /// A fully custom ACME directory URL, overriding both defaults.
    Custom(String),
}

/// The URL of the Let's Encrypt staging directory.
pub open spec fn spec_staging_directory() -> Seq<char> {
    "https://acme-staging-v02.api.letsencrypt.org/directory"@
}

/// The URL of the Let's Encrypt production directory.
pub open spec fn spec_production_directory() -> Seq<char> {
    "https://acme-v02.api.letsencrypt.org/directory"@
}

/// The directory URL an environment selects.
pub open spec fn spec_directory_url(e: Environment) -> Seq<char> {
    match e {
        Environment::Staging => spec_staging_directory(),
        Environment::Production => spec_production_directory(),
        Environment::Custom(url) => url@,
    }
}

impl Environment {
    /// The ACME directory URL this environment points the client at.
    pub fn directory_url(&self) -> (r: &str)
        ensures
            r@ == spec_directory_url(*self),
    {
        match self {
            Environment::Staging => "https://acme-staging-v02.api.letsencrypt.org/directory",
            Environment::Production => "https://acme-v02.api.letsencrypt.org/directory",
            Environment::Custom(url) => url.as_str(),
        }
    }
}

/// Why a configuration was refused.
#[derive(Clone, Copy, PartialEq, Eq, Structural, Debug)]
pub enum ConfigError {
    /// The domain list is empty: there is nothing to certify.
    NoDomains,
    /// No certificate cache was set: account and certificates could not be
    /// kept between runs.
    NoCache,
}

impl ConfigError {
    /// A short description, for the host's fatal startup report.
    pub fn describe(&self) -> (r: &str)
        ensures
            (match *self {
                ConfigError::NoDomains => r@ == "the domain list is empty"@,
                ConfigError::NoCache => r@ == "no certificate cache was set"@,
            }),
    {
        match self {
            ConfigError::NoDomains => "the domain list is empty",
            ConfigError::NoCache => "no certificate cache was set",
        }
    }
}

/// The builder: accumulates fields, performs no other work. `C` is the
/// cache backend.
pub struct AcmeConfig<C> {
    pub domains: Vec<String>,
    pub contact: Vec<String>,
    pub environment: Environment,
    pub cache: Option<C>,
}

/// A configuration that passed validation: the domain list is non-empty
/// and a cache is present.
pub struct ValidatedConfig<C> {
    pub domains: Vec<String>,
    pub contact: Vec<String>,
    pub environment: Environment,
    pub cache: C,
}

impl<C> ValidatedConfig<C> {
    /// The invariant validation establishes.
    pub open spec fn wf(&self) -> bool {
        self.domains@.len() > 0
    }
}

impl<C> AcmeConfig<C> {
    /// Start a configuration for the given domain set. The environment
    /// defaults to staging; contact and cache start empty.
    pub fn new(domains: Vec<String>) -> (r: Self)
        ensures
            r.domains == domains,
            r.contact@ == Seq::<String>::empty(),
            r.environment == Environment::Staging,
            r.cache is None,
    {
        AcmeConfig { domains, contact: Vec::new(), environment: Environment::Staging, cache: None }
    }

    /// Replace the contact addresses.
    pub fn contact(self, contact: Vec<String>) -> (r: Self)
        ensures
            r.domains == self.domains,
            r.contact == contact,
            r.environment == self.environment,
            r.cache == self.cache,
    {
        AcmeConfig { contact, ..self }
    }

    /// Add one contact address, e.g. a `mailto:` URI.
    pub fn contact_push(self, contact: String) -> (r: Self)
        ensures
            r.domains == self.domains,
            r.contact@ == self.contact@.push(contact),
            r.environment == self.environment,
            r.cache == self.cache,
    {
        let mut c = self;
        c.contact.push(contact);
        c
    }

    /// Set the cache backend that keeps account and certificates between
    /// runs.
    pub fn cache(self, cache: C) -> (r: Self)
        ensures
            r.domains == self.domains,
            r.contact == self.contact,
            r.environment == self.environment,
            r.cache == Some(cache),
    {
        AcmeConfig { cache: Some(cache), ..self }
    }

    /// Choose between the Let's Encrypt production and staging
    /// directories. Production is the explicit opt-in.
    pub fn directory_lets_encrypt(self, production: bool) -> (r: Self)
        ensures
            r.domains == self.domains,
            r.contact == self.contact,
            r.cache == self.cache,
            r.environment == (if production {
                Environment::Production
            } else {
                Environment::Staging
            }),
    {
        AcmeConfig {
            environment: if production {
                Environment::Production
            } else {
                Environment::Staging
            },
            ..self
        }
    }

    /// Point the client at a fully custom ACME directory URL.
    pub fn directory(self, url: String) -> (r: Self)
        ensures
            r.domains == self.domains,
            r.contact == self.contact,
            r.cache == self.cache,
            r.environment == Environment::Custom(url),
    {
        AcmeConfig { environment: Environment::Custom(url), ..self }
    }

    /// A configuration is valid when it names at least one domain and a
    /// cache was set.
    pub open spec fn is_valid(&self) -> bool {
        self.domains@.len() > 0 && self.cache is Some
    }

    /// Check the configuration, before any network I/O: an empty domain
    /// list is refused first, then a missing cache; a valid configuration
    /// passes through with every field intact.
    pub fn validate(self) -> (r: Result<ValidatedConfig<C>, ConfigError>)
        ensures
            r is Ok <==> self.is_valid(),
            self.domains@.len() == 0 ==> r == Result::<ValidatedConfig<C>, ConfigError>::Err(
                ConfigError::NoDomains,
            ),
            self.domains@.len() > 0 && self.cache is None ==> r == Result::<
                ValidatedConfig<C>,
                ConfigError,
            >::Err(ConfigError::NoCache),
            (r matches Ok(v) ==> v.wf() && v.domains == self.domains && v.contact == self.contact
                && v.environment == self.environment && Some(v.cache) == self.cache),
    {
        if self.domains.len() == 0 {
            return Err(ConfigError::NoDomains);
        }
        match self.cache {
            None => Err(ConfigError::NoCache),
            Some(cache) => Ok(
                ValidatedConfig {
                    domains: self.domains,
                    contact: self.contact,
                    environment: self.environment,
                    cache,
                },
            ),
        }
    }
}

} // verus!
