use tide_acme::cache::MemoryCache;
use tide_acme::config::{AcmeConfig, ConfigError, Environment};

fn domains(names: &[&str]) -> Vec<String> {
    names.iter().map(|n| n.to_string()).collect()
}

#[test]
fn empty_domain_list_is_refused_before_any_network_io() {
    // The library performs no I/O at all; validation alone decides.
    let config = AcmeConfig::<MemoryCache>::new(Vec::new());
    assert_eq!(config.validate().err(), Some(ConfigError::NoDomains));
}

#[test]
fn missing_cache_is_refused_before_any_network_io() {
    let config = AcmeConfig::<MemoryCache>::new(domains(&["example.test"]));
    assert_eq!(config.validate().err(), Some(ConfigError::NoCache));
}

#[test]
fn empty_domains_are_reported_before_the_missing_cache() {
    let config = AcmeConfig::<MemoryCache>::new(Vec::new());
    assert_eq!(config.validate().err(), Some(ConfigError::NoDomains));
}

#[test]
fn valid_configuration_passes_through_intact() {
    let config = AcmeConfig::new(domains(&["example.test", "www.example.test"]))
        .contact_push("mailto:admin@example.test".to_string())
        .cache(MemoryCache::new());
    let validated = config.validate().ok().expect("configuration should validate");
    assert_eq!(validated.domains, domains(&["example.test", "www.example.test"]));
    assert_eq!(validated.contact, vec!["mailto:admin@example.test".to_string()]);
    assert!(matches!(validated.environment, Environment::Staging));
}

#[test]
fn environment_defaults_to_staging() {
    let config = AcmeConfig::<MemoryCache>::new(domains(&["example.test"]));
    assert!(matches!(config.environment, Environment::Staging));
    assert!(config.contact.is_empty());
    assert!(config.cache.is_none());
}

#[test]
fn production_is_an_explicit_opt_in() {
    let config = AcmeConfig::<MemoryCache>::new(domains(&["example.test"]))
        .directory_lets_encrypt(true);
    assert!(matches!(config.environment, Environment::Production));
    let back = config.directory_lets_encrypt(false);
    assert!(matches!(back.environment, Environment::Staging));
}

#[test]
fn custom_directory_overrides_both_defaults() {
    let config = AcmeConfig::<MemoryCache>::new(domains(&["example.test"]))
        .directory_lets_encrypt(true)
        .directory("https://acme.internal/directory".to_string());
    match &config.environment {
        Environment::Custom(url) => assert_eq!(url, "https://acme.internal/directory"),
        other => panic!("expected a custom directory, got {:?}", other),
    }
    assert_eq!(config.environment.directory_url(), "https://acme.internal/directory");
}

#[test]
fn directory_urls_are_the_lets_encrypt_endpoints() {
    assert_eq!(
        Environment::Staging.directory_url(),
        "https://acme-staging-v02.api.letsencrypt.org/directory"
    );
    assert_eq!(
        Environment::Production.directory_url(),
        "https://acme-v02.api.letsencrypt.org/directory"
    );
}

#[test]
fn contact_can_be_replaced_or_accumulated() {
    let config = AcmeConfig::<MemoryCache>::new(domains(&["example.test"]))
        .contact(vec!["mailto:a@example.test".to_string()])
        .contact_push("mailto:b@example.test".to_string());
    assert_eq!(
        config.contact,
        vec!["mailto:a@example.test".to_string(), "mailto:b@example.test".to_string()]
    );
}

#[test]
fn errors_describe_themselves() {
    assert_eq!(ConfigError::NoDomains.describe(), "the domain list is empty");
    assert_eq!(ConfigError::NoCache.describe(), "no certificate cache was set");
}
