use tide_acme::cache::{Cache, MemoryCache};
use tide_acme::kvmap::KvMap;
use tide_acme::resolver::{Certificate, CertificateResolver};

fn cert(tag: u8) -> Certificate {
    Certificate { key: vec![tag, 10], chain: vec![tag, 20] }
}

#[test]
fn an_empty_resolver_serves_nothing() {
    let resolver = CertificateResolver::new();
    assert_eq!(resolver.resolve(&"example.test".to_string(), false), None);
    assert_eq!(resolver.resolve(&"example.test".to_string(), true), None);
}

#[test]
fn a_seeded_resolver_serves_the_cached_certificate_at_once() {
    let resolver = CertificateResolver::seeded(Some(cert(1)));
    assert_eq!(resolver.resolve(&"example.test".to_string(), false), Some(&cert(1)));
}

#[test]
fn certificate_updates_swap_the_whole_value() {
    let old_cert = cert(1);
    let new_cert = cert(2);
    let mut resolver = CertificateResolver::seeded(Some(old_cert));

    // A read before the swap sees the old key with the old chain.
    let before = {
        let c = resolver.resolve(&"example.test".to_string(), false).unwrap();
        (c.key.clone(), c.chain.clone())
    };
    assert_eq!(before, (vec![1, 10], vec![1, 20]));

    resolver.set_certificate(new_cert);

    // A read after the swap sees the new key with the new chain; no read
    // can pair the old key with the new chain or the other way round.
    let after = {
        let c = resolver.resolve(&"example.test".to_string(), false).unwrap();
        (c.key.clone(), c.chain.clone())
    };
    assert_eq!(after, (vec![2, 10], vec![2, 20]));
    for observed in [&before, &after] {
        assert!(observed == &(vec![1, 10], vec![1, 20]) || observed == &(vec![2, 10], vec![2, 20]));
    }
}

#[test]
fn challenge_certificates_are_keyed_by_sni() {
    let mut resolver = CertificateResolver::new();
    resolver.set_challenge("a.example.test".to_string(), cert(3));
    resolver.set_challenge("b.example.test".to_string(), cert(4));
    assert_eq!(resolver.resolve(&"a.example.test".to_string(), true), Some(&cert(3)));
    assert_eq!(resolver.resolve(&"b.example.test".to_string(), true), Some(&cert(4)));
    assert_eq!(resolver.resolve(&"c.example.test".to_string(), true), None);
    // Ordinary connections are never served a challenge certificate.
    assert_eq!(resolver.resolve(&"a.example.test".to_string(), false), None);
}

#[test]
fn a_republished_challenge_replaces_the_old_one() {
    let mut resolver = CertificateResolver::new();
    resolver.set_challenge("a.example.test".to_string(), cert(3));
    resolver.set_challenge("a.example.test".to_string(), cert(5));
    assert_eq!(resolver.resolve(&"a.example.test".to_string(), true), Some(&cert(5)));
}

#[test]
fn clearing_challenges_keeps_the_certificate() {
    let mut resolver = CertificateResolver::seeded(Some(cert(1)));
    resolver.set_challenge("a.example.test".to_string(), cert(3));
    resolver.clear_challenges();
    assert_eq!(resolver.resolve(&"a.example.test".to_string(), true), None);
    assert_eq!(resolver.resolve(&"a.example.test".to_string(), false), Some(&cert(1)));
}

#[test]
fn memory_cache_stores_and_replaces_values() {
    let mut cache = MemoryCache::new();
    assert_eq!(cache.load(&"account".to_string()), None);
    cache.store("account".to_string(), b"first".to_vec());
    assert_eq!(cache.load(&"account".to_string()), Some(b"first".to_vec()));
    cache.store("account".to_string(), b"second".to_vec());
    assert_eq!(cache.load(&"account".to_string()), Some(b"second".to_vec()));
    assert_eq!(cache.load(&"certificate".to_string()), None);
}

#[test]
fn kvmap_returns_the_most_recent_value() {
    let mut map: KvMap<u64> = KvMap::new();
    assert_eq!(map.get(&"k".to_string()), None);
    map.set("k".to_string(), 1);
    map.set("j".to_string(), 2);
    map.set("k".to_string(), 3);
    assert_eq!(map.get(&"k".to_string()), Some(&3));
    assert_eq!(map.get(&"j".to_string()), Some(&2));
    map.clear();
    assert_eq!(map.get(&"k".to_string()), None);
}
