//! The pluggable persistence interface.
//!
//! The ACME account credentials and issued certificates must survive
//! restarts, or the server would re-register and re-order on every start
//! and run into rate limits. The store is a plain key/value interface
//! keyed by opaque string identifiers; the backing medium is the host's
//! concern. [`MemoryCache`] is the provided in-process backend.

use vstd::prelude::*;

use crate::kvmap::KvMap;

verus! {

/// A persistent key/value store for account credentials and certificates,
/// keyed by opaque string identifiers.
pub trait Cache {
    /// The stored contents.
    spec fn contents(&self) -> Map<Seq<char>, Seq<u8>>;

    /// Read the value stored under `key`, if any.
    fn load(&self, key: &String) -> (r: Option<Vec<u8>>)
        ensures
            (match r {
                Some(v) => self.contents().contains_key(key@) && v@ == self.contents()[key@],
                None => !self.contents().contains_key(key@),
            }),
    ;

    /// Store `value` under `key`, replacing any previous value.
    fn store(&mut self, key: String, value: Vec<u8>)
        ensures
            final(self).contents() == old(self).contents().insert(key@, value@),
    ;
}

/// Byte-for-byte copy of a byte string.
fn copy_bytes(v: &Vec<u8>) -> (r: Vec<u8>)
    ensures
        r@ == v@,
{
    let mut out: Vec<u8> = Vec::new();
    let n = v.len();
    let mut i: usize = 0;
    while i < n
        invariant
            n == v@.len(),
            i <= n,
            out@ == v@.take(i as int),
        decreases n - i,
    {
        out.push(v[i]);
        i += 1;
        proof {
            assert(out@ =~= v@.take(i as int));
        }
    }
    proof {
        assert(v@.take(n as int) =~= v@);
    }
    out
}

/// An in-process cache. It keeps nothing across restarts, so it suits
/// tests and short-lived servers; a host that needs persistence supplies
/// its own [`Cache`] backend.
pub struct MemoryCache {
    map: KvMap<Vec<u8>>,
}

impl MemoryCache {
    /// An empty cache.
    pub fn new() -> (r: Self)
        ensures
            r.contents() == Map::<Seq<char>, Seq<u8>>::empty(),
    {
        let r = MemoryCache { map: KvMap::new() };
        proof {
            assert(r.contents() =~= Map::<Seq<char>, Seq<u8>>::empty());
        }
        r
    }
}

impl Cache for MemoryCache {
    closed spec fn contents(&self) -> Map<Seq<char>, Seq<u8>> {
        Map::new(|k: Seq<char>| self.map@.contains_key(k), |k: Seq<char>| self.map@[k]@)
    }

    fn load(&self, key: &String) -> (r: Option<Vec<u8>>) {
        match self.map.get(key) {
            Some(v) => Some(copy_bytes(v)),
            None => None,
        }
    }

    fn store(&mut self, key: String, value: Vec<u8>) {
        let ghost k = key@;
        let ghost w = value@;
        let ghost before = self.contents();
        self.map.set(key, value);
        proof {
            assert(self.contents() =~= before.insert(k, w));
        }
    }
}

} // verus!
