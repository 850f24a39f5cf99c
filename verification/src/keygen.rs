//! The key-locality generator: a seeded pseudo-random sequence of
//! (key, value) pairs with a tunable probability of drawing a brand-new
//! ("cold") key instead of reusing one from the pool of keys already
//! handed out.

use vstd::prelude::*;

use crate::rng::{pcg_bytes, pcg_index, pcg_new, pcg_ratio};

verus! {

/// Every key the generator produces is exactly this many bytes long.
pub const KEY_LEN: usize = 32;

/// First seed constant of the run's pseudo-random source.
pub const SEED_STATE: u128 = 0xcafef00dd15ea5e5;

/// Second seed constant of the run's pseudo-random source.
pub const SEED_STREAM: u128 = 0x60e11a7bf9cb254560e11a7bf9cb2545;

/// The append-only pool of keys generated so far. It only grows, keeps
/// insertion order, and answers index lookups in constant time, which is
/// what uniform reuse sampling needs.
pub struct KeyPool {
    keys: Vec<Vec<u8>>,
}

impl View for KeyPool {
    type V = Seq<Seq<u8>>;

    closed spec fn view(&self) -> Seq<Seq<u8>> {
        self.keys@.map_values(|k: Vec<u8>| k@)
    }
}

impl KeyPool {
    /// Every key held by the pool has the fixed key length.
    pub open spec fn wf(&self) -> bool {
        forall|i: int| 0 <= i < self@.len() ==> (#[trigger] self@[i]).len() == KEY_LEN
    }

    /// An empty pool.
    pub fn new() -> (p: KeyPool)
        ensures
            p@ =~= Seq::<Seq<u8>>::empty(),
            p.wf(),
    {
        KeyPool { keys: Vec::new() }
    }

    /// How many keys the pool holds.
    pub fn len(&self) -> (n: usize)
        ensures
            n == self@.len(),
    {
        self.keys.len()
    }

    /// Read access to the key at a valid index.
    pub fn key_at(&self, i: usize) -> (k: &Vec<u8>)
        requires
            i < self@.len(),
        ensures
            k@ == self@[i as int],
    {
        &self.keys[i]
    }

    /// Appends a key of the fixed length; all existing entries keep their
    /// positions.
    fn push(&mut self, k: Vec<u8>)
        requires
            k@.len() == KEY_LEN,
        ensures
            final(self)@ =~= old(self)@.push(k@),
            old(self).wf() ==> final(self).wf(),
    {
        self.keys.push(k);
        proof {
            assert(self@ =~= old(self)@.push(k@));
        }
    }
}

/// Copies a byte string.
fn clone_bytes(v: &Vec<u8>) -> (r: Vec<u8>)
    ensures
        r@ == v@,
{
    let mut r: Vec<u8> = Vec::new();
    let mut i: usize = 0;
    while i < v.len()
        invariant
            i <= v@.len(),
            r@ =~= v@.subrange(0, i as int),
        decreases v@.len() - i,
    {
        r.push(v[i]);
        proof {
            assert(r@ =~= v@.subrange(0, i + 1 as int));
        }
        i += 1;
    }
    proof {
        assert(r@ =~= v@);
    }
    r
}

/// No two keys in the sequence are equal.
pub open spec fn distinct_keys(s: Seq<Seq<u8>>) -> bool {
    forall|i: int, j: int| 0 <= i < j < s.len() ==> s[i] != s[j]
}

/// The deterministic key-locality generator. Seeded from the two fixed run
/// constants, so repeated runs with the same parameters draw the same
/// pseudo-random sequence.
pub struct KeyGen {
    rng: rand_pcg::Pcg64,
}

impl KeyGen {
    /// A generator seeded with the run's fixed constants.
    pub fn new() -> KeyGen {
        KeyGen { rng: pcg_new(SEED_STATE, SEED_STREAM) }
    }

    /// Draws the next (key, value) pair. When the pool is empty, or a
    /// Bernoulli draw with probability cold_num/cold_den succeeds, a fresh
    /// key is generated and appended to the pool; otherwise an existing key
    /// is picked from the pool by a uniform index and the pool is left
    /// unchanged. The value is freshly drawn either way.
    pub fn next(
        &mut self,
        pool: &mut KeyPool,
        value_size: usize,
        cold_num: u32,
        cold_den: u32,
    ) -> (r: (Vec<u8>, Vec<u8>))
        requires
            old(pool).wf(),
            0 < cold_den,
            cold_num <= cold_den,
        ensures
            final(pool).wf(),
            r.0@.len() == KEY_LEN,
            r.1@.len() == value_size,
            // the pool only grows: what it held stays, at the same indexes
            old(pool)@.is_prefix_of(final(pool)@),
            final(pool)@ == old(pool)@.push(r.0@) || (final(pool)@ == old(pool)@ && old(
                pool,
            )@.contains(r.0@)),
            old(pool)@.len() == 0 ==> final(pool)@ == old(pool)@.push(r.0@),
            cold_num == cold_den ==> final(pool)@ == old(pool)@.push(r.0@),
            cold_num == 0 && old(pool)@.len() > 0 ==> final(pool)@ == old(pool)@ && old(
                pool,
            )@.contains(r.0@),
    {
        let key: Vec<u8>;
        if pool.len() == 0 || pcg_ratio(&mut self.rng, cold_num, cold_den) {
            let fresh = pcg_bytes(&mut self.rng, KEY_LEN);
            key = clone_bytes(&fresh);
            pool.push(fresh);
        } else {
            let i = pcg_index(&mut self.rng, pool.len());
            key = clone_bytes(pool.key_at(i));
            proof {
                assert(pool@[i as int] == key@);
            }
        }
        let value = pcg_bytes(&mut self.rng, value_size);
        (key, value)
    }
}

/// Law: under the pure-cold ratio each call appends exactly its generated
/// key to the pool, so as long as no fresh draw collides with a key already
/// in the pool, a pool of pairwise-distinct keys stays pairwise distinct —
/// every generated key differs from all previously generated ones.
pub proof fn lemma_cold_step_preserves_distinct(pool: Seq<Seq<u8>>, key: Seq<u8>)
    requires
        distinct_keys(pool),
        !pool.contains(key),
    ensures
        distinct_keys(pool.push(key)),
{
    let grown = pool.push(key);
    assert forall|i: int, j: int| 0 <= i < j < grown.len() implies grown[i] != grown[j] by {
        if j < pool.len() {
            assert(pool[i] != pool[j]);
        } else {
            assert(grown[j] == key);
            assert(grown[i] == pool[i]);
            assert(pool.contains(pool[i]));
        }
    }
}

/// Law: in a pure-cold run the pool after k draws holds exactly the k keys
/// generated so far, so if every fresh draw misses everything drawn before
/// it, the whole generated key sequence is pairwise distinct.
pub proof fn lemma_cold_run_distinct(keys: Seq<Seq<u8>>)
    requires
        forall|k: int| 0 <= k < keys.len() ==> !keys.take(k).contains(#[trigger] keys[k]),
    ensures
        distinct_keys(keys),
    decreases keys.len(),
{
    if keys.len() > 0 {
        let prefix = keys.take(keys.len() - 1);
        assert forall|k: int| 0 <= k < prefix.len() implies !prefix.take(k).contains(
            #[trigger] prefix[k],
        ) by {
            assert(prefix.take(k) =~= keys.take(k));
            assert(prefix[k] == keys[k]);
        }
        lemma_cold_run_distinct(prefix);
        let last = keys.last();
        assert(!prefix.contains(last));
        lemma_cold_step_preserves_distinct(prefix, last);
        assert(prefix.push(last) =~= keys);
    }
}

} // verus!
