use kv_torture::config::COLD_SCALE;
use kv_torture::keygen::{KeyGen, KeyPool, KEY_LEN};

fn draw_run(count: usize, value_sz: usize, cold_num: u32) -> Vec<(Vec<u8>, Vec<u8>)> {
    let mut gen = KeyGen::new();
    let mut pool = KeyPool::new();
    let mut out = Vec::new();
    for _ in 0..count {
        out.push(gen.next(&mut pool, value_sz, cold_num, COLD_SCALE));
    }
    out
}

#[test]
fn same_seed_same_sequence() {
    // Two generators seeded with the fixed run constants draw identical
    // key and value sequences: runs are bit-for-bit reproducible.
    let a = draw_run(200, 32, 300_000);
    let b = draw_run(200, 32, 300_000);
    assert_eq!(a, b);
}

#[test]
fn keys_have_fixed_length_and_values_requested_length() {
    for (k, v) in draw_run(50, 7, 500_000) {
        assert_eq!(k.len(), KEY_LEN);
        assert_eq!(v.len(), 7);
    }
}

#[test]
fn zero_length_values_are_legal() {
    for (_, v) in draw_run(10, 0, 300_000) {
        assert_eq!(v.len(), 0);
    }
}

#[test]
fn pure_cold_run_generates_distinct_keys() {
    // cold probability 1: every key is fresh, never a pool reuse.
    let run = draw_run(100, 8, COLD_SCALE);
    for i in 0..run.len() {
        for j in 0..i {
            assert_ne!(run[i].0, run[j].0, "keys {} and {} collide", i, j);
        }
    }
}

#[test]
fn pure_cold_grows_pool_every_draw() {
    let mut gen = KeyGen::new();
    let mut pool = KeyPool::new();
    for i in 0..25 {
        let (k, _) = gen.next(&mut pool, 4, COLD_SCALE, COLD_SCALE);
        assert_eq!(pool.len(), i + 1);
        assert_eq!(pool.key_at(i), &k);
    }
}

#[test]
fn pure_reuse_sticks_to_the_first_key() {
    // cold probability 0: the first draw seeds the pool, every later draw
    // reuses the single pooled key.
    let mut gen = KeyGen::new();
    let mut pool = KeyPool::new();
    let (first, _) = gen.next(&mut pool, 4, 0, COLD_SCALE);
    assert_eq!(pool.len(), 1);
    for _ in 0..50 {
        let (k, _) = gen.next(&mut pool, 4, 0, COLD_SCALE);
        assert_eq!(k, first);
        assert_eq!(pool.len(), 1);
    }
}

#[test]
fn values_are_fresh_even_when_keys_are_reused() {
    let mut gen = KeyGen::new();
    let mut pool = KeyPool::new();
    let (_, v1) = gen.next(&mut pool, 16, 0, COLD_SCALE);
    let (_, v2) = gen.next(&mut pool, 16, 0, COLD_SCALE);
    assert_ne!(v1, v2);
}
