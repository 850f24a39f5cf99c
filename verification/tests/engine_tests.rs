use kv_torture::engine::{durability_mode, mdbx_tuning, Durability, GIGABYTE, TERABYTE};

#[test]
fn size_constants_are_powers_of_1024() {
    assert_eq!(GIGABYTE, 1024 * 1024 * 1024);
    assert_eq!(TERABYTE, 1024 * GIGABYTE);
}

#[test]
fn durability_follows_the_no_sync_flag() {
    assert_eq!(durability_mode(false), Durability::Durable);
    assert_eq!(durability_mode(true), Durability::NoSync);
}

#[test]
fn mdbx_tuning_matches_the_harness_settings() {
    let t = mdbx_tuning(false);
    assert_eq!(t.max_tables, 256);
    assert_eq!(t.page_size, 4096);
    assert_eq!(t.max_size, 4 * TERABYTE);
    assert_eq!(t.growth_step, GIGABYTE);
    assert_eq!(t.shrink_threshold, 0);
    assert_eq!(t.durability, Durability::Durable);
    assert_eq!(mdbx_tuning(true).durability, Durability::NoSync);
}
