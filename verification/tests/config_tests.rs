use kv_torture::config::{
    resolve_preflight, ConfigError, EngineKind, FillOpts, PreflightAction, SubCommand,
    COLD_SCALE, DEFAULT_BATCH_SZ, DEFAULT_COLD_NUM, DEFAULT_VALUE_SZ,
};

#[test]
fn parse_mdbx() {
    assert_eq!(EngineKind::parse("mdbx"), Ok(EngineKind::Mdbx));
}

#[test]
fn parse_rocksdb_both_spellings() {
    assert_eq!(EngineKind::parse("rocksdb"), Ok(EngineKind::Rocksdb));
    assert_eq!(EngineKind::parse("rdb"), Ok(EngineKind::Rocksdb));
}

#[test]
fn parse_unknown_kind_is_error() {
    assert_eq!(
        EngineKind::parse("sled"),
        Err(ConfigError::UnknownEngineKind)
    );
    assert_eq!(EngineKind::parse(""), Err(ConfigError::UnknownEngineKind));
    assert_eq!(
        EngineKind::parse("MDBX"),
        Err(ConfigError::UnknownEngineKind)
    );
}

#[test]
fn preflight_missing_target_opens_fresh() {
    assert_eq!(
        resolve_preflight(false, false, false),
        Ok(PreflightAction::OpenFresh)
    );
    assert_eq!(
        resolve_preflight(false, true, true),
        Ok(PreflightAction::OpenFresh)
    );
}

#[test]
fn preflight_overwrite_wins() {
    assert_eq!(
        resolve_preflight(true, true, false),
        Ok(PreflightAction::RemoveThenOpen)
    );
    assert_eq!(
        resolve_preflight(true, true, true),
        Ok(PreflightAction::RemoveThenOpen)
    );
}

#[test]
fn preflight_continue_keeps_existing() {
    assert_eq!(
        resolve_preflight(true, false, true),
        Ok(PreflightAction::ContinueExisting)
    );
}

#[test]
fn preflight_conflict_is_error() {
    assert_eq!(
        resolve_preflight(true, false, false),
        Err(ConfigError::ExistingDatabase)
    );
}

#[test]
fn defaults_match_the_cli_documentation() {
    let opts = FillOpts::with_defaults(7);
    assert_eq!(opts.n, 7);
    assert_eq!(opts.batch_sz, DEFAULT_BATCH_SZ);
    assert_eq!(DEFAULT_BATCH_SZ, 1000);
    assert_eq!(opts.value_sz, DEFAULT_VALUE_SZ);
    assert_eq!(DEFAULT_VALUE_SZ, 32);
    assert_eq!(opts.cold_num, DEFAULT_COLD_NUM);
    // 0.3 at the fixed probability resolution
    assert_eq!(DEFAULT_COLD_NUM as u64 * 10, COLD_SCALE as u64 * 3);
}

#[test]
fn fill_opts_extracted_only_from_fill() {
    let opts = FillOpts::with_defaults(3);
    let fill = SubCommand::Fill(opts);
    let got = fill.as_fill_opts().expect("fill carries options");
    assert_eq!(got.n, 3);
    assert!(SubCommand::Stat.as_fill_opts().is_none());
}
