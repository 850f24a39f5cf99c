use kv_torture::config::FillOpts;
use kv_torture::driver::{BatchStep, FillRun};

fn opts(n: usize, batch_sz: usize, value_sz: usize) -> FillOpts {
    FillOpts {
        n,
        batch_sz,
        value_sz,
        cold_num: 300_000,
    }
}

/// Runs the machine to completion; returns the batch sizes and the number
/// of flush instructions, checking the flush comes after the last commit.
fn run_to_done(mut run: FillRun) -> (Vec<usize>, usize) {
    let mut batches = Vec::new();
    let mut flushes = 0;
    loop {
        match run.step() {
            BatchStep::Commit(items) => {
                assert_eq!(flushes, 0, "a commit may never follow the flush");
                batches.push(items.len());
            }
            BatchStep::Flush => flushes += 1,
            BatchStep::Done => break,
        }
    }
    (batches, flushes)
}

#[test]
fn batches_cover_exactly_n_items() {
    let (batches, _) = run_to_done(FillRun::new(opts(10, 3, 4), false));
    assert_eq!(batches, vec![3, 3, 3, 1]);
    assert_eq!(batches.iter().sum::<usize>(), 10);
}

#[test]
fn exact_multiple_ends_with_a_full_batch() {
    let (batches, _) = run_to_done(FillRun::new(opts(6, 3, 4), false));
    assert_eq!(batches, vec![3, 3]);
}

#[test]
fn batch_larger_than_n_truncates() {
    let (batches, _) = run_to_done(FillRun::new(opts(2, 1000, 4), false));
    assert_eq!(batches, vec![2]);
}

#[test]
fn zero_items_writes_nothing_and_terminates() {
    let (batches, flushes) = run_to_done(FillRun::new(opts(0, 5, 4), false));
    assert!(batches.is_empty());
    assert_eq!(flushes, 0);
}

#[test]
fn zero_items_no_sync_still_flushes_once() {
    let (batches, flushes) = run_to_done(FillRun::new(opts(0, 5, 4), true));
    assert!(batches.is_empty());
    assert_eq!(flushes, 1);
}

#[test]
fn durable_run_never_flushes() {
    let (_, flushes) = run_to_done(FillRun::new(opts(7, 2, 4), false));
    assert_eq!(flushes, 0);
}

#[test]
fn no_sync_run_flushes_exactly_once_after_last_batch() {
    let (batches, flushes) = run_to_done(FillRun::new(opts(5, 2, 4), true));
    assert_eq!(batches, vec![2, 2, 1]);
    assert_eq!(flushes, 1);
}

#[test]
fn done_is_stable() {
    let mut run = FillRun::new(opts(1, 1, 4), false);
    loop {
        if let BatchStep::Done = run.step() {
            break;
        }
    }
    for _ in 0..3 {
        assert!(matches!(run.step(), BatchStep::Done));
    }
}

#[test]
fn batch_items_have_requested_shapes() {
    let mut run = FillRun::new(opts(4, 4, 9), false);
    match run.step() {
        BatchStep::Commit(items) => {
            assert_eq!(items.len(), 4);
            for (k, v) in items {
                assert_eq!(k.len(), 32);
                assert_eq!(v.len(), 9);
            }
        }
        _ => panic!("expected a commit step"),
    }
}

#[test]
fn remaining_decreases_batch_by_batch() {
    let mut run = FillRun::new(opts(5, 2, 4), false);
    assert_eq!(run.remaining(), 5);
    run.step();
    assert_eq!(run.remaining(), 3);
    run.step();
    assert_eq!(run.remaining(), 1);
    run.step();
    assert_eq!(run.remaining(), 0);
}
