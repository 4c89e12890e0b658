use tree_crasher::batch::{
    config_from_draws, draw_config, pick_seed, start_worker, trim_mutant, Batch, MutatorConfig,
    Start, BATCH, BYTE_MODE_MAX, REPORT_EVERY,
};
use tree_crasher::supervisor::{worker_count, Workers};

#[test]
fn the_constants_are_the_documented_ones() {
    assert_eq!(BATCH, 100_000);
    assert_eq!(REPORT_EVERY, 1_000);
    assert_eq!(BYTE_MODE_MAX, 4096);
}

#[test]
fn config_from_draws_is_exact() {
    let c = config_from_draws(12, 19, 10, 0xdead_beef, 1 << 20);
    assert_eq!(
        c,
        MutatorConfig {
            chaos: 19,
            deletions: 10,
            inter_splices: 12,
            max_size: 1 << 20,
            reparse: usize::MAX,
            seed: 0xdead_beef,
        }
    );
}

#[test]
fn drawn_configs_lie_in_the_ranges() {
    let mut seeds = Vec::new();
    for _ in 0..200 {
        let c = draw_config(4096);
        assert!((12..48).contains(&c.inter_splices));
        assert!((15..20).contains(&c.chaos));
        assert!((10..20).contains(&c.deletions));
        assert_eq!(c.max_size, 4096);
        assert_eq!(c.reparse, usize::MAX);
        seeds.push(c.seed);
    }
    seeds.sort();
    seeds.dedup();
    assert!(seeds.len() > 1);
}

#[test]
fn empty_corpus_ends_the_worker() {
    assert_eq!(start_worker(0), Start::NoSeeds);
    assert_eq!(start_worker(1), Start::Fuzz);
    assert_eq!(start_worker(usize::MAX), Start::Fuzz);
}

#[test]
fn picked_seeds_exist() {
    assert_eq!(pick_seed(1), 0);
    let mut seen = [false; 3];
    for _ in 0..500 {
        let i = pick_seed(3);
        assert!(i < 3);
        seen[i] = true;
    }
    assert!(seen[0] && seen[1] && seen[2]);
}

#[test]
fn a_mutant_is_cut_to_its_length() {
    let mut m = vec![0u8; BYTE_MODE_MAX];
    m[0] = 9;
    m[1] = 8;
    trim_mutant(&mut m, 2);
    assert_eq!(m, vec![9, 8]);
    trim_mutant(&mut m, 4096);
    assert_eq!(m, vec![9, 8]);
    trim_mutant(&mut m, 0);
    assert!(m.is_empty());
}

#[test]
fn a_report_is_due_every_thousand_runs() {
    let mut b = Batch::new();
    assert_eq!(b.execs, 0);
    for n in 1..=3000usize {
        assert!(b.admits(true));
        let rate = b.record(2);
        assert_eq!(b.execs, n);
        if n % 1000 == 0 {
            assert_eq!(rate, Some(n as u64 / 2));
        } else {
            assert_eq!(rate, None);
        }
    }
}

#[test]
fn no_rate_before_the_first_second() {
    let mut b = Batch { execs: 999 };
    assert_eq!(b.record(0), None);
    assert_eq!(b.execs, 1000);
    let mut b = Batch { execs: 1999 };
    assert_eq!(b.record(3), Some(666));
}

#[test]
fn a_batch_ends_when_full_or_dry() {
    let b = Batch { execs: BATCH - 1 };
    assert!(b.admits(true));
    assert!(!b.admits(false));
    let mut b = b;
    assert_eq!(b.record(10), Some(10_000));
    assert!(!b.admits(true));
    assert!(!Batch::new().admits(false));
}

#[test]
fn worker_counts() {
    assert_eq!(worker_count(false, 8, false), Workers { count: 8, warn: false });
    assert_eq!(worker_count(true, 8, false), Workers { count: 1, warn: false });
    assert_eq!(worker_count(false, 8, true), Workers { count: 1, warn: true });
    assert_eq!(worker_count(true, 8, true), Workers { count: 1, warn: true });
    assert_eq!(worker_count(false, 1, true), Workers { count: 1, warn: false });
    assert_eq!(worker_count(false, 0, false), Workers { count: 0, warn: false });
}
