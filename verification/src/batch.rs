//! The mutator's parameters, drawn afresh for each batch, and the count that
//! a worker keeps while it runs a batch.

use crate::outside::{any_u64, uniform_in};
use vstd::prelude::*;

verus! {

/// The most outputs that one set of parameters produces.
pub const BATCH: usize = 100_000;

/// A throughput report is due after every this many runs.
pub const REPORT_EVERY: usize = 1_000;

/// The most bytes that a mutant of the byte-level mode has.
pub const BYTE_MODE_MAX: usize = 4096;

/// The parameters of one batch of the grammar-aware mutator.
#[derive(Clone, Copy, Debug, PartialEq, Eq, Structural)]
pub struct MutatorConfig {
    /// Percent of mutations that overwrite bytes at random.
    pub chaos: u8,
    /// Percent of mutations that delete an optional subtree.
    pub deletions: u8,
    /// Splices per output.
    pub inter_splices: usize,
    /// Approximate ceiling on an output, in bytes.
    pub max_size: usize,
    /// Outputs between two parses of the working tree.
    pub reparse: usize,
    /// Seed of the mutator's generator.
    pub seed: u64,
}

/// How a worker begins.
#[derive(Clone, Copy, Debug, PartialEq, Eq, Structural)]
pub enum Start {
    /// There is no seed: the worker leaves at once and writes nothing.
    NoSeeds,
    /// The worker draws its first batch.
    Fuzz,
}

/// The runs of the current batch.
#[derive(Clone, Copy, Debug, PartialEq, Eq, Structural)]
pub struct Batch {
    pub execs: usize,
}

/// The parameters that these draws give, for outputs of at most `max_size`
/// bytes. The working tree is never parsed again.
pub open spec fn config_of(
    inter_splices: u64,
    chaos: u64,
    deletions: u64,
    seed: u64,
    max_size: usize,
) -> MutatorConfig {
    MutatorConfig {
        chaos: chaos as u8,
        deletions: deletions as u8,
        inter_splices: inter_splices as usize,
        max_size,
        reparse: usize::MAX,
        seed,
    }
}

/// The rate to report once `execs` runs took `secs` whole seconds: due at
/// every thousandth run, and left out while no whole second has passed.
pub open spec fn report_for(execs: usize, secs: u64) -> Option<u64> {
    if execs % 1000 == 0 && secs > 0 {
        Some((execs as u64 / secs) as u64)
    } else {
        None
    }
}

impl MutatorConfig {
    /// Both percentages are at most 100.
    pub open spec fn wf(&self) -> bool {
        self.chaos <= 100 && self.deletions <= 100
    }

    /// The parameters lie in the ranges from which a batch draws them.
    pub open spec fn in_batch_ranges(&self) -> bool {
        &&& 12 <= self.inter_splices < 48
        &&& 15 <= self.chaos < 20
        &&& 10 <= self.deletions < 20
        &&& self.reparse == usize::MAX
    }
}

/// The parameters for draws that lie in the batch's ranges.
pub fn config_from_draws(
    inter_splices: u64,
    chaos: u64,
    deletions: u64,
    seed: u64,
    max_size: usize,
) -> (config: MutatorConfig)
    requires
        12 <= inter_splices < 48,
        15 <= chaos < 20,
        10 <= deletions < 20,
    ensures
        config == config_of(inter_splices, chaos, deletions, seed, max_size),
        config.wf(),
        config.in_batch_ranges(),
{
    MutatorConfig {
        chaos: chaos as u8,
        deletions: deletions as u8,
        inter_splices: inter_splices as usize,
        max_size,
        reparse: usize::MAX,
        seed,
    }
}

/// Draws the parameters of a new batch: 12 to 47 splices, 15 to 19 percent
/// chaos, 10 to 19 percent deletions and any seed, whatever the user asked
/// for; only the size ceiling is the user's.
pub fn draw_config(max_size: usize) -> (config: MutatorConfig)
    ensures
        config.wf(),
        config.in_batch_ranges(),
        config.max_size == max_size,
{
    let inter_splices = uniform_in(12, 48);
    let seed = any_u64();
    let chaos = uniform_in(15, 20);
    let deletions = uniform_in(10, 20);
    config_from_draws(inter_splices, chaos, deletions, seed, max_size)
}

/// Decides how a worker begins over a corpus of `seeds` seeds.
pub fn start_worker(seeds: usize) -> (start: Start)
    ensures
        start == if seeds == 0 {
            Start::NoSeeds
        } else {
            Start::Fuzz
        },
{
    if seeds == 0 {
        Start::NoSeeds
    } else {
        Start::Fuzz
    }
}

/// Picks one of `seeds` seeds, each as likely as the others.
pub fn pick_seed(seeds: usize) -> (index: usize)
    requires
        seeds > 0,
    ensures
        index < seeds,
{
    uniform_in(0, seeds as u64) as usize
}

/// Cuts a byte-level mutant to the length that the mutator reported.
pub fn trim_mutant(mutant: &mut Vec<u8>, out_len: usize)
    requires
        out_len <= BYTE_MODE_MAX,
    ensures
        final(mutant)@ == if out_len <= old(mutant)@.len() {
            old(mutant)@.take(out_len as int)
        } else {
            old(mutant)@
        },
        final(mutant)@.len() <= BYTE_MODE_MAX,
{
    mutant.truncate(out_len);
}

impl Batch {
    /// No more runs than a batch holds.
    pub open spec fn wf(&self) -> bool {
        self.execs <= BATCH
    }

    /// A batch in which nothing has run yet.
    pub fn new() -> (batch: Batch)
        ensures
            batch.execs == 0,
            batch.wf(),
    {
        Batch { execs: 0 }
    }

    /// Whether the mutator's next answer is run: it is, if there is one and
    /// the batch is not full. Otherwise the worker draws a new batch.
    pub fn admits(&self, produced: bool) -> (run: bool)
        ensures
            run == (produced && self.execs < BATCH),
    {
        produced && self.execs < BATCH
    }

    /// Counts one run, `elapsed_secs` whole seconds into the batch, and says
    /// what rate to report, if a report is due.
    pub fn record(&mut self, elapsed_secs: u64) -> (rate: Option<u64>)
        requires
            old(self).execs < BATCH,
        ensures
            final(self).execs == old(self).execs + 1,
            final(self).wf(),
            rate == report_for(final(self).execs, elapsed_secs),
    {
        self.execs = self.execs + 1;
        if self.execs % REPORT_EVERY == 0 && elapsed_secs > 0 {
            Some(self.execs as u64 / elapsed_secs)
        } else {
            None
        }
    }
}

} // verus!
