//! What the command line selects: the benchmarks to run and their shared settings.
use vstd::prelude::*;

use crate::benchmarks::Benchmark;
use crate::readmappers::floxer::CigarOutput;
use crate::readmappers::{Queries, Reference};

verus! {

/// The parsed command line.
pub struct CliArgs {
    pub config_file: String,
    /// The benchmarks to run; all of them if none are given.
    pub benchmarks: Option<Vec<Benchmark>>,
    pub benchmark_config: BenchmarkConfig,
}

/// Settings that every benchmark of one invocation shares.
#[derive(Debug)]
pub struct BenchmarkConfig {
    /// Only analyse the most recent run's artifacts instead of running the mappers again.
    pub only_analysis: bool,
    /// Appended to the folder name of every benchmark, if given.
    pub tag: Option<String>,
    pub reference: Reference,
    pub queries: Queries,
    pub cigar_output: CigarOutput,
}

pub(crate) fn clone_tag(tag: &Option<String>) -> (r: Option<String>)
    ensures
        r == *tag,
{
    match tag {
        Some(t) => Some(t.clone()),
        None => None,
    }
}

impl BenchmarkConfig {
    /// The same settings with another reference.
    pub fn with_reference(&self, reference: Reference) -> (r: Self)
        ensures
            r == (BenchmarkConfig { reference, ..*self }),
    {
        BenchmarkConfig {
            only_analysis: self.only_analysis,
            tag: clone_tag(&self.tag),
            reference,
            queries: self.queries,
            cigar_output: self.cigar_output,
        }
    }

    /// The same settings with other queries.
    pub fn with_queries(&self, queries: Queries) -> (r: Self)
        ensures
            r == (BenchmarkConfig { queries, ..*self }),
    {
        BenchmarkConfig {
            only_analysis: self.only_analysis,
            tag: clone_tag(&self.tag),
            reference: self.reference,
            queries,
            cigar_output: self.cigar_output,
        }
    }

    /// The same settings with the small subset of the same kind of queries.
    pub fn with_smaller_queries(&self) -> (r: Self)
        ensures
            r == (BenchmarkConfig { queries: self.queries.spec_smaller_equivalent(), ..*self }),
    {
        self.with_queries(self.queries.smaller_equivalent())
    }
}

} // verus!
