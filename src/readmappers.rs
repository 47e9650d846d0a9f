//! The datasets the read mappers run on, and what both read mappers share.
use vstd::prelude::*;

use crate::config::BenchmarkSuiteConfig;
use crate::text::{parse_decimal_spec, Decimal};

pub mod floxer;
pub mod floxer_stats;
pub mod minimap;

verus! {

/// Threads handed to a read mapper unless a benchmark says otherwise.
pub const NUM_THREADS_FOR_READMAPPERS: u16 = 32;

/// A reference genome that the suite knows the path of.
#[derive(Debug, Clone, Copy, PartialEq, Eq, Structural)]
pub enum Reference {
    HumanGenomeHg38,
    MaskedHumanGenomeHg38,
    Debug,
    Simulated,
}

/// A set of queries (reads) that the suite knows the path of.
#[derive(Debug, Clone, Copy, PartialEq, Eq, Structural)]
pub enum Queries {
    HumanWgsNanopore,
    HumanWgsNanoporeSmall,
    Debug,
    ProblemQuery,
    Simulated,
    SimulatedSmall,
}

#[derive(Debug, Clone, Copy, PartialEq, Eq, Structural)]
pub enum IndexStrategy {
    AlwaysRebuild,
    ReadFromDiskIfStored,
}

/// A hint to floxer about where the queries come from, for its statistics.
#[derive(Debug, Clone, Copy, PartialEq, Eq, Structural)]
pub enum StatsInputHint {
    RealNanopore,
    Simulated,
}

impl Default for Reference {
    fn default() -> (r: Reference)
        ensures
            r == Reference::HumanGenomeHg38,
    {
        Reference::HumanGenomeHg38
    }
}

impl Default for Queries {
    fn default() -> (r: Queries)
        ensures
            r == Queries::HumanWgsNanopore,
    {
        Queries::HumanWgsNanopore
    }
}

impl Reference {
    pub open spec fn spec_name(self) -> Seq<char> {
        match self {
            Reference::HumanGenomeHg38 => "human_genome_hg38"@,
            Reference::MaskedHumanGenomeHg38 => "masked_human_genome_hg38"@,
            Reference::Debug => "debug"@,
            Reference::Simulated => "simulated"@,
        }
    }

    /// The snake-case name used in file and folder names.
    pub fn name(&self) -> (r: &'static str)
        ensures
            r@ == self.spec_name(),
    {
        match self {
            Reference::HumanGenomeHg38 => "human_genome_hg38",
            Reference::MaskedHumanGenomeHg38 => "masked_human_genome_hg38",
            Reference::Debug => "debug",
            Reference::Simulated => "simulated",
        }
    }

    pub open spec fn spec_path(self, suite_config: &BenchmarkSuiteConfig) -> Seq<char> {
        match self {
            Reference::HumanGenomeHg38 => suite_config.reference_paths.human_genome_hg38@,
            Reference::MaskedHumanGenomeHg38 => suite_config.reference_paths.masked_human_genome_hg38@,
            Reference::Debug => suite_config.reference_paths.debug@,
            Reference::Simulated => suite_config.reference_paths.simulated@,
        }
    }

    /// Where the suite's configuration says this reference lies.
    pub fn path<'a>(&self, suite_config: &'a BenchmarkSuiteConfig) -> (r: &'a String)
        ensures
            r@ == self.spec_path(suite_config),
    {
        match self {
            Reference::HumanGenomeHg38 => &suite_config.reference_paths.human_genome_hg38,
            Reference::MaskedHumanGenomeHg38 => &suite_config.reference_paths.masked_human_genome_hg38,
            Reference::Debug => &suite_config.reference_paths.debug,
            Reference::Simulated => &suite_config.reference_paths.simulated,
        }
    }
}

impl Queries {
    pub open spec fn spec_name(self) -> Seq<char> {
        match self {
            Queries::HumanWgsNanopore => "human_wgs_nanopore"@,
            Queries::HumanWgsNanoporeSmall => "human_wgs_nanopore_small"@,
            Queries::Debug => "debug"@,
            Queries::ProblemQuery => "problem_query"@,
            Queries::Simulated => "simulated"@,
            Queries::SimulatedSmall => "simulated_small"@,
        }
    }

    /// The snake-case name used in file and folder names.
    pub fn name(&self) -> (r: &'static str)
        ensures
            r@ == self.spec_name(),
    {
        match self {
            Queries::HumanWgsNanopore => "human_wgs_nanopore",
            Queries::HumanWgsNanoporeSmall => "human_wgs_nanopore_small",
            Queries::Debug => "debug",
            Queries::ProblemQuery => "problem_query",
            Queries::Simulated => "simulated",
            Queries::SimulatedSmall => "simulated_small",
        }
    }

    pub open spec fn spec_path(self, suite_config: &BenchmarkSuiteConfig) -> Seq<char> {
        match self {
            Queries::HumanWgsNanopore => suite_config.query_paths.human_wgs_nanopore@,
            Queries::HumanWgsNanoporeSmall => suite_config.query_paths.human_wgs_nanopore_small@,
            Queries::Debug => suite_config.query_paths.debug@,
            Queries::ProblemQuery => suite_config.query_paths.problem_query@,
            Queries::Simulated => suite_config.query_paths.simulated@,
            Queries::SimulatedSmall => suite_config.query_paths.simulated_small@,
        }
    }

    /// Where the suite's configuration says these queries lie.
    pub fn path<'a>(&self, suite_config: &'a BenchmarkSuiteConfig) -> (r: &'a String)
        ensures
            r@ == self.spec_path(suite_config),
    {
        match self {
            Queries::HumanWgsNanopore => &suite_config.query_paths.human_wgs_nanopore,
            Queries::HumanWgsNanoporeSmall => &suite_config.query_paths.human_wgs_nanopore_small,
            Queries::Debug => &suite_config.query_paths.debug,
            Queries::ProblemQuery => &suite_config.query_paths.problem_query,
            Queries::Simulated => &suite_config.query_paths.simulated,
            Queries::SimulatedSmall => &suite_config.query_paths.simulated_small,
        }
    }

    /// The minimap preset for this kind of reads: all of them are nanopore-like.
    pub fn minimap_preset(&self) -> (r: &'static str)
        ensures
            r@ == "map-ont"@,
    {
        "map-ont"
    }

    pub open spec fn spec_smaller_equivalent(self) -> Queries {
        match self {
            Queries::HumanWgsNanopore | Queries::HumanWgsNanoporeSmall => Queries::HumanWgsNanoporeSmall,
            Queries::Debug | Queries::ProblemQuery => self,
            Queries::Simulated | Queries::SimulatedSmall => Queries::SimulatedSmall,
        }
    }

    /// The small subset of the same kind of reads.
    pub fn smaller_equivalent(&self) -> (r: Self)
        ensures
            r == self.spec_smaller_equivalent(),
    {
        match self {
            Queries::HumanWgsNanopore | Queries::HumanWgsNanoporeSmall => Queries::HumanWgsNanoporeSmall,
            Queries::Debug | Queries::ProblemQuery => *self,
            Queries::Simulated | Queries::SimulatedSmall => Queries::SimulatedSmall,
        }
    }

    pub open spec fn spec_floxer_stats_input_hint(self) -> Option<StatsInputHint> {
        match self {
            Queries::HumanWgsNanopore | Queries::HumanWgsNanoporeSmall => Some(StatsInputHint::RealNanopore),
            Queries::Debug | Queries::ProblemQuery => None,
            Queries::Simulated | Queries::SimulatedSmall => Some(StatsInputHint::Simulated),
        }
    }

    /// Real nanopore reads and simulated reads get a hint; debug sets get none.
    pub fn floxer_stats_input_hint(&self) -> (r: Option<StatsInputHint>)
        ensures
            r == self.spec_floxer_stats_input_hint(),
    {
        match self {
            Queries::HumanWgsNanopore | Queries::HumanWgsNanoporeSmall => Some(StatsInputHint::RealNanopore),
            Queries::Debug | Queries::ProblemQuery => None,
            Queries::Simulated | Queries::SimulatedSmall => Some(StatsInputHint::Simulated),
        }
    }
}

impl StatsInputHint {
    pub open spec fn spec_name(self) -> Seq<char> {
        match self {
            StatsInputHint::RealNanopore => "real_nanopore"@,
            StatsInputHint::Simulated => "simulated"@,
        }
    }

    pub fn name(&self) -> (r: &'static str)
        ensures
            r@ == self.spec_name(),
    {
        match self {
            StatsInputHint::RealNanopore => "real_nanopore",
            StatsInputHint::Simulated => "simulated",
        }
    }
}

/// Resources that one process used, as the time wrapper reports them.
#[derive(Debug, Clone, Copy, PartialEq, Eq, Structural)]
pub struct ResourceMetrics {
    pub wall_clock_seconds: Decimal,
    pub user_cpu_seconds: Decimal,
    pub system_cpu_seconds: Decimal,
    pub peak_memory_kilobytes: u64,
    pub average_memory_kilobytes: Option<u64>,
}

/// The texts of a list of strings.
pub open spec fn texts(v: Seq<String>) -> Seq<Seq<char>> {
    v.map_values(|s: String| s@)
}

/// A program and its arguments, built but not yet run.
pub struct Invocation {
    pub program: String,
    pub args: Vec<String>,
}

impl Invocation {
    pub open spec fn spec_args(&self) -> Seq<Seq<char>> {
        texts(self.args@)
    }
}

pub(crate) fn push_arg(args: &mut Vec<String>, arg: &str)
    ensures
        texts(final(args)@) == texts(old(args)@).push(arg@),
{
    args.push(String::from_str(arg));
    assert(texts(final(args)@) =~= texts(old(args)@).push(arg@));
}

pub(crate) fn push_owned_arg(args: &mut Vec<String>, arg: String)
    ensures
        texts(final(args)@) == texts(old(args)@).push(arg@),
{
    let ghost text = arg@;
    args.push(arg);
    assert(texts(final(args)@) =~= texts(old(args)@).push(text));
}

/// What the time wrapper is told to write: one `key = value` line per measurement.
pub open spec fn time_format_text() -> Seq<char> {
    "wall_clock_seconds = %e\nuser_cpu_seconds = %U\nsystem_cpu_seconds = %S\npeak_memory_kilobytes = %M"@
}

/// The time wrapper's own arguments: where to write, and in which format.
pub open spec fn time_args(timing_path: Seq<char>) -> Seq<Seq<char>> {
    seq!["--output"@, timing_path, "--format"@, time_format_text()]
}

pub(crate) fn add_time_args(args: &mut Vec<String>, timing_path: &str)
    ensures
        texts(final(args)@) == texts(old(args)@) + time_args(timing_path@),
{
    push_arg(args, "--output");
    push_arg(args, timing_path);
    push_arg(args, "--format");
    push_arg(args, "wall_clock_seconds = %e\nuser_cpu_seconds = %U\nsystem_cpu_seconds = %S\npeak_memory_kilobytes = %M");
    assert(texts(final(args)@) =~= texts(old(args)@) + time_args(timing_path@));
}

impl ResourceMetrics {
    /// The metrics from the time wrapper's values, the seconds written as decimals;
    /// `None` if a number of seconds is not a plain decimal.
    pub fn from_texts(
        wall_clock_seconds: &str,
        user_cpu_seconds: &str,
        system_cpu_seconds: &str,
        peak_memory_kilobytes: u64,
        average_memory_kilobytes: Option<u64>,
    ) -> (r: Option<ResourceMetrics>)
        ensures
            r is Some <==> (parse_decimal_spec(wall_clock_seconds@) is Some && parse_decimal_spec(
                user_cpu_seconds@,
            ) is Some && parse_decimal_spec(system_cpu_seconds@) is Some),
            r matches Some(m) ==> {
                &&& Some(m.wall_clock_seconds) == parse_decimal_spec(wall_clock_seconds@)
                &&& Some(m.user_cpu_seconds) == parse_decimal_spec(user_cpu_seconds@)
                &&& Some(m.system_cpu_seconds) == parse_decimal_spec(system_cpu_seconds@)
                &&& m.peak_memory_kilobytes == peak_memory_kilobytes
                &&& m.average_memory_kilobytes == average_memory_kilobytes
            },
    {
        let wall = Decimal::parse(wall_clock_seconds);
        let user = Decimal::parse(user_cpu_seconds);
        let system = Decimal::parse(system_cpu_seconds);
        match (wall, user, system) {
            (Some(wall_clock_seconds), Some(user_cpu_seconds), Some(system_cpu_seconds)) => Some(
                ResourceMetrics {
                    wall_clock_seconds,
                    user_cpu_seconds,
                    system_cpu_seconds,
                    peak_memory_kilobytes,
                    average_memory_kilobytes,
                },
            ),
            _ => None,
        }
    }
}

} // verus!
