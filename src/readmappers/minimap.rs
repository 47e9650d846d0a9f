//! Minimap, the reference mapper: its index and mapping command lines.
use vstd::prelude::*;

use crate::cli::BenchmarkConfig;
use crate::config::BenchmarkSuiteConfig;
use crate::folder_structure::{BenchmarkFolder, BenchmarkInstanceFolder};
use crate::readmappers::floxer::{spec_plan, RunPlan};
use crate::readmappers::{
    add_time_args, push_arg, push_owned_arg, texts, time_args, IndexStrategy, Invocation, Queries,
    Reference, ResourceMetrics, NUM_THREADS_FOR_READMAPPERS,
};
use crate::text::{digits, join, join_path, u64_text};

verus! {

/// One minimap run of a benchmark.
#[derive(Debug, Clone, Copy, PartialEq, Eq, Structural)]
pub struct MinimapConfig {
    pub reference: Reference,
    pub queries: Queries,
    pub index_strategy: IndexStrategy,
    pub num_threads: u16,
    pub only_analysis: bool,
}

/// The index file minimap keeps for a reference and a kind of queries.
pub open spec fn minimap_index_path(suite: BenchmarkSuiteConfig, reference: Reference, queries: Queries) -> Seq<char> {
    join_path(
        suite.spec_index_folder(),
        "minimap-index-"@ + reference.spec_name() + "-"@ + queries.spec_name() + ".mmi"@,
    )
}

/// The time wrapper's arguments, then minimap building its index.
pub open spec fn minimap_index_args(
    config: MinimapConfig,
    folder: BenchmarkInstanceFolder,
    suite: BenchmarkSuiteConfig,
) -> Seq<Seq<char>> {
    time_args(folder.index_timing_path@) + seq![
        suite.readmapper_binaries.minimap@,
        "-x"@,
        "map-ont"@,
        "-d"@,
        minimap_index_path(suite, config.reference, config.queries),
        config.reference.spec_path(&suite),
        "-t"@,
        digits(config.num_threads as nat),
    ]
}

/// The time wrapper's arguments, then minimap mapping the queries.
pub open spec fn minimap_map_args(
    config: MinimapConfig,
    folder: BenchmarkInstanceFolder,
    suite: BenchmarkSuiteConfig,
) -> Seq<Seq<char>> {
    time_args(folder.timing_path@) + seq![
        suite.readmapper_binaries.minimap@,
        "-a"@,
        minimap_index_path(suite, config.reference, config.queries),
        config.queries.spec_path(&suite),
        "-t"@,
        digits(config.num_threads as nat),
        "-o"@,
        folder.mapped_reads_sam_path@,
    ]
}

impl MinimapConfig {
    /// Minimap on the benchmark's inputs, reading its index from disk where stored.
    pub fn from_benchmark_config(value: &BenchmarkConfig) -> (r: Self)
        ensures
            r == (MinimapConfig {
                reference: value.reference,
                queries: value.queries,
                index_strategy: IndexStrategy::ReadFromDiskIfStored,
                num_threads: 32,
                only_analysis: value.only_analysis,
            }),
    {
        MinimapConfig {
            reference: value.reference,
            queries: value.queries,
            index_strategy: IndexStrategy::ReadFromDiskIfStored,
            num_threads: NUM_THREADS_FOR_READMAPPERS,
            only_analysis: value.only_analysis,
        }
    }

    /// Minimap's instance is always named `minimap`.
    pub fn instance_name() -> (r: &'static str)
        ensures
            r@ == "minimap"@,
    {
        "minimap"
    }

    /// Reuse the most recent run only when asked for analysis only and it holds
    /// minimap's artifacts.
    pub fn plan_run(&self, previous_artifacts_exist: bool) -> (r: RunPlan)
        ensures
            r == spec_plan(self.only_analysis, previous_artifacts_exist),
    {
        if self.only_analysis && previous_artifacts_exist {
            RunPlan::ReuseMostRecent
        } else {
            RunPlan::Execute
        }
    }

    pub fn instance_folder(&self, benchmark_folder: &BenchmarkFolder, plan: RunPlan) -> (r: BenchmarkInstanceFolder)
        ensures
            plan == RunPlan::Execute ==> r.lies_in(join_path(benchmark_folder.folder@, "minimap"@), "minimap"@),
            plan == RunPlan::ReuseMostRecent ==> r.lies_in(
                join_path(benchmark_folder.spec_most_recent(), "minimap"@),
                "minimap"@,
            ),
    {
        match plan {
            RunPlan::Execute => BenchmarkInstanceFolder::new(benchmark_folder, Self::instance_name()),
            RunPlan::ReuseMostRecent => BenchmarkInstanceFolder::most_recent_previous_run(
                benchmark_folder,
                Self::instance_name(),
            ),
        }
    }

    /// `<index folder>/minimap-index-<reference>-<queries>.mmi`.
    pub fn index_path(&self, suite_config: &BenchmarkSuiteConfig) -> (r: String)
        ensures
            r@ == minimap_index_path(*suite_config, self.reference, self.queries),
    {
        let index_folder = suite_config.index_folder();
        let mut name = String::from_str("minimap-index-");
        name.append(self.reference.name());
        name.append("-");
        name.append(self.queries.name());
        name.append(".mmi");
        join(index_folder.as_str(), name.as_str())
    }

    /// The index is built when the strategy says to rebuild it, or when none is stored.
    pub fn should_build_index(&self, index_exists: bool) -> (r: bool)
        ensures
            r == (self.index_strategy == IndexStrategy::AlwaysRebuild || !index_exists),
    {
        self.index_strategy == IndexStrategy::AlwaysRebuild || !index_exists
    }

    /// The timed command that builds minimap's index.
    pub fn index_command(&self, instance_folder: &BenchmarkInstanceFolder, suite_config: &BenchmarkSuiteConfig) -> (r: Invocation)
        ensures
            r.program@ == "/usr/bin/time"@,
            r.spec_args() == minimap_index_args(*self, *instance_folder, *suite_config),
    {
        let mut args: Vec<String> = Vec::new();
        add_time_args(&mut args, instance_folder.index_timing_path.as_str());
        push_arg(&mut args, suite_config.readmapper_binaries.minimap.as_str());
        push_arg(&mut args, "-x");
        push_arg(&mut args, self.queries.minimap_preset());
        push_arg(&mut args, "-d");
        push_owned_arg(&mut args, self.index_path(suite_config));
        push_arg(&mut args, self.reference.path(suite_config).as_str());
        push_arg(&mut args, "-t");
        push_owned_arg(&mut args, u64_text(self.num_threads as u64));
        assert(texts(args@) =~= minimap_index_args(*self, *instance_folder, *suite_config));
        Invocation { program: String::from_str("/usr/bin/time"), args }
    }

    /// The timed command that maps the queries with minimap.
    pub fn map_command(&self, instance_folder: &BenchmarkInstanceFolder, suite_config: &BenchmarkSuiteConfig) -> (r: Invocation)
        ensures
            r.program@ == "/usr/bin/time"@,
            r.spec_args() == minimap_map_args(*self, *instance_folder, *suite_config),
    {
        let mut args: Vec<String> = Vec::new();
        add_time_args(&mut args, instance_folder.timing_path.as_str());
        push_arg(&mut args, suite_config.readmapper_binaries.minimap.as_str());
        push_arg(&mut args, "-a");
        push_owned_arg(&mut args, self.index_path(suite_config));
        push_arg(&mut args, self.queries.path(suite_config).as_str());
        push_arg(&mut args, "-t");
        push_owned_arg(&mut args, u64_text(self.num_threads as u64));
        push_arg(&mut args, "-o");
        push_arg(&mut args, instance_folder.mapped_reads_sam_path.as_str());
        assert(texts(args@) =~= minimap_map_args(*self, *instance_folder, *suite_config));
        Invocation { program: String::from_str("/usr/bin/time"), args }
    }
}

/// Resources that minimap used for mapping, and for indexing if it built an index.
#[derive(Debug, Clone, Copy, PartialEq, Eq, Structural)]
pub struct MinimapRunResult {
    pub map_resource_metrics: ResourceMetrics,
    pub index_resource_metrics: Option<ResourceMetrics>,
}

} // verus!
