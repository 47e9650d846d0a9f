//! Settings of the whole suite that stay fixed across benchmark runs.
use vstd::prelude::*;

use crate::text::{join, join_path};

verus! {

/// Paths that the suite reads from its configuration file.
pub struct BenchmarkSuiteConfig {
    pub output_folder: String,
    pub compare_aligner_outputs_binary: String,
    pub simulated_dataset_binary: String,
    pub readmapper_binaries: ReadmapperBinaries,
    pub reference_paths: ReferencePaths,
    pub query_paths: QueryPaths,
}

pub struct ReadmapperBinaries {
    pub floxer: String,
    pub minimap: String,
}

pub struct ReferencePaths {
    pub human_genome_hg38: String,
    pub masked_human_genome_hg38: String,
    pub debug: String,
    pub simulated: String,
}

pub struct QueryPaths {
    pub human_wgs_nanopore: String,
    pub human_wgs_nanopore_small: String,
    pub debug: String,
    pub problem_query: String,
    pub simulated: String,
    pub simulated_small: String,
}

impl BenchmarkSuiteConfig {
    pub open spec fn spec_all_plots_folder(&self) -> Seq<char> {
        join_path(self.output_folder@, "all_plots"@)
    }

    pub open spec fn spec_index_folder(&self) -> Seq<char> {
        join_path(self.output_folder@, "indices"@)
    }

    /// `<output folder>/all_plots`, where plots across benchmarks are gathered.
    pub fn all_plots_folder(&self) -> (r: String)
        ensures
            r@ == self.spec_all_plots_folder(),
    {
        join(self.output_folder.as_str(), "all_plots")
    }

    /// `<output folder>/indices`, where the read mappers keep their indices.
    pub fn index_folder(&self) -> (r: String)
        ensures
            r@ == self.spec_index_folder(),
    {
        join(self.output_folder.as_str(), "indices")
    }
}

} // verus!
