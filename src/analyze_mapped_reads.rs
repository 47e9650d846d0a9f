//! What the mapped-reads files of a run say, independent of the mapper that wrote them.
use vstd::prelude::*;

use crate::config::BenchmarkSuiteConfig;
use crate::folder_structure::BenchmarkFolder;
use crate::readmappers::{push_arg, push_owned_arg, texts, Invocation};
use crate::text::{join, join_path, Decimal};

verus! {

/// The value of an alignment record's edit-distance tag, in the integer type the
/// file happened to store it in.
#[derive(Debug, Clone, Copy, PartialEq, Eq, Structural)]
pub enum EditDistanceTag {
    I8(i8),
    U8(u8),
    I16(i16),
    U16(u16),
    I32(i32),
    U32(u32),
    /// Any other tag type; no edit distance can be read from it.
    Other,
    /// The record carries no edit-distance tag.
    Missing,
}

/// The flags and edit distance of one alignment record.
#[derive(Debug, Clone, Copy, PartialEq, Eq, Structural)]
pub struct AlignmentRecord {
    pub is_unmapped: bool,
    pub is_secondary: bool,
    pub is_supplementary: bool,
    pub edit_distance: EditDistanceTag,
}

/// Why a mapped-reads file could not be analysed.
#[derive(Debug, Clone, Copy, PartialEq, Eq, Structural)]
pub enum AnalysisError {
    /// The mapper under test never writes supplementary records; this one did.
    UnexpectedSupplementaryRecord,
    /// A primary record's edit-distance tag is missing or not an integer.
    BadEditDistanceTag,
}

#[derive(Debug)]
pub struct SimpleMappedReadsStats {
    /// How many queries have a primary alignment.
    pub num_mapped: i32,
    /// The edit distance of each primary alignment, in file order.
    pub primary_alignment_edit_distances: Vec<i32>,
}

/// The tag's value as `i32`; a `u32` beyond `i32::MAX` wraps as an `as` cast does.
pub open spec fn tag_value(tag: EditDistanceTag) -> Option<i32> {
    match tag {
        EditDistanceTag::I8(v) => Some(v as i32),
        EditDistanceTag::U8(v) => Some(v as i32),
        EditDistanceTag::I16(v) => Some(v as i32),
        EditDistanceTag::U16(v) => Some(v as i32),
        EditDistanceTag::I32(v) => Some(v),
        EditDistanceTag::U32(v) => Some(v as i32),
        _ => None,
    }
}

/// The edit distances of the primary alignments among `records`, or the first
/// problem met when reading them in order.
pub open spec fn primary_edit_distances(records: Seq<AlignmentRecord>) -> Result<Seq<i32>, AnalysisError>
    decreases records.len(),
{
    if records.len() == 0 {
        Ok(Seq::empty())
    } else {
        match primary_edit_distances(records.drop_last()) {
            Err(e) => Err(e),
            Ok(distances) => {
                let r = records.last();
                if r.is_supplementary {
                    Err(AnalysisError::UnexpectedSupplementaryRecord)
                } else if r.is_unmapped || r.is_secondary {
                    Ok(distances)
                } else {
                    match tag_value(r.edit_distance) {
                        Some(d) => Ok(distances.push(d)),
                        None => Err(AnalysisError::BadEditDistanceTag),
                    }
                }
            },
        }
    }
}

fn normalize_edit_distance(tag: EditDistanceTag) -> (r: Option<i32>)
    ensures
        r == tag_value(tag),
{
    match tag {
        EditDistanceTag::I8(v) => Some(v as i32),
        EditDistanceTag::U8(v) => Some(v as i32),
        EditDistanceTag::I16(v) => Some(v as i32),
        EditDistanceTag::U16(v) => Some(v as i32),
        EditDistanceTag::I32(v) => Some(v),
        EditDistanceTag::U32(v) => Some(#[verifier::truncate] (v as i32)),
        _ => None,
    }
}

/// Counts the mapped queries and collects the edit distances of primary
/// alignments: unmapped and secondary records are passed over, and a
/// supplementary record fails the analysis.
pub fn analyze_alignment_records(records: &Vec<AlignmentRecord>) -> (r: Result<SimpleMappedReadsStats, AnalysisError>)
    ensures
        match primary_edit_distances(records@) {
            Ok(distances) => r matches Ok(stats) && stats.primary_alignment_edit_distances@ == distances
                && stats.num_mapped == distances.len() as i32,
            Err(e) => r == Err::<SimpleMappedReadsStats, AnalysisError>(e),
        },
{
    let mut distances: Vec<i32> = Vec::new();
    let mut i: usize = 0;
    while i < records.len()
        invariant
            i <= records@.len(),
            primary_edit_distances(records@.take(i as int)) == Ok::<Seq<i32>, AnalysisError>(distances@),
        decreases records@.len() - i,
    {
        let record = records[i];
        assert(records@.take(i + 1).drop_last() =~= records@.take(i as int));
        if record.is_supplementary {
            proof {
                lemma_error_persists(records@, i as int + 1);
            }
            return Err(AnalysisError::UnexpectedSupplementaryRecord);
        }
        if !record.is_unmapped && !record.is_secondary {
            match normalize_edit_distance(record.edit_distance) {
                Some(d) => distances.push(d),
                None => {
                    proof {
                        lemma_error_persists(records@, i as int + 1);
                    }
                    return Err(AnalysisError::BadEditDistanceTag);
                },
            }
        }
        i = i + 1;
    }
    assert(records@.take(i as int) =~= records@);
    let num_mapped = #[verifier::truncate] (distances.len() as i32);
    Ok(SimpleMappedReadsStats { num_mapped, primary_alignment_edit_distances: distances })
}

/// Once reading the records has failed, reading more of them fails the same way.
proof fn lemma_error_persists(records: Seq<AlignmentRecord>, k: int)
    requires
        0 <= k <= records.len(),
        primary_edit_distances(records.take(k)) is Err,
    ensures
        primary_edit_distances(records) == primary_edit_distances(records.take(k)),
    decreases records.len() - k,
{
    if k < records.len() {
        assert(records.take(k + 1).drop_last() =~= records.take(k));
        lemma_error_persists(records, k + 1);
    } else {
        assert(records.take(k) =~= records);
    }
}

/// Counts over all queries of how the two mappers fared.
#[derive(Debug, Clone, Copy, PartialEq, Eq, Structural)]
pub struct FullStats {
    pub number_of_queries: u64,
    pub both_mapped: u64,
    pub both_unmapped: u64,
    pub floxer_mapped: u64,
    pub floxer_unmapped: u64,
    pub minimap_mapped: u64,
    pub minimap_unmapped: u64,
    pub floxer_unmapped_and_minimap_mapped: u64,
    pub minimap_unmapped_and_floxer_mapped: u64,
}

/// How the primary alignments of one group of queries are shaped.
#[derive(Debug, Clone, Copy, PartialEq, Eq, Structural)]
pub struct ScopedStats {
    pub num_queries: u64,
    pub primary_chimeric: u64,
    pub primary_linear_basic: u64,
    pub primary_linear_clipped: u64,
    pub primary_high_edit_distance: u64,
    pub primary_inversion: u64,
    pub multiple_mapping: u64,
    pub primary_not_basic_secondary_basic: u64,
    pub average_longest_indel: Decimal,
    pub average_error_rate_of_primary_basic_alignments: Decimal,
}

/// The head-to-head comparison of floxer's and minimap's outputs.
#[derive(Debug, Clone, Copy, PartialEq, Eq, Structural)]
pub struct DetailedMappedReadsComparison {
    pub general_stats: FullStats,
    pub floxer_stats_if_floxer_mapped: ScopedStats,
    pub minimap_stats_if_minimap_mapped: ScopedStats,
    pub minimap_stats_if_both_mapped: ScopedStats,
    pub minimap_stats_if_only_minimap_mapped: ScopedStats,
}

/// The arguments of the comparison tool for two mapped-reads files.
pub open spec fn comparison_args(floxer_path: Seq<char>, minimap_path: Seq<char>, error_rate: Decimal) -> Seq<Seq<char>> {
    seq![
        "--new"@,
        floxer_path,
        "--reference"@,
        minimap_path,
        "--error-rate"@,
        crate::text::decimal_text(error_rate),
    ]
}

/// The command that compares floxer's output with minimap's.
pub fn comparison_command(
    mapped_reads_path_floxer: &str,
    mapped_reads_path_minimap: &str,
    floxer_query_error_rate: Decimal,
    suite_config: &BenchmarkSuiteConfig,
) -> (r: Invocation)
    ensures
        r.program@ == suite_config.compare_aligner_outputs_binary@,
        r.spec_args() == comparison_args(
            mapped_reads_path_floxer@,
            mapped_reads_path_minimap@,
            floxer_query_error_rate,
        ),
{
    let mut args: Vec<String> = Vec::new();
    push_arg(&mut args, "--new");
    push_arg(&mut args, mapped_reads_path_floxer);
    push_arg(&mut args, "--reference");
    push_arg(&mut args, mapped_reads_path_minimap);
    push_arg(&mut args, "--error-rate");
    push_owned_arg(&mut args, floxer_query_error_rate.to_text());
    assert(texts(args@) =~= comparison_args(
        mapped_reads_path_floxer@,
        mapped_reads_path_minimap@,
        floxer_query_error_rate,
    ));
    Invocation { program: suite_config.compare_aligner_outputs_binary.clone(), args }
}

/// Where the comparison tool's raw output is kept: in the benchmark's run folder.
pub fn comparison_result_path(benchmark_folder: &BenchmarkFolder) -> (r: String)
    ensures
        r@ == join_path(benchmark_folder.folder@, "detailed_aligner_comparison.toml"@),
{
    join(benchmark_folder.get().as_str(), "detailed_aligner_comparison.toml")
}

/// How well a query of a simulated dataset was mapped.
#[derive(Debug, Clone, Copy, PartialEq, Eq, Structural)]
pub enum MappingStatus {
    NotFound,
    FoundOptimal,
    FoundSuboptimal { pos_diff_expected_num_errors: u64, pos_diff_higher_num_errors: u64 },
}

#[derive(Debug)]
pub struct VerifiedSimulatedQuery {
    pub id: String,
    pub status: MappingStatus,
}

/// The verdict of the simulated-dataset tool on every query.
#[derive(Debug)]
pub struct VerifiedSimulatedDataset {
    pub queries: Vec<VerifiedSimulatedQuery>,
}

/// The optimally mapped count, and the queries that were not mapped optimally.
#[derive(Debug)]
pub struct SimulatedDatasetVerificationSummary {
    pub num_optimal_mapped: u64,
    pub suboptimal_mapped_queries: Vec<VerifiedSimulatedQuery>,
    pub unmapped_queries: Vec<VerifiedSimulatedQuery>,
}

pub open spec fn query_views(v: Seq<VerifiedSimulatedQuery>) -> Seq<(Seq<char>, MappingStatus)> {
    v.map_values(|q: VerifiedSimulatedQuery| (q.id@, q.status))
}

pub open spec fn with_status(v: Seq<(Seq<char>, MappingStatus)>, wanted: spec_fn(MappingStatus) -> bool) -> Seq<(Seq<char>, MappingStatus)> {
    v.filter(|q: (Seq<char>, MappingStatus)| wanted(q.1))
}

/// The command that verifies mapped reads against the simulated dataset's truth.
pub fn verification_command(mapped_reads_path: &str, suite_config: &BenchmarkSuiteConfig) -> (r: Invocation)
    ensures
        r.program@ == suite_config.simulated_dataset_binary@,
        r.spec_args() == seq!["verify"@, "--alignments"@, mapped_reads_path@],
{
    let mut args: Vec<String> = Vec::new();
    push_arg(&mut args, "verify");
    push_arg(&mut args, "--alignments");
    push_arg(&mut args, mapped_reads_path);
    assert(texts(args@) =~= seq!["verify"@, "--alignments"@, mapped_reads_path@]);
    Invocation { program: suite_config.simulated_dataset_binary.clone(), args }
}

/// Sorts the verified queries: optimal ones are counted, unmapped and suboptimal
/// ones are kept in their order.
pub fn verify_simulated_dataset(data: VerifiedSimulatedDataset) -> (r: SimulatedDatasetVerificationSummary)
    requires
        data.queries@.len() <= u64::MAX,
    ensures
        r.num_optimal_mapped == with_status(query_views(data.queries@), |s: MappingStatus| s is FoundOptimal).len(),
        query_views(r.unmapped_queries@) == with_status(query_views(data.queries@), |s: MappingStatus| s is NotFound),
        query_views(r.suboptimal_mapped_queries@) == with_status(query_views(data.queries@), |s: MappingStatus| s is FoundSuboptimal),
{
    let ghost all = query_views(data.queries@);
    let ghost optimal = |s: MappingStatus| s is FoundOptimal;
    let ghost not_found = |s: MappingStatus| s is NotFound;
    let ghost suboptimal = |s: MappingStatus| s is FoundSuboptimal;
    let mut summary = SimulatedDatasetVerificationSummary {
        num_optimal_mapped: 0,
        suboptimal_mapped_queries: Vec::new(),
        unmapped_queries: Vec::new(),
    };
    let queries = data.queries;
    let mut i: usize = 0;
    while i < queries.len()
        invariant
            i <= queries@.len(),
            queries@.len() <= u64::MAX,
            all == query_views(queries@),
            optimal == (|s: MappingStatus| s is FoundOptimal),
            not_found == (|s: MappingStatus| s is NotFound),
            suboptimal == (|s: MappingStatus| s is FoundSuboptimal),
            summary.num_optimal_mapped == with_status(all.take(i as int), optimal).len(),
            query_views(summary.unmapped_queries@) == with_status(all.take(i as int), not_found),
            query_views(summary.suboptimal_mapped_queries@) == with_status(all.take(i as int), suboptimal),
        decreases queries@.len() - i,
    {
        let q = &queries[i];
        let copy = VerifiedSimulatedQuery { id: q.id.clone(), status: q.status };
        proof {
            assert(all.take(i + 1) =~= all.take(i as int).push(all[i as int]));
            assert(all[i as int] == (q.id@, q.status));
            lemma_filter_push(all.take(i as int), all[i as int], optimal);
            lemma_filter_push(all.take(i as int), all[i as int], not_found);
            lemma_filter_push(all.take(i as int), all[i as int], suboptimal);
            lemma_filter_len(all.take(i as int), optimal);
        }
        match q.status {
            MappingStatus::NotFound => {
                let ghost before = summary.unmapped_queries@;
                summary.unmapped_queries.push(copy);
                assert(query_views(summary.unmapped_queries@) =~= query_views(before).push(all[i as int]));
            },
            MappingStatus::FoundOptimal => {
                summary.num_optimal_mapped = summary.num_optimal_mapped + 1;
            },
            MappingStatus::FoundSuboptimal { .. } => {
                let ghost before = summary.suboptimal_mapped_queries@;
                summary.suboptimal_mapped_queries.push(copy);
                assert(query_views(summary.suboptimal_mapped_queries@) =~= query_views(before).push(all[i as int]));
            },
        }
        i = i + 1;
    }
    assert(all.take(i as int) =~= all);
    summary
}

proof fn lemma_filter_push(
    s: Seq<(Seq<char>, MappingStatus)>,
    x: (Seq<char>, MappingStatus),
    wanted: spec_fn(MappingStatus) -> bool,
)
    ensures
        with_status(s.push(x), wanted) == if wanted(x.1) {
            with_status(s, wanted).push(x)
        } else {
            with_status(s, wanted)
        },
{
    assert(s.push(x).drop_last() =~= s);
    reveal(Seq::filter);
}

proof fn lemma_filter_len(s: Seq<(Seq<char>, MappingStatus)>, wanted: spec_fn(MappingStatus) -> bool)
    ensures
        with_status(s, wanted).len() <= s.len(),
    decreases s.len(),
{
    reveal(Seq::filter);
    if s.len() > 0 {
        lemma_filter_len(s.drop_last(), wanted);
    }
}

impl SimulatedDatasetVerificationSummary {
    /// The queries that were not mapped optimally: the unmapped ones, then the
    /// suboptimally mapped ones.
    pub fn missed_queries(&self) -> (r: Vec<&VerifiedSimulatedQuery>)
        ensures
            r@.len() == self.unmapped_queries@.len() + self.suboptimal_mapped_queries@.len(),
            forall|i: int| 0 <= i < self.unmapped_queries@.len() ==> r@[i] == &self.unmapped_queries@[i],
            forall|i: int|
                0 <= i < self.suboptimal_mapped_queries@.len() ==> r@[self.unmapped_queries@.len() + i]
                    == &self.suboptimal_mapped_queries@[i],
    {
        let mut r: Vec<&VerifiedSimulatedQuery> = Vec::new();
        let mut i: usize = 0;
        while i < self.unmapped_queries.len()
            invariant
                i <= self.unmapped_queries@.len(),
                r@.len() == i,
                forall|j: int| 0 <= j < i ==> r@[j] == &self.unmapped_queries@[j],
            decreases self.unmapped_queries@.len() - i,
        {
            r.push(&self.unmapped_queries[i]);
            i = i + 1;
        }
        let mut k: usize = 0;
        while k < self.suboptimal_mapped_queries.len()
            invariant
                k <= self.suboptimal_mapped_queries@.len(),
                r@.len() == self.unmapped_queries@.len() + k,
                forall|j: int| 0 <= j < self.unmapped_queries@.len() ==> r@[j] == &self.unmapped_queries@[j],
                forall|j: int|
                    0 <= j < k ==> r@[self.unmapped_queries@.len() + j] == &self.suboptimal_mapped_queries@[j],
            decreases self.suboptimal_mapped_queries@.len() - k,
        {
            r.push(&self.suboptimal_mapped_queries[k]);
            k = k + 1;
        }
        r
    }
}

} // verus!
