//! The statistics floxer reports about one run.
use vstd::prelude::*;

use crate::text::{digits, normal_form, shift_right, u64_text, Decimal};

verus! {

/// Summary values of the numbers a histogram counts.
#[derive(Debug, Clone, Copy, PartialEq, Eq, Structural)]
pub struct DescriptiveStats {
    pub min_value: u64,
    pub mean: Decimal,
    pub max_value: u64,
}

/// Why statistics read from a run could not be taken as they are.
#[derive(Debug, Clone, Copy, PartialEq, Eq, Structural)]
pub enum StatsError {
    /// A histogram does not have one more bucket than thresholds.
    BucketCountMismatch { num_thresholds: u64, num_occurrences: u64 },
}

/// Counts of values in buckets: `thresholds` split the line into one more bucket
/// than there are thresholds, the last one unbounded above.
#[derive(Debug)]
pub struct HistogramData {
    num_values: u64,
    thresholds: Vec<u64>,
    occurrences: Vec<u64>,
    descriptive_stats: Option<DescriptiveStats>,
}

pub open spec fn seq_sum(s: Seq<u64>) -> int
    decreases s.len(),
{
    if s.len() == 0 {
        0
    } else {
        seq_sum(s.drop_last()) + s.last()
    }
}

/// The whole part of a decimal.
pub open spec fn decimal_floor(d: Decimal) -> nat {
    shift_right(d.units as nat, d.scale as nat)
}

/// `mean` lies between `min_value` and `max_value`: the minimum is at most the
/// mean's whole part, and the mean's whole part is below the maximum or equals it
/// with no fraction left over.
pub open spec fn stats_ordered(d: DescriptiveStats) -> bool {
    &&& d.min_value <= decimal_floor(d.mean)
    &&& (decimal_floor(d.mean) < d.max_value || (decimal_floor(d.mean) == d.max_value
        && normal_form(d.mean).scale == 0))
}

/// `<= t` for each threshold `t`, then `<= inf` for the last bucket.
pub open spec fn axis_labels(thresholds: Seq<u64>) -> Seq<Seq<char>> {
    thresholds.map_values(|t: u64| "<= "@ + digits(t as nat)).push("<= inf"@)
}

impl HistogramData {
    #[verifier::type_invariant]
    spec fn bucket_per_threshold_and_one(self) -> bool {
        self.occurrences@.len() == self.thresholds@.len() + 1
    }

    pub closed spec fn spec_num_values(&self) -> u64 {
        self.num_values
    }

    pub closed spec fn spec_thresholds(&self) -> Seq<u64> {
        self.thresholds@
    }

    pub closed spec fn spec_occurrences(&self) -> Seq<u64> {
        self.occurrences@
    }

    pub closed spec fn spec_descriptive_stats(&self) -> Option<DescriptiveStats> {
        self.descriptive_stats
    }

    /// A histogram from what a run reported; refused unless there is exactly one
    /// more bucket than thresholds.
    pub fn new(
        num_values: u64,
        thresholds: Vec<u64>,
        occurrences: Vec<u64>,
        descriptive_stats: Option<DescriptiveStats>,
    ) -> (r: Result<HistogramData, StatsError>)
        ensures
            occurrences@.len() == thresholds@.len() + 1 <==> r is Ok,
            r matches Ok(h) ==> {
                &&& h.spec_num_values() == num_values
                &&& h.spec_thresholds() == thresholds@
                &&& h.spec_occurrences() == occurrences@
                &&& h.spec_descriptive_stats() == descriptive_stats
            },
            r matches Err(e) ==> e == (StatsError::BucketCountMismatch {
                num_thresholds: thresholds@.len() as u64,
                num_occurrences: occurrences@.len() as u64,
            }),
    {
        if occurrences.len() > 0 && occurrences.len() - 1 == thresholds.len() {
            Ok(HistogramData { num_values, thresholds, occurrences, descriptive_stats })
        } else {
            Err(
                StatsError::BucketCountMismatch {
                    num_thresholds: thresholds.len() as u64,
                    num_occurrences: occurrences.len() as u64,
                },
            )
        }
    }

    pub fn num_values(&self) -> (r: u64)
        ensures
            r == self.spec_num_values(),
    {
        self.num_values
    }

    pub fn thresholds(&self) -> (r: &Vec<u64>)
        ensures
            r@ == self.spec_thresholds(),
            self.spec_occurrences().len() == r@.len() + 1,
    {
        proof {
            use_type_invariant(self);
        }
        &self.thresholds
    }

    pub fn occurrences(&self) -> (r: &Vec<u64>)
        ensures
            r@ == self.spec_occurrences(),
            r@.len() == self.spec_thresholds().len() + 1,
    {
        proof {
            use_type_invariant(self);
        }
        &self.occurrences
    }

    pub fn descriptive_stats(&self) -> (r: Option<DescriptiveStats>)
        ensures
            r == self.spec_descriptive_stats(),
    {
        self.descriptive_stats
    }

    /// Whether the buckets add up to the number of values.
    pub fn counts_add_up(&self) -> (r: bool)
        ensures
            r == (seq_sum(self.spec_occurrences()) == self.spec_num_values()),
    {
        let mut sum: u64 = 0;
        let mut i: usize = 0;
        while i < self.occurrences.len()
            invariant
                i <= self.occurrences@.len(),
                sum == seq_sum(self.occurrences@.take(i as int)),
                sum <= self.num_values,
            decreases self.occurrences@.len() - i,
        {
            assert(self.occurrences@.take(i + 1).drop_last() =~= self.occurrences@.take(i as int));
            if self.occurrences[i] > self.num_values - sum {
                proof {
                    lemma_sum_prefix_grows(self.occurrences@, i as int + 1);
                }
                return false;
            }
            sum = sum + self.occurrences[i];
            i = i + 1;
        }
        assert(self.occurrences@.take(i as int) =~= self.occurrences@);
        sum == self.num_values
    }

    /// Whether the mean, if present, lies between the minimum and the maximum.
    pub fn stats_are_ordered(&self) -> (r: bool)
        ensures
            r == (self.spec_descriptive_stats() matches Some(d) ==> stats_ordered(d)),
    {
        match self.descriptive_stats {
            None => true,
            Some(d) => {
                let mut whole = d.mean.units;
                let mut k: u8 = d.mean.scale;
                while k > 0
                    invariant
                        shift_right(whole as nat, k as nat) == decimal_floor(d.mean),
                    decreases k,
                {
                    whole = whole / 10;
                    k = k - 1;
                }
                let no_fraction = d.mean.normalized().scale == 0;
                d.min_value <= whole && (whole < d.max_value || (whole == d.max_value && no_fraction))
            },
        }
    }

    /// The bucket labels: `<= t` for each threshold, then `<= inf`.
    pub fn axis_names(&self) -> (r: Vec<String>)
        ensures
            crate::readmappers::texts(r@) == axis_labels(self.spec_thresholds()),
    {
        let mut names: Vec<String> = Vec::new();
        let mut i: usize = 0;
        while i < self.thresholds.len()
            invariant
                i <= self.thresholds@.len(),
                crate::readmappers::texts(names@) == self.thresholds@.take(i as int).map_values(
                    |t: u64| "<= "@ + digits(t as nat),
                ),
            decreases self.thresholds@.len() - i,
        {
            let mut label = String::from_str("<= ");
            let number = u64_text(self.thresholds[i]);
            label.append(number.as_str());
            let ghost text = label@;
            let ghost before = names@;
            names.push(label);
            proof {
                let f = |t: u64| "<= "@ + digits(t as nat);
                assert(text == f(self.thresholds@[i as int]));
                assert(self.thresholds@.take(i + 1) =~= self.thresholds@.take(i as int).push(self.thresholds@[i as int]));
                assert(crate::readmappers::texts(names@) =~= crate::readmappers::texts(before).push(text));
                assert(self.thresholds@.take(i + 1).map_values(f) =~= self.thresholds@.take(i as int).map_values(f).push(text));
            }
            i = i + 1;
        }
        names.push(String::from_str("<= inf"));
        assert(self.thresholds@.take(i as int) =~= self.thresholds@);
        assert(crate::readmappers::texts(names@) =~= axis_labels(self.thresholds@));
        names
    }

    /// The counts as `i32`, cut to 32 bits as an `as` cast does.
    pub fn occurrences_as_i32(&self) -> (r: Vec<i32>)
        ensures
            r@.len() == self.spec_occurrences().len(),
            forall|i: int| 0 <= i < r@.len() ==> #[trigger] r@[i] == self.spec_occurrences()[i] as i32,
    {
        let mut v: Vec<i32> = Vec::new();
        let mut i: usize = 0;
        while i < self.occurrences.len()
            invariant
                i <= self.occurrences@.len(),
                v@.len() == i,
                forall|j: int| 0 <= j < i ==> #[trigger] v@[j] == self.occurrences@[j] as i32,
            decreases self.occurrences@.len() - i,
        {
            v.push(#[verifier::truncate] (self.occurrences[i] as i32));
            i = i + 1;
        }
        v
    }
}

proof fn lemma_sum_prefix_grows(s: Seq<u64>, k: int)
    requires
        0 <= k <= s.len(),
    ensures
        seq_sum(s) >= seq_sum(s.take(k)),
    decreases s.len() - k,
{
    if k < s.len() {
        lemma_sum_prefix_grows(s, k + 1);
        assert(s.take(k + 1).drop_last() =~= s.take(k));
    } else {
        assert(s.take(k) =~= s);
    }
}

/// How floxer cut queries into seeds.
#[derive(Debug)]
pub struct SeedStats {
    pub seed_lengths: HistogramData,
    pub errors_per_seed: HistogramData,
    pub seeds_per_query: HistogramData,
}

impl SeedStats {
    /// The histograms, in the order of their metric names.
    pub fn iter_histograms(&self) -> (r: Vec<&HistogramData>)
        ensures
            r@ == seq![&self.seed_lengths, &self.errors_per_seed, &self.seeds_per_query],
    {
        vec![&self.seed_lengths, &self.errors_per_seed, &self.seeds_per_query]
    }

    /// A readable name for each histogram, in order.
    pub fn iter_metric_names(&self) -> (r: Vec<&'static str>)
        ensures
            r@.map_values(|s: &'static str| s@) == seq!["Seed lengths"@, "Errors per seed"@, "Seeds per query"@],
    {
        let r = vec!["Seed lengths", "Errors per seed", "Seeds per query"];
        assert(r@.map_values(|s: &'static str| s@) =~= seq!["Seed lengths"@, "Errors per seed"@, "Seeds per query"@]);
        r
    }
}

/// Anchors kept and excluded, counted per query.
#[derive(Debug)]
pub struct AnchorStatsPerQuery {
    /// Queries whose seeds were all excluded.
    pub completely_excluded_queries: u64,
    pub fully_excluded_seeds_per_query: HistogramData,
    pub kept_anchors_per_query: HistogramData,
    pub excluded_raw_anchors_by_soft_cap_per_query: HistogramData,
    pub excluded_raw_anchors_by_erase_useless_per_query: HistogramData,
}

impl AnchorStatsPerQuery {
    /// The histograms, in the order of their metric names.
    pub fn iter_histograms(&self) -> (r: Vec<&HistogramData>)
        ensures
            r@ == seq![&self.fully_excluded_seeds_per_query, &self.kept_anchors_per_query, &self.excluded_raw_anchors_by_soft_cap_per_query, &self.excluded_raw_anchors_by_erase_useless_per_query],
    {
        vec![&self.fully_excluded_seeds_per_query, &self.kept_anchors_per_query, &self.excluded_raw_anchors_by_soft_cap_per_query, &self.excluded_raw_anchors_by_erase_useless_per_query]
    }

    /// A readable name for each histogram, in order.
    pub fn iter_metric_names(&self) -> (r: Vec<&'static str>)
        ensures
            r@.map_values(|s: &'static str| s@) == seq!["Fully excluded seeds per query"@, "Anchors per query from non excluded seeds"@, "Excluded raw anchors by soft cap per query"@, "Excluded raw anchors by erase useless per query"@],
    {
        let r = vec!["Fully excluded seeds per query", "Anchors per query from non excluded seeds", "Excluded raw anchors by soft cap per query", "Excluded raw anchors by erase useless per query"];
        assert(r@.map_values(|s: &'static str| s@) =~= seq!["Fully excluded seeds per query"@, "Anchors per query from non excluded seeds"@, "Excluded raw anchors by soft cap per query"@, "Excluded raw anchors by erase useless per query"@]);
        r
    }
}

/// Anchors kept and excluded, counted per kept seed.
#[derive(Debug)]
pub struct AnchorStatsPerSeed {
    pub kept_anchors_per_kept_seed: HistogramData,
    pub excluded_raw_anchors_by_soft_cap_per_kept_seed: HistogramData,
    pub excluded_raw_anchors_by_erase_useless_per_kept_seed: HistogramData,
}

impl AnchorStatsPerSeed {
    /// The histograms, in the order of their metric names.
    pub fn iter_histograms(&self) -> (r: Vec<&HistogramData>)
        ensures
            r@ == seq![&self.kept_anchors_per_kept_seed, &self.excluded_raw_anchors_by_soft_cap_per_kept_seed, &self.excluded_raw_anchors_by_erase_useless_per_kept_seed],
    {
        vec![&self.kept_anchors_per_kept_seed, &self.excluded_raw_anchors_by_soft_cap_per_kept_seed, &self.excluded_raw_anchors_by_erase_useless_per_kept_seed]
    }

    /// A readable name for each histogram, in order.
    pub fn iter_metric_names(&self) -> (r: Vec<&'static str>)
        ensures
            r@.map_values(|s: &'static str| s@) == seq!["Kept anchors per kept seed"@, "Excluded raw anchors by soft cap per kept seed"@, "Excluded raw anchors by erase useless per kept seed"@],
    {
        let r = vec!["Kept anchors per kept seed", "Excluded raw anchors by soft cap per kept seed", "Excluded raw anchors by erase useless per kept seed"];
        assert(r@.map_values(|s: &'static str| s@) =~= seq!["Kept anchors per kept seed"@, "Excluded raw anchors by soft cap per kept seed"@, "Excluded raw anchors by erase useless per kept seed"@]);
        r
    }
}

/// Reference spans that floxer aligned, or avoided aligning.
#[derive(Debug)]
pub struct AlignmentStats {
    pub reference_span_sizes_aligned_of_inner_nodes: HistogramData,
    pub reference_span_sizes_aligned_of_roots: HistogramData,
    pub reference_span_sizes_alignment_avoided_of_roots: HistogramData,
}

impl AlignmentStats {
    /// The histograms, in the order of their metric names.
    pub fn iter_histograms(&self) -> (r: Vec<&HistogramData>)
        ensures
            r@ == seq![&self.reference_span_sizes_aligned_of_inner_nodes, &self.reference_span_sizes_aligned_of_roots, &self.reference_span_sizes_alignment_avoided_of_roots],
    {
        vec![&self.reference_span_sizes_aligned_of_inner_nodes, &self.reference_span_sizes_aligned_of_roots, &self.reference_span_sizes_alignment_avoided_of_roots]
    }

    /// A readable name for each histogram, in order.
    pub fn iter_metric_names(&self) -> (r: Vec<&'static str>)
        ensures
            r@.map_values(|s: &'static str| s@) == seq!["Ref span sizes aligned inner"@, "Ref span sizes aligned roots"@, "Ref span sizes alignment avoided roots"@],
    {
        let r = vec!["Ref span sizes aligned inner", "Ref span sizes aligned roots", "Ref span sizes alignment avoided roots"];
        assert(r@.map_values(|s: &'static str| s@) =~= seq!["Ref span sizes aligned inner"@, "Ref span sizes aligned roots"@, "Ref span sizes alignment avoided roots"@]);
        r
    }
}

/// Everything floxer reports about one run.
#[derive(Debug)]
pub struct FloxerStats {
    pub query_lengths: HistogramData,
    pub seed_stats: SeedStats,
    pub anchor_stats_per_query: AnchorStatsPerQuery,
    pub anchor_stats_per_seed: AnchorStatsPerSeed,
    pub alignment_stats: AlignmentStats,
    pub alignments_per_query: HistogramData,
    pub alignments_edit_distance: HistogramData,
    pub milliseconds_spent_in_search_per_query: HistogramData,
    pub milliseconds_spent_in_verification_per_query: HistogramData,
}

impl FloxerStats {
    /// The histograms that belong to no group, in the order of their names.
    pub fn iter_general_stats_histograms(&self) -> (r: Vec<&HistogramData>)
        ensures
            r@ == seq![&self.query_lengths, &self.alignments_per_query, &self.alignments_edit_distance, &self.milliseconds_spent_in_search_per_query, &self.milliseconds_spent_in_verification_per_query],
    {
        vec![&self.query_lengths, &self.alignments_per_query, &self.alignments_edit_distance, &self.milliseconds_spent_in_search_per_query, &self.milliseconds_spent_in_verification_per_query]
    }

    /// A readable name for each general histogram, in order.
    pub fn iter_general_metric_names(&self) -> (r: Vec<&'static str>)
        ensures
            r@.map_values(|s: &'static str| s@) == seq!["Query lenghts"@, "Alignments per query"@, "Edit distances of alignments"@, "Milliseconds spent in search per query"@, "Milliseconds spent in verification per query"@],
    {
        let r = vec!["Query lenghts", "Alignments per query", "Edit distances of alignments", "Milliseconds spent in search per query", "Milliseconds spent in verification per query"];
        assert(r@.map_values(|s: &'static str| s@) =~= seq!["Query lenghts"@, "Alignments per query"@, "Edit distances of alignments"@, "Milliseconds spent in search per query"@, "Milliseconds spent in verification per query"@]);
        r
    }
}

} // verus!
