//! Floxer: its algorithm parameters, its command line, and the decisions around a run.
use vstd::prelude::*;

use crate::cli::BenchmarkConfig;
use crate::config::BenchmarkSuiteConfig;
use crate::analyze_mapped_reads::SimpleMappedReadsStats;
use crate::folder_structure::{apply_link_update, BenchmarkFolder, BenchmarkInstanceFolder};
use crate::readmappers::floxer_stats::FloxerStats;
use crate::readmappers::{
    add_time_args, push_arg, push_owned_arg, texts, time_args, IndexStrategy, Invocation, Queries,
    Reference, ResourceMetrics, StatsInputHint, NUM_THREADS_FOR_READMAPPERS,
};
use crate::text::{decimal_text, digits, join, join_path, u64_text, Decimal};

verus! {

/// How many errors a query may have: a fixed number, or a share of its length.
#[derive(Debug, Clone, Copy, PartialEq, Eq, Structural)]
pub enum QueryErrors {
    Exact(u16),
    Rate(Decimal),
}

#[derive(Debug, Clone, Copy, PartialEq, Eq, Structural)]
pub enum AnchorGroupOrder {
    ErrorsFirst,
    CountFirst,
    Unordered,
}

#[derive(Debug, Clone, Copy, PartialEq, Eq, Structural)]
pub enum AnchorChoiceStrategy {
    RoundRobin,
    FullGroups,
    FullCursor,
    FirstReported,
}

#[derive(Debug, Clone, Copy, PartialEq, Eq, Structural)]
pub enum PexTreeConstruction {
    TopDown,
    BottomUp,
}

#[derive(Debug, Clone, Copy, PartialEq, Eq, Structural)]
pub enum IntervalOptimization {
    On,
    Off,
}

#[derive(Debug, Clone, Copy, PartialEq, Eq, Structural)]
pub enum VerificationAlgorithm {
    DirectFull,
    Hierarchical,
}

#[derive(Debug, Clone, Copy, PartialEq, Eq, Structural)]
pub enum EraseUselessAnchors {
    On,
    Off,
}

/// Whether floxer writes CIGAR strings into its output.
#[derive(Debug, Clone, Copy, PartialEq, Eq, Structural)]
pub enum CigarOutput {
    On,
    Off,
}

impl AnchorGroupOrder {
    pub open spec fn spec_name(self) -> Seq<char> {
        match self {
            AnchorGroupOrder::ErrorsFirst => "errors_first"@,
            AnchorGroupOrder::CountFirst => "count_first"@,
            AnchorGroupOrder::Unordered => "none"@,
        }
    }

    pub fn name(&self) -> (r: &'static str)
        ensures
            r@ == self.spec_name(),
    {
        match self {
            AnchorGroupOrder::ErrorsFirst => "errors_first",
            AnchorGroupOrder::CountFirst => "count_first",
            AnchorGroupOrder::Unordered => "none",
        }
    }
}

impl AnchorChoiceStrategy {
    pub open spec fn spec_name(self) -> Seq<char> {
        match self {
            AnchorChoiceStrategy::RoundRobin => "round_robin"@,
            AnchorChoiceStrategy::FullGroups => "full_groups"@,
            AnchorChoiceStrategy::FullCursor => "full_cursor"@,
            AnchorChoiceStrategy::FirstReported => "first_reported"@,
        }
    }

    pub fn name(&self) -> (r: &'static str)
        ensures
            r@ == self.spec_name(),
    {
        match self {
            AnchorChoiceStrategy::RoundRobin => "round_robin",
            AnchorChoiceStrategy::FullGroups => "full_groups",
            AnchorChoiceStrategy::FullCursor => "full_cursor",
            AnchorChoiceStrategy::FirstReported => "first_reported",
        }
    }
}

impl PexTreeConstruction {
    pub open spec fn spec_name(self) -> Seq<char> {
        match self {
            PexTreeConstruction::TopDown => "top_down"@,
            PexTreeConstruction::BottomUp => "bottom_up"@,
        }
    }

    pub fn name(&self) -> (r: &'static str)
        ensures
            r@ == self.spec_name(),
    {
        match self {
            PexTreeConstruction::TopDown => "top_down",
            PexTreeConstruction::BottomUp => "bottom_up",
        }
    }

    /// Every variant, in declaration order.
    pub fn all() -> (r: Vec<PexTreeConstruction>)
        ensures
            r@ == seq![PexTreeConstruction::TopDown, PexTreeConstruction::BottomUp],
    {
        vec![PexTreeConstruction::TopDown, PexTreeConstruction::BottomUp]
    }
}

impl IntervalOptimization {
    pub open spec fn spec_name(self) -> Seq<char> {
        match self {
            IntervalOptimization::On => "interval_optimization_on"@,
            IntervalOptimization::Off => "interval_optimization_off"@,
        }
    }

    pub fn name(&self) -> (r: &'static str)
        ensures
            r@ == self.spec_name(),
    {
        match self {
            IntervalOptimization::On => "interval_optimization_on",
            IntervalOptimization::Off => "interval_optimization_off",
        }
    }

    /// Every variant, in declaration order.
    pub fn all() -> (r: Vec<IntervalOptimization>)
        ensures
            r@ == seq![IntervalOptimization::On, IntervalOptimization::Off],
    {
        vec![IntervalOptimization::On, IntervalOptimization::Off]
    }
}

impl VerificationAlgorithm {
    pub open spec fn spec_name(self) -> Seq<char> {
        match self {
            VerificationAlgorithm::DirectFull => "direct_full"@,
            VerificationAlgorithm::Hierarchical => "hierarchical"@,
        }
    }

    pub fn name(&self) -> (r: &'static str)
        ensures
            r@ == self.spec_name(),
    {
        match self {
            VerificationAlgorithm::DirectFull => "direct_full",
            VerificationAlgorithm::Hierarchical => "hierarchical",
        }
    }

    /// Every variant, in declaration order.
    pub fn all() -> (r: Vec<VerificationAlgorithm>)
        ensures
            r@ == seq![VerificationAlgorithm::DirectFull, VerificationAlgorithm::Hierarchical],
    {
        vec![VerificationAlgorithm::DirectFull, VerificationAlgorithm::Hierarchical]
    }
}

impl EraseUselessAnchors {
    pub open spec fn spec_name(self) -> Seq<char> {
        match self {
            EraseUselessAnchors::On => "on"@,
            EraseUselessAnchors::Off => "off"@,
        }
    }

    pub fn name(&self) -> (r: &'static str)
        ensures
            r@ == self.spec_name(),
    {
        match self {
            EraseUselessAnchors::On => "on",
            EraseUselessAnchors::Off => "off",
        }
    }

    /// Every variant, in declaration order.
    pub fn all() -> (r: Vec<EraseUselessAnchors>)
        ensures
            r@ == seq![EraseUselessAnchors::On, EraseUselessAnchors::Off],
    {
        vec![EraseUselessAnchors::On, EraseUselessAnchors::Off]
    }
}

/// The error rate floxer runs with unless a benchmark says otherwise: 0.09.
pub fn default_error_rate() -> (r: Decimal)
    ensures
        r == (Decimal { units: 9, scale: 2 }),
{
    Decimal { units: 9, scale: 2 }
}

/// The error rate of the high-error benchmarks: 0.15.
pub fn high_error_rate() -> (r: Decimal)
    ensures
        r == (Decimal { units: 15, scale: 2 }),
{
    Decimal { units: 15, scale: 2 }
}

/// The parameters of floxer's algorithm.
#[derive(Debug, Clone, Copy, PartialEq, Eq, Structural)]
pub struct FloxerAlgorithmConfig {
    pub index_strategy: IndexStrategy,
    pub query_errors: QueryErrors,
    pub pex_seed_errors: u8,
    pub max_num_anchors_hard: u64,
    pub max_num_anchors_soft: u64,
    pub anchor_group_order: AnchorGroupOrder,
    pub anchor_choice_strategy: AnchorChoiceStrategy,
    pub erase_useless_anchors: EraseUselessAnchors,
    pub seed_sampling_step_size: u16,
    pub pex_tree_construction: PexTreeConstruction,
    pub interval_optimization: IntervalOptimization,
    pub extra_verification_ratio: Decimal,
    pub verification_algorithm: VerificationAlgorithm,
    pub num_anchors_per_verification_task: usize,
    pub num_threads: u16,
}

pub open spec fn default_algorithm_config() -> FloxerAlgorithmConfig {
    FloxerAlgorithmConfig {
        index_strategy: IndexStrategy::ReadFromDiskIfStored,
        query_errors: QueryErrors::Rate(Decimal { units: 9, scale: 2 }),
        pex_seed_errors: 2,
        max_num_anchors_hard: u64::MAX,
        max_num_anchors_soft: 100,
        anchor_group_order: AnchorGroupOrder::CountFirst,
        anchor_choice_strategy: AnchorChoiceStrategy::RoundRobin,
        erase_useless_anchors: EraseUselessAnchors::On,
        seed_sampling_step_size: 1,
        pex_tree_construction: PexTreeConstruction::BottomUp,
        interval_optimization: IntervalOptimization::On,
        extra_verification_ratio: Decimal { units: 1, scale: 1 },
        verification_algorithm: VerificationAlgorithm::Hierarchical,
        num_anchors_per_verification_task: 3000,
        num_threads: 32,
    }
}

impl Default for FloxerAlgorithmConfig {
    fn default() -> (r: FloxerAlgorithmConfig)
        ensures
            r == default_algorithm_config(),
    {
        FloxerAlgorithmConfig {
            index_strategy: IndexStrategy::ReadFromDiskIfStored,
            query_errors: QueryErrors::Rate(default_error_rate()),
            pex_seed_errors: 2,
            max_num_anchors_hard: u64::MAX,
            max_num_anchors_soft: 100,
            anchor_group_order: AnchorGroupOrder::CountFirst,
            anchor_choice_strategy: AnchorChoiceStrategy::RoundRobin,
            erase_useless_anchors: EraseUselessAnchors::On,
            seed_sampling_step_size: 1,
            pex_tree_construction: PexTreeConstruction::BottomUp,
            interval_optimization: IntervalOptimization::On,
            extra_verification_ratio: Decimal { units: 1, scale: 1 },
            verification_algorithm: VerificationAlgorithm::Hierarchical,
            num_anchors_per_verification_task: 3000,
            num_threads: NUM_THREADS_FOR_READMAPPERS,
        }
    }
}

/// One floxer run of a benchmark: its instance name, inputs and parameters.
#[derive(Debug)]
pub struct FloxerConfig {
    pub name: String,
    pub reference: Reference,
    pub queries: Queries,
    pub only_analysis: bool,
    pub algorithm_config: FloxerAlgorithmConfig,
    pub cigar_output: CigarOutput,
}

/// Whether a profiler wraps the run.
#[derive(Debug, Clone, Copy, PartialEq, Eq, Structural)]
pub enum ProfileConfig {
    Off,
    On,
}

impl FloxerConfig {
    /// An instance with the default parameters on the benchmark's inputs.
    pub fn from_benchmark_config(value: &BenchmarkConfig) -> (r: Self)
        ensures
            r.name@ == "unnamed_instance"@,
            r.reference == value.reference,
            r.queries == value.queries,
            r.only_analysis == value.only_analysis,
            r.algorithm_config == default_algorithm_config(),
            r.cigar_output == CigarOutput::Off,
    {
        FloxerConfig {
            name: String::from_str("unnamed_instance"),
            reference: value.reference,
            queries: value.queries,
            only_analysis: value.only_analysis,
            algorithm_config: FloxerAlgorithmConfig::default(),
            cigar_output: CigarOutput::Off,
        }
    }

    /// `<benchmark name>__<instance name>`.
    pub fn full_name(&self, benchmark_name: &str) -> (r: String)
        ensures
            r@ == benchmark_name@ + "__"@ + self.name@,
    {
        let mut s = String::from_str(benchmark_name);
        s.append("__");
        s.append(self.name.as_str());
        s
    }
}

pub open spec fn is_error_flag(s: Seq<char>) -> bool {
    s == "--query-errors"@ || s == "--error-probability"@
}

/// The flag and value that carry the query error tolerance.
pub open spec fn error_args(query_errors: QueryErrors) -> Seq<Seq<char>> {
    match query_errors {
        QueryErrors::Exact(n) => seq!["--query-errors"@, digits(n as nat)],
        QueryErrors::Rate(r) => seq!["--error-probability"@, decimal_text(r)],
    }
}

/// The flags that carry the algorithm's valued parameters.
pub open spec fn value_args(c: FloxerAlgorithmConfig) -> Seq<Seq<char>> {
    seq![
        "--seed-errors"@,
        digits(c.pex_seed_errors as nat),
        "--max-anchors-hard"@,
        digits(c.max_num_anchors_hard as nat),
        "--max-anchors-soft"@,
        digits(c.max_num_anchors_soft as nat),
        "--anchor-group-order"@,
        c.anchor_group_order.spec_name(),
        "--anchor-choice-strategy"@,
        c.anchor_choice_strategy.spec_name(),
        "--seed-sampling-step-size"@,
        digits(c.seed_sampling_step_size as nat),
        "--extra-verification-ratio"@,
        decimal_text(c.extra_verification_ratio),
        "--threads"@,
        digits(c.num_threads as nat),
        "--num-anchors-per-task"@,
        digits(c.num_anchors_per_verification_task as nat),
    ]
}

pub open spec fn flag_if(present: bool, flag: Seq<char>) -> Seq<Seq<char>> {
    if present {
        seq![flag]
    } else {
        Seq::empty()
    }
}

/// The presence flags of the on/off features, the dataset hint and the CIGAR switch.
pub open spec fn toggle_args(
    c: FloxerAlgorithmConfig,
    hint: Option<StatsInputHint>,
    cigar_output: CigarOutput,
) -> Seq<Seq<char>> {
    flag_if(c.pex_tree_construction == PexTreeConstruction::BottomUp, "--bottom-up-pex-tree"@)
        + flag_if(c.interval_optimization == IntervalOptimization::On, "--interval-optimization"@)
        + flag_if(
        c.verification_algorithm == VerificationAlgorithm::DirectFull,
        "--direct-full-verification"@,
    ) + flag_if(c.erase_useless_anchors == EraseUselessAnchors::On, "--erase-useless-anchors"@)
        + match hint {
        Some(h) => seq!["--stats-input-hint"@, h.spec_name()],
        None => Seq::empty(),
    } + flag_if(cigar_output == CigarOutput::Off, "--without-cigar"@)
}

/// The index file that floxer keeps for a reference.
pub open spec fn floxer_index_path(index_folder: Seq<char>, reference: Reference) -> Seq<char> {
    join_path(index_folder, "floxer-index-"@ + reference.spec_name() + ".flxi"@)
}

/// `--index <path>` where the index may be read from disk; nothing where it is rebuilt.
pub open spec fn index_args(strategy: IndexStrategy, index_path: Seq<char>) -> Seq<Seq<char>> {
    if strategy == IndexStrategy::ReadFromDiskIfStored {
        seq!["--index"@, index_path]
    } else {
        Seq::empty()
    }
}

/// Everything floxer itself is told, from its binary on.
pub open spec fn floxer_args(
    config: FloxerConfig,
    folder: BenchmarkInstanceFolder,
    suite: BenchmarkSuiteConfig,
) -> Seq<Seq<char>> {
    seq![
        suite.readmapper_binaries.floxer@,
        "--reference"@,
        config.reference.spec_path(&suite),
        "--queries"@,
        config.queries.spec_path(&suite),
        "--output"@,
        folder.mapped_reads_bam_path@,
        "--logfile"@,
        folder.logfile_path@,
        "--stats"@,
        folder.stats_path@,
    ] + index_args(
        config.algorithm_config.index_strategy,
        floxer_index_path(suite.spec_index_folder(), config.reference),
    ) + error_args(config.algorithm_config.query_errors) + value_args(config.algorithm_config)
        + toggle_args(
        config.algorithm_config,
        config.queries.spec_floxer_stats_input_hint(),
        config.cigar_output,
    )
}

/// The sampling profiler's arguments, up to the time wrapper it runs.
pub open spec fn perf_args(perf_data_path: Seq<char>) -> Seq<Seq<char>> {
    seq![
        "record"@,
        "-o"@,
        perf_data_path,
        "-F"@,
        "100"@,
        "--call-graph"@,
        "dwarf,16384"@,
        "-g"@,
        "--"@,
        "/usr/bin/time"@,
    ]
}

pub open spec fn spec_program(profile: ProfileConfig) -> Seq<char> {
    match profile {
        ProfileConfig::Off => "/usr/bin/time"@,
        ProfileConfig::On => "perf"@,
    }
}

/// The whole argument list: the profiler's if any, the time wrapper's, then floxer's.
pub open spec fn floxer_command_args(
    config: FloxerConfig,
    profile: ProfileConfig,
    folder: BenchmarkInstanceFolder,
    suite: BenchmarkSuiteConfig,
) -> Seq<Seq<char>> {
    let wrapper = match profile {
        ProfileConfig::Off => Seq::empty(),
        ProfileConfig::On => perf_args(folder.perf_data_path@),
    };
    wrapper + time_args(folder.timing_path@) + floxer_args(config, folder, suite)
}

fn push_error_args(args: &mut Vec<String>, query_errors: QueryErrors)
    ensures
        texts(final(args)@) == texts(old(args)@) + error_args(query_errors),
{
    match query_errors {
        QueryErrors::Exact(n) => {
            push_arg(args, "--query-errors");
            push_owned_arg(args, u64_text(n as u64));
        },
        QueryErrors::Rate(r) => {
            push_arg(args, "--error-probability");
            push_owned_arg(args, r.to_text());
        },
    }
    assert(texts(final(args)@) =~= texts(old(args)@) + error_args(query_errors));
}

fn push_value_args(args: &mut Vec<String>, c: &FloxerAlgorithmConfig)
    ensures
        texts(final(args)@) == texts(old(args)@) + value_args(*c),
{
    push_arg(args, "--seed-errors");
    push_owned_arg(args, u64_text(c.pex_seed_errors as u64));
    push_arg(args, "--max-anchors-hard");
    push_owned_arg(args, u64_text(c.max_num_anchors_hard));
    push_arg(args, "--max-anchors-soft");
    push_owned_arg(args, u64_text(c.max_num_anchors_soft));
    push_arg(args, "--anchor-group-order");
    push_arg(args, c.anchor_group_order.name());
    push_arg(args, "--anchor-choice-strategy");
    push_arg(args, c.anchor_choice_strategy.name());
    push_arg(args, "--seed-sampling-step-size");
    push_owned_arg(args, u64_text(c.seed_sampling_step_size as u64));
    push_arg(args, "--extra-verification-ratio");
    push_owned_arg(args, c.extra_verification_ratio.to_text());
    push_arg(args, "--threads");
    push_owned_arg(args, u64_text(c.num_threads as u64));
    push_arg(args, "--num-anchors-per-task");
    push_owned_arg(args, u64_text(c.num_anchors_per_verification_task as u64));
    assert(texts(final(args)@) =~= texts(old(args)@) + value_args(*c));
}

fn push_flag_if(args: &mut Vec<String>, present: bool, flag: &str)
    ensures
        texts(final(args)@) == texts(old(args)@) + flag_if(present, flag@),
{
    if present {
        push_arg(args, flag);
    }
    assert(texts(final(args)@) =~= texts(old(args)@) + flag_if(present, flag@));
}

fn push_toggle_args(
    args: &mut Vec<String>,
    c: &FloxerAlgorithmConfig,
    hint: Option<StatsInputHint>,
    cigar_output: CigarOutput,
)
    ensures
        texts(final(args)@) == texts(old(args)@) + toggle_args(*c, hint, cigar_output),
{
    let ghost start = texts(args@);
    push_flag_if(args, c.pex_tree_construction == PexTreeConstruction::BottomUp, "--bottom-up-pex-tree");
    push_flag_if(args, c.interval_optimization == IntervalOptimization::On, "--interval-optimization");
    push_flag_if(
        args,
        c.verification_algorithm == VerificationAlgorithm::DirectFull,
        "--direct-full-verification",
    );
    push_flag_if(args, c.erase_useless_anchors == EraseUselessAnchors::On, "--erase-useless-anchors");
    let ghost before_hint = texts(args@);
    match hint {
        Some(h) => {
            push_arg(args, "--stats-input-hint");
            push_arg(args, h.name());
        },
        None => {},
    }
    assert(texts(args@) =~= before_hint + match hint {
        Some(h) => seq!["--stats-input-hint"@, h.spec_name()],
        None => Seq::<Seq<char>>::empty(),
    });
    push_flag_if(args, cigar_output == CigarOutput::Off, "--without-cigar");
    assert(texts(final(args)@) =~= start + toggle_args(*c, hint, cigar_output));
}

fn push_wrapper_args(args: &mut Vec<String>, profile_config: ProfileConfig, perf_data_path: &str) -> (program: String)
    ensures
        program@ == spec_program(profile_config),
        texts(final(args)@) == texts(old(args)@) + match profile_config {
            ProfileConfig::Off => Seq::<Seq<char>>::empty(),
            ProfileConfig::On => perf_args(perf_data_path@),
        },
{
    let program = match profile_config {
        ProfileConfig::Off => String::from_str("/usr/bin/time"),
        ProfileConfig::On => {
            push_arg(args, "record");
            push_arg(args, "-o");
            push_arg(args, perf_data_path);
            push_arg(args, "-F");
            push_arg(args, "100");
            push_arg(args, "--call-graph");
            push_arg(args, "dwarf,16384");
            push_arg(args, "-g");
            push_arg(args, "--");
            push_arg(args, "/usr/bin/time");
            String::from_str("perf")
        },
    };
    assert(texts(final(args)@) =~= texts(old(args)@) + match profile_config {
        ProfileConfig::Off => Seq::<Seq<char>>::empty(),
        ProfileConfig::On => perf_args(perf_data_path@),
    });
    program
}

fn push_index_args(args: &mut Vec<String>, config: &FloxerConfig, suite_config: &BenchmarkSuiteConfig)
    ensures
        texts(final(args)@) == texts(old(args)@) + index_args(
            config.algorithm_config.index_strategy,
            floxer_index_path(suite_config.spec_index_folder(), config.reference),
        ),
{
    if config.algorithm_config.index_strategy == IndexStrategy::ReadFromDiskIfStored {
        let index_folder = suite_config.index_folder();
        let mut index_file_name = String::from_str("floxer-index-");
        index_file_name.append(config.reference.name());
        index_file_name.append(".flxi");
        let index_path = join(index_folder.as_str(), index_file_name.as_str());
        push_arg(args, "--index");
        push_owned_arg(args, index_path);
    }
    assert(texts(final(args)@) =~= texts(old(args)@) + index_args(
        config.algorithm_config.index_strategy,
        floxer_index_path(suite_config.spec_index_folder(), config.reference),
    ));
}

fn push_floxer_args(
    args: &mut Vec<String>,
    config: &FloxerConfig,
    instance_folder: &BenchmarkInstanceFolder,
    suite_config: &BenchmarkSuiteConfig,
)
    ensures
        texts(final(args)@) == texts(old(args)@) + floxer_args(*config, *instance_folder, *suite_config),
{
    push_arg(args, suite_config.readmapper_binaries.floxer.as_str());
    push_arg(args, "--reference");
    push_arg(args, config.reference.path(suite_config).as_str());
    push_arg(args, "--queries");
    push_arg(args, config.queries.path(suite_config).as_str());
    push_arg(args, "--output");
    push_arg(args, instance_folder.mapped_reads_bam_path.as_str());
    push_arg(args, "--logfile");
    push_arg(args, instance_folder.logfile_path.as_str());
    push_arg(args, "--stats");
    push_arg(args, instance_folder.stats_path.as_str());
    push_index_args(args, config, suite_config);
    push_error_args(args, config.algorithm_config.query_errors);
    push_value_args(args, &config.algorithm_config);
    push_toggle_args(
        args,
        &config.algorithm_config,
        config.queries.floxer_stats_input_hint(),
        config.cigar_output,
    );
    assert(texts(final(args)@) =~= texts(old(args)@) + floxer_args(*config, *instance_folder, *suite_config));
}

impl FloxerConfig {
    /// The command that runs floxer under the time wrapper, and under the profiler
    /// when profiling: a pure function of the configuration and the paths.
    pub fn command(
        &self,
        profile_config: ProfileConfig,
        instance_folder: &BenchmarkInstanceFolder,
        suite_config: &BenchmarkSuiteConfig,
    ) -> (r: Invocation)
        ensures
            r.program@ == spec_program(profile_config),
            r.spec_args() == floxer_command_args(*self, profile_config, *instance_folder, *suite_config),
    {
        let mut args: Vec<String> = Vec::new();
        let program = push_wrapper_args(&mut args, profile_config, instance_folder.perf_data_path.as_str());
        add_time_args(&mut args, instance_folder.timing_path.as_str());
        push_floxer_args(&mut args, self, instance_folder, suite_config);
        assert(texts(args@) =~= floxer_command_args(
            *self,
            profile_config,
            *instance_folder,
            *suite_config,
        ));
        Invocation { program, args }
    }
}

/// No element of the list is an error-tolerance flag.
pub open spec fn free_of_error_flags(s: Seq<Seq<char>>) -> bool {
    forall|i: int| 0 <= i < s.len() ==> !is_error_flag(#[trigger] s[i])
}

proof fn lemma_reveal_error_flags()
    ensures
        "--query-errors"@.len() == 14,
        "--error-probability"@.len() == 19,
        "--query-errors"@[0] == '-',
        "--error-probability"@[0] == '-',
        "--query-errors"@.last() == 's',
        "--error-probability"@.last() == 'y',
{
    reveal_strlit("--query-errors");
    reveal_strlit("--error-probability");
}

proof fn lemma_number_not_flag(n: nat)
    ensures
        !is_error_flag(digits(n)),
{
    crate::text::lemma_digits(n);
    lemma_reveal_error_flags();
}

proof fn lemma_decimal_not_flag(d: Decimal)
    ensures
        !is_error_flag(decimal_text(d)),
{
    lemma_reveal_error_flags();
    let n = crate::text::normal_form(d);
    if n.scale == 0 {
        crate::text::lemma_digits(n.units as nat);
    } else {
        crate::text::lemma_digits(crate::text::shift_right(n.units as nat, n.scale as nat));
    }
}

proof fn lemma_concat_free(a: Seq<Seq<char>>, b: Seq<Seq<char>>)
    requires
        free_of_error_flags(a),
        free_of_error_flags(b),
    ensures
        free_of_error_flags(a + b),
{
    assert forall|i: int| 0 <= i < (a + b).len() implies !is_error_flag(#[trigger] (a + b)[i]) by {
        if i < a.len() {
            assert((a + b)[i] == a[i]);
        } else {
            assert((a + b)[i] == b[i - a.len()]);
        }
    }
}

proof fn lemma_wrapper_free(profile: ProfileConfig, perf_data_path: Seq<char>, timing_path: Seq<char>)
    requires
        !is_error_flag(perf_data_path),
        !is_error_flag(timing_path),
    ensures
        free_of_error_flags(match profile {
            ProfileConfig::Off => Seq::<Seq<char>>::empty(),
            ProfileConfig::On => perf_args(perf_data_path),
        } + time_args(timing_path)),
{
    lemma_reveal_error_flags();
    reveal_strlit("record");
    reveal_strlit("-o");
    reveal_strlit("-F");
    reveal_strlit("100");
    reveal_strlit("--call-graph");
    reveal_strlit("dwarf,16384");
    reveal_strlit("-g");
    reveal_strlit("--");
    reveal_strlit("/usr/bin/time");
    reveal_strlit("--output");
    reveal_strlit("--format");
    reveal_strlit("wall_clock_seconds = %e\nuser_cpu_seconds = %U\nsystem_cpu_seconds = %S\npeak_memory_kilobytes = %M");
    let w = match profile {
        ProfileConfig::Off => Seq::<Seq<char>>::empty(),
        ProfileConfig::On => perf_args(perf_data_path),
    };
    let t = time_args(timing_path);
    assert forall|i: int| 0 <= i < w.len() implies !is_error_flag(#[trigger] w[i]) by {}
    assert forall|i: int| 0 <= i < t.len() implies !is_error_flag(#[trigger] t[i]) by {}
    lemma_concat_free(w, t);
}

proof fn lemma_join_path_last(base: Seq<char>, name: Seq<char>)
    requires
        name.len() > 0,
    ensures
        join_path(base, name).last() == name.last(),
{
}

proof fn lemma_paths_free(config: FloxerConfig, folder: BenchmarkInstanceFolder, suite: BenchmarkSuiteConfig)
    requires
        !is_error_flag(suite.readmapper_binaries.floxer@),
        !is_error_flag(config.reference.spec_path(&suite)),
        !is_error_flag(config.queries.spec_path(&suite)),
        !is_error_flag(folder.mapped_reads_bam_path@),
        !is_error_flag(folder.logfile_path@),
        !is_error_flag(folder.stats_path@),
    ensures
        free_of_error_flags(seq![
            suite.readmapper_binaries.floxer@,
            "--reference"@,
            config.reference.spec_path(&suite),
            "--queries"@,
            config.queries.spec_path(&suite),
            "--output"@,
            folder.mapped_reads_bam_path@,
            "--logfile"@,
            folder.logfile_path@,
            "--stats"@,
            folder.stats_path@,
        ]),
        free_of_error_flags(index_args(
            config.algorithm_config.index_strategy,
            floxer_index_path(suite.spec_index_folder(), config.reference),
        )),
{
    lemma_reveal_error_flags();
    reveal_strlit("--reference");
    reveal_strlit("--queries");
    reveal_strlit("--output");
    reveal_strlit("--logfile");
    reveal_strlit("--stats");
    reveal_strlit("--index");
    reveal_strlit(".flxi");
    let name = "floxer-index-"@ + config.reference.spec_name() + ".flxi"@;
    assert(name.last() == 'i');
    lemma_join_path_last(suite.spec_index_folder(), name);
    let p = seq![
        suite.readmapper_binaries.floxer@,
        "--reference"@,
        config.reference.spec_path(&suite),
        "--queries"@,
        config.queries.spec_path(&suite),
        "--output"@,
        folder.mapped_reads_bam_path@,
        "--logfile"@,
        folder.logfile_path@,
        "--stats"@,
        folder.stats_path@,
    ];
    assert forall|i: int| 0 <= i < p.len() implies !is_error_flag(#[trigger] p[i]) by {}
    let x = index_args(
        config.algorithm_config.index_strategy,
        floxer_index_path(suite.spec_index_folder(), config.reference),
    );
    assert forall|i: int| 0 <= i < x.len() implies !is_error_flag(#[trigger] x[i]) by {}
}

proof fn lemma_values_free(c: FloxerAlgorithmConfig, hint: Option<StatsInputHint>, cigar_output: CigarOutput)
    ensures
        free_of_error_flags(value_args(c)),
        free_of_error_flags(toggle_args(c, hint, cigar_output)),
{
    lemma_reveal_error_flags();
    reveal_strlit("--seed-errors");
    reveal_strlit("--max-anchors-hard");
    reveal_strlit("--max-anchors-soft");
    reveal_strlit("--anchor-group-order");
    reveal_strlit("--anchor-choice-strategy");
    reveal_strlit("--seed-sampling-step-size");
    reveal_strlit("--extra-verification-ratio");
    reveal_strlit("--threads");
    reveal_strlit("--num-anchors-per-task");
    reveal_strlit("--bottom-up-pex-tree");
    reveal_strlit("--interval-optimization");
    reveal_strlit("--direct-full-verification");
    reveal_strlit("--erase-useless-anchors");
    reveal_strlit("--stats-input-hint");
    reveal_strlit("--without-cigar");
    reveal_strlit("errors_first");
    reveal_strlit("count_first");
    reveal_strlit("none");
    reveal_strlit("round_robin");
    reveal_strlit("full_groups");
    reveal_strlit("full_cursor");
    reveal_strlit("first_reported");
    reveal_strlit("real_nanopore");
    reveal_strlit("simulated");
    lemma_number_not_flag(c.pex_seed_errors as nat);
    lemma_number_not_flag(c.max_num_anchors_hard as nat);
    lemma_number_not_flag(c.max_num_anchors_soft as nat);
    lemma_number_not_flag(c.seed_sampling_step_size as nat);
    lemma_number_not_flag(c.num_threads as nat);
    lemma_number_not_flag(c.num_anchors_per_verification_task as nat);
    lemma_decimal_not_flag(c.extra_verification_ratio);
    let v = value_args(c);
    assert forall|i: int| 0 <= i < v.len() implies !is_error_flag(#[trigger] v[i]) by {}
    let f1 = flag_if(c.pex_tree_construction == PexTreeConstruction::BottomUp, "--bottom-up-pex-tree"@);
    let f2 = flag_if(c.interval_optimization == IntervalOptimization::On, "--interval-optimization"@);
    let f3 = flag_if(
        c.verification_algorithm == VerificationAlgorithm::DirectFull,
        "--direct-full-verification"@,
    );
    let f4 = flag_if(c.erase_useless_anchors == EraseUselessAnchors::On, "--erase-useless-anchors"@);
    let f5 = match hint {
        Some(h) => seq!["--stats-input-hint"@, h.spec_name()],
        None => Seq::<Seq<char>>::empty(),
    };
    let f6 = flag_if(cigar_output == CigarOutput::Off, "--without-cigar"@);
    assert forall|i: int| 0 <= i < f1.len() implies !is_error_flag(#[trigger] f1[i]) by {}
    assert forall|i: int| 0 <= i < f2.len() implies !is_error_flag(#[trigger] f2[i]) by {}
    assert forall|i: int| 0 <= i < f3.len() implies !is_error_flag(#[trigger] f3[i]) by {}
    assert forall|i: int| 0 <= i < f4.len() implies !is_error_flag(#[trigger] f4[i]) by {}
    assert forall|i: int| 0 <= i < f5.len() implies !is_error_flag(#[trigger] f5[i]) by {}
    assert forall|i: int| 0 <= i < f6.len() implies !is_error_flag(#[trigger] f6[i]) by {}
    lemma_concat_free(f1, f2);
    lemma_concat_free(f1 + f2, f3);
    lemma_concat_free(f1 + f2 + f3, f4);
    lemma_concat_free(f1 + f2 + f3 + f4, f5);
    lemma_concat_free(f1 + f2 + f3 + f4 + f5, f6);
}

/// The command of every configuration carries exactly one error-tolerance flag:
/// `--query-errors` for an exact count and `--error-probability` for a rate,
/// never both and never neither; the value that follows it reads back as the
/// configured count or rate. Paths handed in must not themselves be one of the two
/// flag words.
#[verifier::rlimit(50)]
pub proof fn lemma_exactly_one_error_flag(
    config: FloxerConfig,
    profile: ProfileConfig,
    folder: BenchmarkInstanceFolder,
    suite: BenchmarkSuiteConfig,
)
    requires
        !is_error_flag(folder.perf_data_path@),
        !is_error_flag(folder.timing_path@),
        !is_error_flag(suite.readmapper_binaries.floxer@),
        !is_error_flag(config.reference.spec_path(&suite)),
        !is_error_flag(config.queries.spec_path(&suite)),
        !is_error_flag(folder.mapped_reads_bam_path@),
        !is_error_flag(folder.logfile_path@),
        !is_error_flag(folder.stats_path@),
    ensures
        ({
            let args = floxer_command_args(config, profile, folder, suite);
            &&& args.contains("--query-errors"@) <==> config.algorithm_config.query_errors is Exact
            &&& args.contains("--error-probability"@) <==> config.algorithm_config.query_errors is Rate
            &&& forall|i: int|
                0 <= i < args.len() && is_error_flag(#[trigger] args[i]) ==> i + 1 < args.len()
                    && match config.algorithm_config.query_errors {
                    QueryErrors::Exact(n) => crate::text::digits_value(args[i + 1]) == n,
                    QueryErrors::Rate(r) => crate::text::parse_decimal_spec(args[i + 1]) == Some(
                        crate::text::normal_form(r),
                    ),
                }
        }),
{
    lemma_reveal_error_flags();
    let c = config.algorithm_config;
    let w = match profile {
        ProfileConfig::Off => Seq::<Seq<char>>::empty(),
        ProfileConfig::On => perf_args(folder.perf_data_path@),
    } + time_args(folder.timing_path@);
    lemma_wrapper_free(profile, folder.perf_data_path@, folder.timing_path@);
    lemma_paths_free(config, folder, suite);
    lemma_values_free(c, config.queries.spec_floxer_stats_input_hint(), config.cigar_output);
    let p = seq![
        suite.readmapper_binaries.floxer@,
        "--reference"@,
        config.reference.spec_path(&suite),
        "--queries"@,
        config.queries.spec_path(&suite),
        "--output"@,
        folder.mapped_reads_bam_path@,
        "--logfile"@,
        folder.logfile_path@,
        "--stats"@,
        folder.stats_path@,
    ];
    let x = index_args(c.index_strategy, floxer_index_path(suite.spec_index_folder(), config.reference));
    let e = error_args(c.query_errors);
    let v = value_args(c);
    let t = toggle_args(c, config.queries.spec_floxer_stats_input_hint(), config.cigar_output);
    lemma_concat_free(w, p);
    lemma_concat_free(w + p, x);
    let before = w + p + x;
    lemma_concat_free(v, t);
    let after = v + t;
    let args = floxer_command_args(config, profile, folder, suite);
    assert(args =~= before + e + after);
    let k: int = before.len() as int;
    assert(args[k] == e[0]);
    assert(args[k + 1] == e[1]);
    match c.query_errors {
        QueryErrors::Exact(n) => {
            crate::text::lemma_digits(n as nat);
            assert(args[k] == "--query-errors"@);
        },
        QueryErrors::Rate(r) => {
            lemma_decimal_not_flag(r);
            crate::text::lemma_decimal_round_trip(r);
            assert(args[k] == "--error-probability"@);
        },
    }
    assert forall|i: int| 0 <= i < args.len() && i != k implies !is_error_flag(#[trigger] args[i]) by {
        if i < k {
            assert(args[i] == before[i]);
        } else if i == k + 1 {
            lemma_number_or_decimal_not_flag(c.query_errors);
        } else {
            assert(args[i] == after[i - k - 2]);
        }
    }
}

proof fn lemma_number_or_decimal_not_flag(q: QueryErrors)
    ensures
        !is_error_flag(error_args(q)[1]),
{
    match q {
        QueryErrors::Exact(n) => lemma_number_not_flag(n as nat),
        QueryErrors::Rate(r) => lemma_decimal_not_flag(r),
    }
}

/// Where a run's artifacts come from.
#[derive(Debug, Clone, Copy, PartialEq, Eq, Structural)]
pub enum RunPlan {
    /// Analyse what the most recent run left, without running anything.
    ReuseMostRecent,
    /// Run the mapper into a fresh folder.
    Execute,
}

/// Why a mapper process did not count as a success.
#[derive(Debug, Clone, Copy, PartialEq, Eq, Structural)]
pub enum RunError {
    /// The process exited with a failure status.
    ProcessFailed,
    /// The process wrote to standard output, which it never does when all is well.
    UnexpectedOutput,
}

pub open spec fn spec_plan(only_analysis: bool, previous_artifacts_exist: bool) -> RunPlan {
    if only_analysis && previous_artifacts_exist {
        RunPlan::ReuseMostRecent
    } else {
        RunPlan::Execute
    }
}

/// Whether a floxer process succeeded: it must exit successfully, and, unless a
/// profiler wrapped it, print nothing on standard output.
pub fn check_floxer_output(exit_success: bool, stdout_empty: bool, profile_config: ProfileConfig) -> (r: Result<(), RunError>)
    ensures
        r is Ok <==> exit_success && (stdout_empty || profile_config == ProfileConfig::On),
        !exit_success ==> r == Err::<(), RunError>(RunError::ProcessFailed),
        exit_success && !stdout_empty && profile_config == ProfileConfig::Off ==> r == Err::<(), RunError>(RunError::UnexpectedOutput),
{
    if !exit_success {
        Err(RunError::ProcessFailed)
    } else if !stdout_empty && profile_config == ProfileConfig::Off {
        Err(RunError::UnexpectedOutput)
    } else {
        Ok(())
    }
}

/// Whether a helper process (indexer, profiler post-processing, comparison) succeeded.
pub fn check_exit_status(exit_success: bool) -> (r: Result<(), RunError>)
    ensures
        exit_success ==> r is Ok,
        !exit_success ==> r == Err::<(), RunError>(RunError::ProcessFailed),
{
    if exit_success {
        Ok(())
    } else {
        Err(RunError::ProcessFailed)
    }
}

/// The command that turns a profiler capture into a flamegraph.
pub fn flamegraph_command(instance_folder: &BenchmarkInstanceFolder) -> (r: Invocation)
    ensures
        r.program@ == "flamegraph"@,
        r.spec_args() == seq![
            "--deterministic"@,
            "--perfdata"@,
            instance_folder.perf_data_path@,
            "--output"@,
            instance_folder.flamegraph_path@,
        ],
{
    let mut args: Vec<String> = Vec::new();
    push_arg(&mut args, "--deterministic");
    push_arg(&mut args, "--perfdata");
    push_arg(&mut args, instance_folder.perf_data_path.as_str());
    push_arg(&mut args, "--output");
    push_arg(&mut args, instance_folder.flamegraph_path.as_str());
    assert(texts(args@) =~= seq![
        "--deterministic"@,
        "--perfdata"@,
        instance_folder.perf_data_path@,
        "--output"@,
        instance_folder.flamegraph_path@,
    ]);
    Invocation { program: String::from_str("flamegraph"), args }
}

impl FloxerConfig {
    /// Reuse the most recent run's artifacts only when asked for analysis only and
    /// the most recent run holds artifacts of this instance; otherwise run floxer.
    pub fn plan_run(&self, previous_artifacts_exist: bool) -> (r: RunPlan)
        ensures
            r == spec_plan(self.only_analysis, previous_artifacts_exist),
    {
        if self.only_analysis && previous_artifacts_exist {
            RunPlan::ReuseMostRecent
        } else {
            RunPlan::Execute
        }
    }

    /// The folder this instance's artifacts are read from (and, when executing,
    /// written to).
    pub fn instance_folder(&self, benchmark_folder: &BenchmarkFolder, plan: RunPlan) -> (r: BenchmarkInstanceFolder)
        ensures
            plan == RunPlan::Execute ==> r.lies_in(join_path(benchmark_folder.folder@, self.name@), self.name@),
            plan == RunPlan::ReuseMostRecent ==> r.lies_in(
                join_path(benchmark_folder.spec_most_recent(), self.name@),
                self.name@,
            ),
    {
        match plan {
            RunPlan::Execute => BenchmarkInstanceFolder::new(benchmark_folder, self.name.as_str()),
            RunPlan::ReuseMostRecent => BenchmarkInstanceFolder::most_recent_previous_run(
                benchmark_folder,
                self.name.as_str(),
            ),
        }
    }

    /// Runs on the simulated queries against the simulated reference are also
    /// checked against the dataset's truth.
    pub fn needs_simulated_verification(&self) -> (r: bool)
        ensures
            r == (self.queries == Queries::Simulated && self.reference == Reference::Simulated),
    {
        self.queries == Queries::Simulated && self.reference == Reference::Simulated
    }
}

/// The folder that `<dir>/<name>` reaches when `dir` may be a symbolic link.
pub open spec fn resolve_through(links: Map<Seq<char>, Seq<char>>, dir: Seq<char>, name: Seq<char>) -> Seq<char> {
    if links.dom().contains(dir) {
        join_path(links[dir], name)
    } else {
        join_path(dir, name)
    }
}

/// After a run in `first` completed and moved the most-recent link, a second
/// invocation with analysis only, whose run folder shares its parent with the
/// first, finds the earlier artifacts, runs nothing, and reads its instance's
/// artifacts from the folder the first run wrote them to.
pub proof fn lemma_analysis_only_replay(
    first: BenchmarkFolder,
    second: BenchmarkFolder,
    links: Map<Seq<char>, Seq<char>>,
    instance_name: Seq<char>,
)
    requires
        first.parent@ == second.parent@,
    ensures
        ({
            let link = first.spec_most_recent();
            let after_first = apply_link_update(links, links.dom().contains(link), link, first.folder@);
            &&& second.spec_most_recent() == link
            &&& spec_plan(true, true) == RunPlan::ReuseMostRecent
            &&& resolve_through(after_first, second.spec_most_recent(), instance_name) == join_path(
                first.folder@,
                instance_name,
            )
        }),
{
}

/// One floxer instance's results: its statistics, resources and mapped reads.
#[derive(Debug)]
pub struct FloxerRunResult {
    pub benchmark_instance_name: String,
    pub stats: FloxerStats,
    pub resource_metrics: ResourceMetrics,
    pub mapped_read_stats: SimpleMappedReadsStats,
}

impl FloxerRunResult {
    /// The results of `config`'s instance, named after it.
    pub fn new(
        config: &FloxerConfig,
        stats: FloxerStats,
        resource_metrics: ResourceMetrics,
        mapped_read_stats: SimpleMappedReadsStats,
    ) -> (r: Self)
        ensures
            r.benchmark_instance_name@ == config.name@,
            r.stats == stats,
            r.resource_metrics == resource_metrics,
            r.mapped_read_stats == mapped_read_stats,
    {
        FloxerRunResult {
            benchmark_instance_name: config.name.clone(),
            stats,
            resource_metrics,
            mapped_read_stats,
        }
    }
}

} // verus!
