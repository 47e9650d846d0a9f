//! The benchmark sweeps, and the decisions that drive them.
use vstd::prelude::*;

use crate::cli::BenchmarkConfig;
use crate::folder_structure::BenchmarkFolder;
use crate::readmappers::floxer::{
    default_algorithm_config, AnchorChoiceStrategy, AnchorGroupOrder, CigarOutput,
    EraseUselessAnchors, FloxerAlgorithmConfig, FloxerConfig, FloxerRunResult,
    IntervalOptimization, PexTreeConstruction, QueryErrors, VerificationAlgorithm,
};
pub use crate::readmappers::floxer::ProfileConfig;
use crate::readmappers::minimap::MinimapConfig;
use crate::readmappers::{IndexStrategy, Queries, Reference};
use crate::text::{digits, join, join_path, u64_text, Decimal};

verus! {

/// A named benchmark that the command line can select.
#[derive(Debug, Clone, Copy, PartialEq, Eq, Structural)]
pub enum Benchmark {
    AnchorGroupOrderAndChoiceStrategy,
    AnchorsPerVerificationTask,
    Debug,
    DefaultParams,
    EraseUselessAnchors,
    ExtraVerificationRatio,
    IndexBuild,
    IntervalOptimization,
    MaxAnchorsHard,
    Minimap,
    MinimapHighErrorRate,
    PexSeedErrors,
    PexSeedErrorsHighErrorRate,
    PexSeedErrorsNoMaxAnchors,
    PexSeedErrorsNoMaxAnchorsAndHighErrorRate,
    PexTreeBuilding,
    ProblemQuery,
    Profile,
    QueryErrorRate,
    SeedSamplingStepSize,
    SoftAnchorCap,
    Threads,
    VerificationAlgorithm,
}

/// Why a benchmark, or a batch of them, did not complete.
#[derive(Debug, Clone, Copy, PartialEq, Eq, Structural)]
pub enum BenchmarkError {
    /// Without anchor caps the repeats of the real human genome make a run endless.
    NoMaxAnchorsOnHumanGenome,
    /// This many benchmarks of a batch failed.
    RunsFailed { num_failed: u64 },
}

pub open spec fn is_human_genome(reference: Reference) -> bool {
    reference == Reference::HumanGenomeHg38 || reference == Reference::MaskedHumanGenomeHg38
}

/// The floxer instances of one benchmark, run one after another into one folder.
#[derive(Debug)]
pub struct FloxerParameterBenchmark {
    pub floxer_configs: Vec<FloxerConfig>,
    pub benchmark_name: String,
    pub profile_config: ProfileConfig,
}

pub open spec fn instance_view(c: FloxerConfig) -> (Seq<char>, FloxerAlgorithmConfig) {
    (c.name@, c.algorithm_config)
}

pub open spec fn instance_views(configs: Seq<FloxerConfig>) -> Seq<(Seq<char>, FloxerAlgorithmConfig)> {
    configs.map_values(|c: FloxerConfig| instance_view(c))
}

/// Every instance runs on the benchmark's inputs and honours its analysis-only switch.
pub open spec fn configs_run_on(configs: Seq<FloxerConfig>, bc: BenchmarkConfig, cigar_output: CigarOutput) -> bool {
    forall|i: int|
        0 <= i < configs.len() ==> {
            &&& (#[trigger] configs[i]).reference == bc.reference
            &&& configs[i].queries == bc.queries
            &&& configs[i].only_analysis == bc.only_analysis
            &&& configs[i].cigar_output == cigar_output
        }
}

impl FloxerParameterBenchmark {
    /// Each instance's name and parameters, in run order.
    pub open spec fn spec_instances(&self) -> Seq<(Seq<char>, FloxerAlgorithmConfig)> {
        instance_views(self.floxer_configs@)
    }

    pub open spec fn runs_on(&self, bc: BenchmarkConfig, cigar_output: CigarOutput) -> bool {
        configs_run_on(self.floxer_configs@, bc, cigar_output)
    }

    /// A benchmark of the given instances, named `benchmark_<sequence number>` until
    /// it is given a name.
    pub fn from_configs(floxer_configs: Vec<FloxerConfig>, sequence_number: u64) -> (r: Self)
        ensures
            r.floxer_configs@ == floxer_configs@,
            r.benchmark_name@ == "benchmark_"@ + digits(sequence_number as nat),
            r.profile_config == ProfileConfig::Off,
    {
        let mut benchmark_name = String::from_str("benchmark_");
        let number = u64_text(sequence_number);
        benchmark_name.append(number.as_str());
        FloxerParameterBenchmark {
            floxer_configs,
            benchmark_name,
            profile_config: ProfileConfig::Off,
        }
    }

    /// The same benchmark under another name.
    pub fn name(self, benchmark_name: &str) -> (r: Self)
        ensures
            r.floxer_configs@ == self.floxer_configs@,
            r.benchmark_name@ == benchmark_name@,
            r.profile_config == self.profile_config,
    {
        FloxerParameterBenchmark {
            floxer_configs: self.floxer_configs,
            benchmark_name: String::from_str(benchmark_name),
            profile_config: self.profile_config,
        }
    }

    /// The same benchmark, profiled.
    pub fn with_profile(self) -> (r: Self)
        ensures
            r.floxer_configs@ == self.floxer_configs@,
            r.benchmark_name@ == self.benchmark_name@,
            r.profile_config == ProfileConfig::On,
    {
        FloxerParameterBenchmark {
            floxer_configs: self.floxer_configs,
            benchmark_name: self.benchmark_name,
            profile_config: ProfileConfig::On,
        }
    }
}

fn push_instance(
    configs: &mut Vec<FloxerConfig>,
    bc: &BenchmarkConfig,
    name: &str,
    algorithm_config: FloxerAlgorithmConfig,
)
    requires
        configs_run_on(old(configs)@, *bc, CigarOutput::Off),
    ensures
        instance_views(final(configs)@) == instance_views(old(configs)@).push((name@, algorithm_config)),
        configs_run_on(final(configs)@, *bc, CigarOutput::Off),
{
    let ghost before = configs@;
    configs.push(
        FloxerConfig {
            name: String::from_str(name),
            reference: bc.reference,
            queries: bc.queries,
            only_analysis: bc.only_analysis,
            algorithm_config,
            cigar_output: CigarOutput::Off,
        },
    );
    assert(instance_views(configs@) =~= instance_views(before).push((name@, algorithm_config)));
    assert(forall|i: int| 0 <= i < before.len() ==> configs@[i] == before[i]);
}

pub open spec fn anchor_group_order_and_choice_strategy_instances() -> Seq<(Seq<char>, FloxerAlgorithmConfig)> {
    seq![
        ("count_first_round_robin"@, FloxerAlgorithmConfig {
            anchor_group_order: AnchorGroupOrder::CountFirst,
            anchor_choice_strategy: AnchorChoiceStrategy::RoundRobin,
            pex_seed_errors: 3,
            ..default_algorithm_config()
        }),
        ("count_first_full_cursor"@, FloxerAlgorithmConfig {
            anchor_group_order: AnchorGroupOrder::CountFirst,
            anchor_choice_strategy: AnchorChoiceStrategy::FullCursor,
            pex_seed_errors: 3,
            ..default_algorithm_config()
        }),
        ("errors_first_round_robin"@, FloxerAlgorithmConfig {
            anchor_group_order: AnchorGroupOrder::ErrorsFirst,
            anchor_choice_strategy: AnchorChoiceStrategy::RoundRobin,
            pex_seed_errors: 3,
            ..default_algorithm_config()
        }),
        ("errors_first_full_cursor"@, FloxerAlgorithmConfig {
            anchor_group_order: AnchorGroupOrder::ErrorsFirst,
            anchor_choice_strategy: AnchorChoiceStrategy::FullCursor,
            pex_seed_errors: 3,
            ..default_algorithm_config()
        }),
        ("none_full_cursor"@, FloxerAlgorithmConfig {
            anchor_group_order: AnchorGroupOrder::Unordered,
            anchor_choice_strategy: AnchorChoiceStrategy::FullCursor,
            pex_seed_errors: 3,
            ..default_algorithm_config()
        }),
        ("none_first_reported"@, FloxerAlgorithmConfig {
            anchor_group_order: AnchorGroupOrder::Unordered,
            anchor_choice_strategy: AnchorChoiceStrategy::FirstReported,
            pex_seed_errors: 3,
            ..default_algorithm_config()
        }),
    ]
}

/// Each combination of anchor group order and anchor choice strategy, with three seed errors.
pub fn anchor_group_order_and_choice_strategy(benchmark_config: &BenchmarkConfig) -> (r: FloxerParameterBenchmark)
    ensures
        r.benchmark_name@ == "anchor_group_order_and_choice_strategy"@,
        r.profile_config == ProfileConfig::Off,
        r.spec_instances() == anchor_group_order_and_choice_strategy_instances(),
        r.runs_on(*benchmark_config, CigarOutput::Off),
{
    let mut configs: Vec<FloxerConfig> = Vec::new();
    push_instance(&mut configs, benchmark_config, "count_first_round_robin", FloxerAlgorithmConfig {
        anchor_group_order: AnchorGroupOrder::CountFirst,
        anchor_choice_strategy: AnchorChoiceStrategy::RoundRobin,
        pex_seed_errors: 3,
        ..FloxerAlgorithmConfig::default()
    });
    push_instance(&mut configs, benchmark_config, "count_first_full_cursor", FloxerAlgorithmConfig {
        anchor_group_order: AnchorGroupOrder::CountFirst,
        anchor_choice_strategy: AnchorChoiceStrategy::FullCursor,
        pex_seed_errors: 3,
        ..FloxerAlgorithmConfig::default()
    });
    push_instance(&mut configs, benchmark_config, "errors_first_round_robin", FloxerAlgorithmConfig {
        anchor_group_order: AnchorGroupOrder::ErrorsFirst,
        anchor_choice_strategy: AnchorChoiceStrategy::RoundRobin,
        pex_seed_errors: 3,
        ..FloxerAlgorithmConfig::default()
    });
    push_instance(&mut configs, benchmark_config, "errors_first_full_cursor", FloxerAlgorithmConfig {
        anchor_group_order: AnchorGroupOrder::ErrorsFirst,
        anchor_choice_strategy: AnchorChoiceStrategy::FullCursor,
        pex_seed_errors: 3,
        ..FloxerAlgorithmConfig::default()
    });
    push_instance(&mut configs, benchmark_config, "none_full_cursor", FloxerAlgorithmConfig {
        anchor_group_order: AnchorGroupOrder::Unordered,
        anchor_choice_strategy: AnchorChoiceStrategy::FullCursor,
        pex_seed_errors: 3,
        ..FloxerAlgorithmConfig::default()
    });
    push_instance(&mut configs, benchmark_config, "none_first_reported", FloxerAlgorithmConfig {
        anchor_group_order: AnchorGroupOrder::Unordered,
        anchor_choice_strategy: AnchorChoiceStrategy::FirstReported,
        pex_seed_errors: 3,
        ..FloxerAlgorithmConfig::default()
    });
    assert(instance_views(configs@) =~= anchor_group_order_and_choice_strategy_instances());
    FloxerParameterBenchmark {
        floxer_configs: configs,
        benchmark_name: String::from_str("anchor_group_order_and_choice_strategy"),
        profile_config: ProfileConfig::Off,
    }
}

pub open spec fn anchors_per_verification_task_instances() -> Seq<(Seq<char>, FloxerAlgorithmConfig)> {
    seq![
        ("1000"@, FloxerAlgorithmConfig {
            num_anchors_per_verification_task: 1000,
            ..default_algorithm_config()
        }),
        ("3000"@, FloxerAlgorithmConfig {
            num_anchors_per_verification_task: 3000,
            ..default_algorithm_config()
        }),
        ("10000"@, FloxerAlgorithmConfig {
            num_anchors_per_verification_task: 10000,
            ..default_algorithm_config()
        }),
        ("1000000000"@, FloxerAlgorithmConfig {
            num_anchors_per_verification_task: 1000000000,
            ..default_algorithm_config()
        }),
    ]
}

/// Anchors per verification task from a thousand to a billion.
pub fn anchors_per_verification_task(benchmark_config: &BenchmarkConfig) -> (r: FloxerParameterBenchmark)
    ensures
        r.benchmark_name@ == "anchors_per_verification_task"@,
        r.profile_config == ProfileConfig::Off,
        r.spec_instances() == anchors_per_verification_task_instances(),
        r.runs_on(*benchmark_config, CigarOutput::Off),
{
    let mut configs: Vec<FloxerConfig> = Vec::new();
    push_instance(&mut configs, benchmark_config, "1000", FloxerAlgorithmConfig {
        num_anchors_per_verification_task: 1000,
        ..FloxerAlgorithmConfig::default()
    });
    push_instance(&mut configs, benchmark_config, "3000", FloxerAlgorithmConfig {
        num_anchors_per_verification_task: 3000,
        ..FloxerAlgorithmConfig::default()
    });
    push_instance(&mut configs, benchmark_config, "10000", FloxerAlgorithmConfig {
        num_anchors_per_verification_task: 10000,
        ..FloxerAlgorithmConfig::default()
    });
    push_instance(&mut configs, benchmark_config, "1000000000", FloxerAlgorithmConfig {
        num_anchors_per_verification_task: 1000000000,
        ..FloxerAlgorithmConfig::default()
    });
    assert(instance_views(configs@) =~= anchors_per_verification_task_instances());
    FloxerParameterBenchmark {
        floxer_configs: configs,
        benchmark_name: String::from_str("anchors_per_verification_task"),
        profile_config: ProfileConfig::Off,
    }
}

pub open spec fn debug_benchmark_instances() -> Seq<(Seq<char>, FloxerAlgorithmConfig)> {
    seq![
        ("top_down"@, FloxerAlgorithmConfig {
            pex_tree_construction: PexTreeConstruction::TopDown,
            extra_verification_ratio: Decimal { units: 2,
            scale: 0 },
            num_threads: 1,
            pex_seed_errors: 1,
            query_errors: QueryErrors::Exact(2),
            ..default_algorithm_config()
        }),
        ("bottom_up"@, FloxerAlgorithmConfig {
            pex_tree_construction: PexTreeConstruction::BottomUp,
            extra_verification_ratio: Decimal { units: 2,
            scale: 0 },
            num_threads: 1,
            pex_seed_errors: 1,
            query_errors: QueryErrors::Exact(2),
            ..default_algorithm_config()
        }),
    ]
}

/// Both PEX tree constructions on the debug datasets, with two exact query errors, one seed error and one thread.
pub fn debug_benchmark(benchmark_config: &BenchmarkConfig) -> (r: FloxerParameterBenchmark)
    ensures
        r.benchmark_name@ == "debug"@,
        r.profile_config == ProfileConfig::Off,
        r.spec_instances() == debug_benchmark_instances(),
        r.runs_on(BenchmarkConfig { reference: Reference::Debug, queries: Queries::Debug, ..*benchmark_config }, CigarOutput::Off),
{
    let bc = benchmark_config.with_reference(Reference::Debug).with_queries(Queries::Debug);
    let mut configs: Vec<FloxerConfig> = Vec::new();
    push_instance(&mut configs, &bc, "top_down", FloxerAlgorithmConfig {
        pex_tree_construction: PexTreeConstruction::TopDown,
        extra_verification_ratio: Decimal { units: 2,
        scale: 0 },
        num_threads: 1,
        pex_seed_errors: 1,
        query_errors: QueryErrors::Exact(2),
        ..FloxerAlgorithmConfig::default()
    });
    push_instance(&mut configs, &bc, "bottom_up", FloxerAlgorithmConfig {
        pex_tree_construction: PexTreeConstruction::BottomUp,
        extra_verification_ratio: Decimal { units: 2,
        scale: 0 },
        num_threads: 1,
        pex_seed_errors: 1,
        query_errors: QueryErrors::Exact(2),
        ..FloxerAlgorithmConfig::default()
    });
    assert(instance_views(configs@) =~= debug_benchmark_instances());
    FloxerParameterBenchmark {
        floxer_configs: configs,
        benchmark_name: String::from_str("debug"),
        profile_config: ProfileConfig::Off,
    }
}

pub open spec fn default_params_instances() -> Seq<(Seq<char>, FloxerAlgorithmConfig)> {
    seq![
        ("unnamed_instance"@, default_algorithm_config()),
    ]
}

/// One instance with the default parameters.
pub fn default_params(benchmark_config: &BenchmarkConfig) -> (r: FloxerParameterBenchmark)
    ensures
        r.benchmark_name@ == "default"@,
        r.profile_config == ProfileConfig::Off,
        r.spec_instances() == default_params_instances(),
        r.runs_on(*benchmark_config, CigarOutput::Off),
{
    let mut configs: Vec<FloxerConfig> = Vec::new();
    push_instance(&mut configs, benchmark_config, "unnamed_instance", FloxerAlgorithmConfig::default());
    assert(instance_views(configs@) =~= default_params_instances());
    FloxerParameterBenchmark {
        floxer_configs: configs,
        benchmark_name: String::from_str("default"),
        profile_config: ProfileConfig::Off,
    }
}

pub open spec fn erase_useless_anchors_instances() -> Seq<(Seq<char>, FloxerAlgorithmConfig)> {
    seq![
        ("remove_locally_suboptimal_on"@, FloxerAlgorithmConfig {
            erase_useless_anchors: EraseUselessAnchors::On,
            ..default_algorithm_config()
        }),
        ("remove_locally_suboptimal_off"@, FloxerAlgorithmConfig {
            erase_useless_anchors: EraseUselessAnchors::Off,
            ..default_algorithm_config()
        }),
    ]
}

/// Erasing useless anchors on and off.
pub fn erase_useless_anchors(benchmark_config: &BenchmarkConfig) -> (r: FloxerParameterBenchmark)
    ensures
        r.benchmark_name@ == "erase_useless_anchors"@,
        r.profile_config == ProfileConfig::Off,
        r.spec_instances() == erase_useless_anchors_instances(),
        r.runs_on(*benchmark_config, CigarOutput::Off),
{
    let mut configs: Vec<FloxerConfig> = Vec::new();
    push_instance(&mut configs, benchmark_config, "remove_locally_suboptimal_on", FloxerAlgorithmConfig {
        erase_useless_anchors: EraseUselessAnchors::On,
        ..FloxerAlgorithmConfig::default()
    });
    push_instance(&mut configs, benchmark_config, "remove_locally_suboptimal_off", FloxerAlgorithmConfig {
        erase_useless_anchors: EraseUselessAnchors::Off,
        ..FloxerAlgorithmConfig::default()
    });
    assert(instance_views(configs@) =~= erase_useless_anchors_instances());
    FloxerParameterBenchmark {
        floxer_configs: configs,
        benchmark_name: String::from_str("erase_useless_anchors"),
        profile_config: ProfileConfig::Off,
    }
}

pub open spec fn extra_verification_ratio_instances() -> Seq<(Seq<char>, FloxerAlgorithmConfig)> {
    seq![
        ("0_02"@, FloxerAlgorithmConfig {
            extra_verification_ratio: Decimal { units: 2,
            scale: 2 },
            ..default_algorithm_config()
        }),
        ("0_05"@, FloxerAlgorithmConfig {
            extra_verification_ratio: Decimal { units: 5,
            scale: 2 },
            ..default_algorithm_config()
        }),
        ("0_1"@, FloxerAlgorithmConfig {
            extra_verification_ratio: Decimal { units: 1,
            scale: 1 },
            ..default_algorithm_config()
        }),
        ("0_2"@, FloxerAlgorithmConfig {
            extra_verification_ratio: Decimal { units: 2,
            scale: 1 },
            ..default_algorithm_config()
        }),
        ("0_3"@, FloxerAlgorithmConfig {
            extra_verification_ratio: Decimal { units: 3,
            scale: 1 },
            ..default_algorithm_config()
        }),
    ]
}

/// Extra verification ratios from 0.02 to 0.3.
pub fn extra_verification_ratio(benchmark_config: &BenchmarkConfig) -> (r: FloxerParameterBenchmark)
    ensures
        r.benchmark_name@ == "extra_verification_ratio"@,
        r.profile_config == ProfileConfig::Off,
        r.spec_instances() == extra_verification_ratio_instances(),
        r.runs_on(*benchmark_config, CigarOutput::Off),
{
    let mut configs: Vec<FloxerConfig> = Vec::new();
    push_instance(&mut configs, benchmark_config, "0_02", FloxerAlgorithmConfig {
        extra_verification_ratio: Decimal { units: 2,
        scale: 2 },
        ..FloxerAlgorithmConfig::default()
    });
    push_instance(&mut configs, benchmark_config, "0_05", FloxerAlgorithmConfig {
        extra_verification_ratio: Decimal { units: 5,
        scale: 2 },
        ..FloxerAlgorithmConfig::default()
    });
    push_instance(&mut configs, benchmark_config, "0_1", FloxerAlgorithmConfig {
        extra_verification_ratio: Decimal { units: 1,
        scale: 1 },
        ..FloxerAlgorithmConfig::default()
    });
    push_instance(&mut configs, benchmark_config, "0_2", FloxerAlgorithmConfig {
        extra_verification_ratio: Decimal { units: 2,
        scale: 1 },
        ..FloxerAlgorithmConfig::default()
    });
    push_instance(&mut configs, benchmark_config, "0_3", FloxerAlgorithmConfig {
        extra_verification_ratio: Decimal { units: 3,
        scale: 1 },
        ..FloxerAlgorithmConfig::default()
    });
    assert(instance_views(configs@) =~= extra_verification_ratio_instances());
    FloxerParameterBenchmark {
        floxer_configs: configs,
        benchmark_name: String::from_str("extra_verification_ratio"),
        profile_config: ProfileConfig::Off,
    }
}

pub open spec fn interval_optimization_instances() -> Seq<(Seq<char>, FloxerAlgorithmConfig)> {
    seq![
        ("interval_optimization_on"@, FloxerAlgorithmConfig {
            interval_optimization: IntervalOptimization::On,
            ..default_algorithm_config()
        }),
        ("interval_optimization_off"@, FloxerAlgorithmConfig {
            interval_optimization: IntervalOptimization::Off,
            ..default_algorithm_config()
        }),
    ]
}

/// Interval optimization on and off.
pub fn interval_optimization(benchmark_config: &BenchmarkConfig) -> (r: FloxerParameterBenchmark)
    ensures
        r.benchmark_name@ == "interval_optimization"@,
        r.profile_config == ProfileConfig::Off,
        r.spec_instances() == interval_optimization_instances(),
        r.runs_on(*benchmark_config, CigarOutput::Off),
{
    let mut configs: Vec<FloxerConfig> = Vec::new();
    push_instance(&mut configs, benchmark_config, "interval_optimization_on", FloxerAlgorithmConfig {
        interval_optimization: IntervalOptimization::On,
        ..FloxerAlgorithmConfig::default()
    });
    push_instance(&mut configs, benchmark_config, "interval_optimization_off", FloxerAlgorithmConfig {
        interval_optimization: IntervalOptimization::Off,
        ..FloxerAlgorithmConfig::default()
    });
    assert(instance_views(configs@) =~= interval_optimization_instances());
    FloxerParameterBenchmark {
        floxer_configs: configs,
        benchmark_name: String::from_str("interval_optimization"),
        profile_config: ProfileConfig::Off,
    }
}

pub open spec fn max_anchors_hard_instances() -> Seq<(Seq<char>, FloxerAlgorithmConfig)> {
    seq![
        ("hard_anchor_cap_50"@, FloxerAlgorithmConfig {
            max_num_anchors_hard: 50,
            ..default_algorithm_config()
        }),
        ("hard_anchor_cap_200"@, FloxerAlgorithmConfig {
            max_num_anchors_hard: 200,
            ..default_algorithm_config()
        }),
        ("hard_anchor_cap_1000"@, FloxerAlgorithmConfig {
            max_num_anchors_hard: 1000,
            ..default_algorithm_config()
        }),
        ("hard_anchor_cap_inf"@, FloxerAlgorithmConfig {
            max_num_anchors_hard: u64::MAX,
            ..default_algorithm_config()
        }),
    ]
}

/// Hard anchor caps of 50, 200, 1000 and none.
pub fn max_anchors_hard(benchmark_config: &BenchmarkConfig) -> (r: FloxerParameterBenchmark)
    ensures
        r.benchmark_name@ == "max_anchors_hard"@,
        r.profile_config == ProfileConfig::Off,
        r.spec_instances() == max_anchors_hard_instances(),
        r.runs_on(*benchmark_config, CigarOutput::Off),
{
    let mut configs: Vec<FloxerConfig> = Vec::new();
    push_instance(&mut configs, benchmark_config, "hard_anchor_cap_50", FloxerAlgorithmConfig {
        max_num_anchors_hard: 50,
        ..FloxerAlgorithmConfig::default()
    });
    push_instance(&mut configs, benchmark_config, "hard_anchor_cap_200", FloxerAlgorithmConfig {
        max_num_anchors_hard: 200,
        ..FloxerAlgorithmConfig::default()
    });
    push_instance(&mut configs, benchmark_config, "hard_anchor_cap_1000", FloxerAlgorithmConfig {
        max_num_anchors_hard: 1000,
        ..FloxerAlgorithmConfig::default()
    });
    push_instance(&mut configs, benchmark_config, "hard_anchor_cap_inf", FloxerAlgorithmConfig {
        max_num_anchors_hard: u64::MAX,
        ..FloxerAlgorithmConfig::default()
    });
    assert(instance_views(configs@) =~= max_anchors_hard_instances());
    FloxerParameterBenchmark {
        floxer_configs: configs,
        benchmark_name: String::from_str("max_anchors_hard"),
        profile_config: ProfileConfig::Off,
    }
}

pub open spec fn pex_seed_errors_instances() -> Seq<(Seq<char>, FloxerAlgorithmConfig)> {
    seq![
        ("seed_errors_0"@, FloxerAlgorithmConfig {
            pex_seed_errors: 0,
            ..default_algorithm_config()
        }),
        ("seed_errors_1"@, FloxerAlgorithmConfig {
            pex_seed_errors: 1,
            ..default_algorithm_config()
        }),
        ("seed_errors_2"@, FloxerAlgorithmConfig {
            pex_seed_errors: 2,
            ..default_algorithm_config()
        }),
        ("seed_errors_3"@, FloxerAlgorithmConfig {
            pex_seed_errors: 3,
            ..default_algorithm_config()
        }),
    ]
}

/// Zero to three seed errors.
pub fn pex_seed_errors(benchmark_config: &BenchmarkConfig) -> (r: FloxerParameterBenchmark)
    ensures
        r.benchmark_name@ == "pex_seed_errors"@,
        r.profile_config == ProfileConfig::Off,
        r.spec_instances() == pex_seed_errors_instances(),
        r.runs_on(*benchmark_config, CigarOutput::Off),
{
    let mut configs: Vec<FloxerConfig> = Vec::new();
    push_instance(&mut configs, benchmark_config, "seed_errors_0", FloxerAlgorithmConfig {
        pex_seed_errors: 0,
        ..FloxerAlgorithmConfig::default()
    });
    push_instance(&mut configs, benchmark_config, "seed_errors_1", FloxerAlgorithmConfig {
        pex_seed_errors: 1,
        ..FloxerAlgorithmConfig::default()
    });
    push_instance(&mut configs, benchmark_config, "seed_errors_2", FloxerAlgorithmConfig {
        pex_seed_errors: 2,
        ..FloxerAlgorithmConfig::default()
    });
    push_instance(&mut configs, benchmark_config, "seed_errors_3", FloxerAlgorithmConfig {
        pex_seed_errors: 3,
        ..FloxerAlgorithmConfig::default()
    });
    assert(instance_views(configs@) =~= pex_seed_errors_instances());
    FloxerParameterBenchmark {
        floxer_configs: configs,
        benchmark_name: String::from_str("pex_seed_errors"),
        profile_config: ProfileConfig::Off,
    }
}

pub open spec fn pex_seed_errors_high_error_rate_instances() -> Seq<(Seq<char>, FloxerAlgorithmConfig)> {
    seq![
        ("seed_errors_0"@, FloxerAlgorithmConfig {
            query_errors: QueryErrors::Rate(Decimal { units: 15,
            scale: 2 }),
            pex_seed_errors: 0,
            ..default_algorithm_config()
        }),
        ("seed_errors_1"@, FloxerAlgorithmConfig {
            query_errors: QueryErrors::Rate(Decimal { units: 15,
            scale: 2 }),
            pex_seed_errors: 1,
            ..default_algorithm_config()
        }),
        ("seed_errors_2"@, FloxerAlgorithmConfig {
            query_errors: QueryErrors::Rate(Decimal { units: 15,
            scale: 2 }),
            pex_seed_errors: 2,
            ..default_algorithm_config()
        }),
        ("seed_errors_3"@, FloxerAlgorithmConfig {
            query_errors: QueryErrors::Rate(Decimal { units: 15,
            scale: 2 }),
            pex_seed_errors: 3,
            ..default_algorithm_config()
        }),
    ]
}

/// Zero to three seed errors at a query error rate of 0.15.
pub fn pex_seed_errors_high_error_rate(benchmark_config: &BenchmarkConfig) -> (r: FloxerParameterBenchmark)
    ensures
        r.benchmark_name@ == "pex_seed_errors_high_error_rate"@,
        r.profile_config == ProfileConfig::Off,
        r.spec_instances() == pex_seed_errors_high_error_rate_instances(),
        r.runs_on(*benchmark_config, CigarOutput::Off),
{
    let mut configs: Vec<FloxerConfig> = Vec::new();
    push_instance(&mut configs, benchmark_config, "seed_errors_0", FloxerAlgorithmConfig {
        query_errors: QueryErrors::Rate(Decimal { units: 15,
        scale: 2 }),
        pex_seed_errors: 0,
        ..FloxerAlgorithmConfig::default()
    });
    push_instance(&mut configs, benchmark_config, "seed_errors_1", FloxerAlgorithmConfig {
        query_errors: QueryErrors::Rate(Decimal { units: 15,
        scale: 2 }),
        pex_seed_errors: 1,
        ..FloxerAlgorithmConfig::default()
    });
    push_instance(&mut configs, benchmark_config, "seed_errors_2", FloxerAlgorithmConfig {
        query_errors: QueryErrors::Rate(Decimal { units: 15,
        scale: 2 }),
        pex_seed_errors: 2,
        ..FloxerAlgorithmConfig::default()
    });
    push_instance(&mut configs, benchmark_config, "seed_errors_3", FloxerAlgorithmConfig {
        query_errors: QueryErrors::Rate(Decimal { units: 15,
        scale: 2 }),
        pex_seed_errors: 3,
        ..FloxerAlgorithmConfig::default()
    });
    assert(instance_views(configs@) =~= pex_seed_errors_high_error_rate_instances());
    FloxerParameterBenchmark {
        floxer_configs: configs,
        benchmark_name: String::from_str("pex_seed_errors_high_error_rate"),
        profile_config: ProfileConfig::Off,
    }
}

pub open spec fn pex_tree_building_instances() -> Seq<(Seq<char>, FloxerAlgorithmConfig)> {
    seq![
        ("top_down_1"@, FloxerAlgorithmConfig {
            pex_tree_construction: PexTreeConstruction::TopDown,
            pex_seed_errors: 1,
            query_errors: QueryErrors::Rate(Decimal { units: 15,
            scale: 2 }),
            ..default_algorithm_config()
        }),
        ("top_down_2"@, FloxerAlgorithmConfig {
            pex_tree_construction: PexTreeConstruction::TopDown,
            pex_seed_errors: 2,
            query_errors: QueryErrors::Rate(Decimal { units: 15,
            scale: 2 }),
            ..default_algorithm_config()
        }),
        ("bottom_up_1"@, FloxerAlgorithmConfig {
            pex_tree_construction: PexTreeConstruction::BottomUp,
            pex_seed_errors: 1,
            query_errors: QueryErrors::Rate(Decimal { units: 15,
            scale: 2 }),
            ..default_algorithm_config()
        }),
        ("bottom_up_2"@, FloxerAlgorithmConfig {
            pex_tree_construction: PexTreeConstruction::BottomUp,
            pex_seed_errors: 2,
            query_errors: QueryErrors::Rate(Decimal { units: 15,
            scale: 2 }),
            ..default_algorithm_config()
        }),
    ]
}

/// Both PEX tree constructions with one and two seed errors, at a query error rate of 0.15.
pub fn pex_tree_building(benchmark_config: &BenchmarkConfig) -> (r: FloxerParameterBenchmark)
    ensures
        r.benchmark_name@ == "pex_tree_building"@,
        r.profile_config == ProfileConfig::Off,
        r.spec_instances() == pex_tree_building_instances(),
        r.runs_on(*benchmark_config, CigarOutput::Off),
{
    let mut configs: Vec<FloxerConfig> = Vec::new();
    push_instance(&mut configs, benchmark_config, "top_down_1", FloxerAlgorithmConfig {
        pex_tree_construction: PexTreeConstruction::TopDown,
        pex_seed_errors: 1,
        query_errors: QueryErrors::Rate(Decimal { units: 15,
        scale: 2 }),
        ..FloxerAlgorithmConfig::default()
    });
    push_instance(&mut configs, benchmark_config, "top_down_2", FloxerAlgorithmConfig {
        pex_tree_construction: PexTreeConstruction::TopDown,
        pex_seed_errors: 2,
        query_errors: QueryErrors::Rate(Decimal { units: 15,
        scale: 2 }),
        ..FloxerAlgorithmConfig::default()
    });
    push_instance(&mut configs, benchmark_config, "bottom_up_1", FloxerAlgorithmConfig {
        pex_tree_construction: PexTreeConstruction::BottomUp,
        pex_seed_errors: 1,
        query_errors: QueryErrors::Rate(Decimal { units: 15,
        scale: 2 }),
        ..FloxerAlgorithmConfig::default()
    });
    push_instance(&mut configs, benchmark_config, "bottom_up_2", FloxerAlgorithmConfig {
        pex_tree_construction: PexTreeConstruction::BottomUp,
        pex_seed_errors: 2,
        query_errors: QueryErrors::Rate(Decimal { units: 15,
        scale: 2 }),
        ..FloxerAlgorithmConfig::default()
    });
    assert(instance_views(configs@) =~= pex_tree_building_instances());
    FloxerParameterBenchmark {
        floxer_configs: configs,
        benchmark_name: String::from_str("pex_tree_building"),
        profile_config: ProfileConfig::Off,
    }
}

pub open spec fn profile_instances() -> Seq<(Seq<char>, FloxerAlgorithmConfig)> {
    seq![
        ("unnamed_instance"@, default_algorithm_config()),
    ]
}

/// One default instance, profiled.
pub fn profile(benchmark_config: &BenchmarkConfig) -> (r: FloxerParameterBenchmark)
    ensures
        r.benchmark_name@ == "profile"@,
        r.profile_config == ProfileConfig::On,
        r.spec_instances() == profile_instances(),
        r.runs_on(*benchmark_config, CigarOutput::Off),
{
    let mut configs: Vec<FloxerConfig> = Vec::new();
    push_instance(&mut configs, benchmark_config, "unnamed_instance", FloxerAlgorithmConfig::default());
    assert(instance_views(configs@) =~= profile_instances());
    FloxerParameterBenchmark {
        floxer_configs: configs,
        benchmark_name: String::from_str("profile"),
        profile_config: ProfileConfig::On,
    }
}

pub open spec fn problem_query_instances() -> Seq<(Seq<char>, FloxerAlgorithmConfig)> {
    seq![
        ("0"@, default_algorithm_config()),
        ("1"@, default_algorithm_config()),
        ("2"@, default_algorithm_config()),
        ("3"@, default_algorithm_config()),
        ("4"@, default_algorithm_config()),
    ]
}

/// Five default runs on the problem query, profiled, to catch bugs that do not show every time.
pub fn problem_query(benchmark_config: &BenchmarkConfig) -> (r: FloxerParameterBenchmark)
    ensures
        r.benchmark_name@ == "problem_query"@,
        r.profile_config == ProfileConfig::On,
        r.spec_instances() == problem_query_instances(),
        r.runs_on(BenchmarkConfig { queries: Queries::ProblemQuery, ..*benchmark_config }, CigarOutput::Off),
{
    let bc = benchmark_config.with_queries(Queries::ProblemQuery);
    let mut configs: Vec<FloxerConfig> = Vec::new();
    push_instance(&mut configs, &bc, "0", FloxerAlgorithmConfig::default());
    push_instance(&mut configs, &bc, "1", FloxerAlgorithmConfig::default());
    push_instance(&mut configs, &bc, "2", FloxerAlgorithmConfig::default());
    push_instance(&mut configs, &bc, "3", FloxerAlgorithmConfig::default());
    push_instance(&mut configs, &bc, "4", FloxerAlgorithmConfig::default());
    assert(instance_views(configs@) =~= problem_query_instances());
    FloxerParameterBenchmark {
        floxer_configs: configs,
        benchmark_name: String::from_str("problem_query"),
        profile_config: ProfileConfig::On,
    }
}

pub open spec fn query_error_rate_instances() -> Seq<(Seq<char>, FloxerAlgorithmConfig)> {
    seq![
        ("0_05"@, FloxerAlgorithmConfig {
            query_errors: QueryErrors::Rate(Decimal { units: 5,
            scale: 2 }),
            pex_seed_errors: 2,
            ..default_algorithm_config()
        }),
        ("0_07"@, FloxerAlgorithmConfig {
            query_errors: QueryErrors::Rate(Decimal { units: 7,
            scale: 2 }),
            pex_seed_errors: 2,
            ..default_algorithm_config()
        }),
        ("0_09"@, FloxerAlgorithmConfig {
            query_errors: QueryErrors::Rate(Decimal { units: 9,
            scale: 2 }),
            pex_seed_errors: 2,
            ..default_algorithm_config()
        }),
        ("0_11"@, FloxerAlgorithmConfig {
            query_errors: QueryErrors::Rate(Decimal { units: 11,
            scale: 2 }),
            pex_seed_errors: 2,
            ..default_algorithm_config()
        }),
        ("0_13"@, FloxerAlgorithmConfig {
            query_errors: QueryErrors::Rate(Decimal { units: 13,
            scale: 2 }),
            pex_seed_errors: 2,
            ..default_algorithm_config()
        }),
        ("0_15"@, FloxerAlgorithmConfig {
            query_errors: QueryErrors::Rate(Decimal { units: 15,
            scale: 2 }),
            pex_seed_errors: 2,
            ..default_algorithm_config()
        }),
    ]
}

/// Query error rates from 0.05 to 0.15, with two seed errors.
pub fn query_error_rate(benchmark_config: &BenchmarkConfig) -> (r: FloxerParameterBenchmark)
    ensures
        r.benchmark_name@ == "query_error_rate"@,
        r.profile_config == ProfileConfig::Off,
        r.spec_instances() == query_error_rate_instances(),
        r.runs_on(*benchmark_config, CigarOutput::Off),
{
    let mut configs: Vec<FloxerConfig> = Vec::new();
    push_instance(&mut configs, benchmark_config, "0_05", FloxerAlgorithmConfig {
        query_errors: QueryErrors::Rate(Decimal { units: 5,
        scale: 2 }),
        pex_seed_errors: 2,
        ..FloxerAlgorithmConfig::default()
    });
    push_instance(&mut configs, benchmark_config, "0_07", FloxerAlgorithmConfig {
        query_errors: QueryErrors::Rate(Decimal { units: 7,
        scale: 2 }),
        pex_seed_errors: 2,
        ..FloxerAlgorithmConfig::default()
    });
    push_instance(&mut configs, benchmark_config, "0_09", FloxerAlgorithmConfig {
        query_errors: QueryErrors::Rate(Decimal { units: 9,
        scale: 2 }),
        pex_seed_errors: 2,
        ..FloxerAlgorithmConfig::default()
    });
    push_instance(&mut configs, benchmark_config, "0_11", FloxerAlgorithmConfig {
        query_errors: QueryErrors::Rate(Decimal { units: 11,
        scale: 2 }),
        pex_seed_errors: 2,
        ..FloxerAlgorithmConfig::default()
    });
    push_instance(&mut configs, benchmark_config, "0_13", FloxerAlgorithmConfig {
        query_errors: QueryErrors::Rate(Decimal { units: 13,
        scale: 2 }),
        pex_seed_errors: 2,
        ..FloxerAlgorithmConfig::default()
    });
    push_instance(&mut configs, benchmark_config, "0_15", FloxerAlgorithmConfig {
        query_errors: QueryErrors::Rate(Decimal { units: 15,
        scale: 2 }),
        pex_seed_errors: 2,
        ..FloxerAlgorithmConfig::default()
    });
    assert(instance_views(configs@) =~= query_error_rate_instances());
    FloxerParameterBenchmark {
        floxer_configs: configs,
        benchmark_name: String::from_str("query_error_rate"),
        profile_config: ProfileConfig::Off,
    }
}

pub open spec fn seed_sampling_step_size_instances() -> Seq<(Seq<char>, FloxerAlgorithmConfig)> {
    seq![
        ("1"@, FloxerAlgorithmConfig { seed_sampling_step_size: 1, ..default_algorithm_config() }),
        ("2"@, FloxerAlgorithmConfig { seed_sampling_step_size: 2, ..default_algorithm_config() }),
        ("4"@, FloxerAlgorithmConfig { seed_sampling_step_size: 4, ..default_algorithm_config() }),
        ("8"@, FloxerAlgorithmConfig { seed_sampling_step_size: 8, ..default_algorithm_config() }),
        ("16"@, FloxerAlgorithmConfig {
            seed_sampling_step_size: 16,
            ..default_algorithm_config()
        }),
    ]
}

/// Seed sampling step sizes from 1 to 16.
pub fn seed_sampling_step_size(benchmark_config: &BenchmarkConfig) -> (r: FloxerParameterBenchmark)
    ensures
        r.benchmark_name@ == "seed_sampling_step_size"@,
        r.profile_config == ProfileConfig::Off,
        r.spec_instances() == seed_sampling_step_size_instances(),
        r.runs_on(*benchmark_config, CigarOutput::Off),
{
    let mut configs: Vec<FloxerConfig> = Vec::new();
    push_instance(&mut configs, benchmark_config, "1", FloxerAlgorithmConfig {
        seed_sampling_step_size: 1,
        ..FloxerAlgorithmConfig::default()
    });
    push_instance(&mut configs, benchmark_config, "2", FloxerAlgorithmConfig {
        seed_sampling_step_size: 2,
        ..FloxerAlgorithmConfig::default()
    });
    push_instance(&mut configs, benchmark_config, "4", FloxerAlgorithmConfig {
        seed_sampling_step_size: 4,
        ..FloxerAlgorithmConfig::default()
    });
    push_instance(&mut configs, benchmark_config, "8", FloxerAlgorithmConfig {
        seed_sampling_step_size: 8,
        ..FloxerAlgorithmConfig::default()
    });
    push_instance(&mut configs, benchmark_config, "16", FloxerAlgorithmConfig {
        seed_sampling_step_size: 16,
        ..FloxerAlgorithmConfig::default()
    });
    assert(instance_views(configs@) =~= seed_sampling_step_size_instances());
    FloxerParameterBenchmark {
        floxer_configs: configs,
        benchmark_name: String::from_str("seed_sampling_step_size"),
        profile_config: ProfileConfig::Off,
    }
}

pub open spec fn threads_instances() -> Seq<(Seq<char>, FloxerAlgorithmConfig)> {
    seq![
        ("8"@, FloxerAlgorithmConfig { num_threads: 8, ..default_algorithm_config() }),
        ("16"@, FloxerAlgorithmConfig { num_threads: 16, ..default_algorithm_config() }),
        ("24"@, FloxerAlgorithmConfig { num_threads: 24, ..default_algorithm_config() }),
        ("32"@, FloxerAlgorithmConfig { num_threads: 32, ..default_algorithm_config() }),
    ]
}

/// 8 to 32 threads.
pub fn threads(benchmark_config: &BenchmarkConfig) -> (r: FloxerParameterBenchmark)
    ensures
        r.benchmark_name@ == "threads"@,
        r.profile_config == ProfileConfig::Off,
        r.spec_instances() == threads_instances(),
        r.runs_on(*benchmark_config, CigarOutput::Off),
{
    let mut configs: Vec<FloxerConfig> = Vec::new();
    push_instance(&mut configs, benchmark_config, "8", FloxerAlgorithmConfig {
        num_threads: 8,
        ..FloxerAlgorithmConfig::default()
    });
    push_instance(&mut configs, benchmark_config, "16", FloxerAlgorithmConfig {
        num_threads: 16,
        ..FloxerAlgorithmConfig::default()
    });
    push_instance(&mut configs, benchmark_config, "24", FloxerAlgorithmConfig {
        num_threads: 24,
        ..FloxerAlgorithmConfig::default()
    });
    push_instance(&mut configs, benchmark_config, "32", FloxerAlgorithmConfig {
        num_threads: 32,
        ..FloxerAlgorithmConfig::default()
    });
    assert(instance_views(configs@) =~= threads_instances());
    FloxerParameterBenchmark {
        floxer_configs: configs,
        benchmark_name: String::from_str("threads"),
        profile_config: ProfileConfig::Off,
    }
}

pub open spec fn verification_algorithm_instances() -> Seq<(Seq<char>, FloxerAlgorithmConfig)> {
    seq![
        ("direct_full"@, FloxerAlgorithmConfig {
            verification_algorithm: VerificationAlgorithm::DirectFull,
            ..default_algorithm_config()
        }),
        ("hierarchical"@, FloxerAlgorithmConfig {
            verification_algorithm: VerificationAlgorithm::Hierarchical,
            ..default_algorithm_config()
        }),
    ]
}

/// Both verification algorithms.
pub fn verification_algorithm(benchmark_config: &BenchmarkConfig) -> (r: FloxerParameterBenchmark)
    ensures
        r.benchmark_name@ == "verification_algorithm"@,
        r.profile_config == ProfileConfig::Off,
        r.spec_instances() == verification_algorithm_instances(),
        r.runs_on(*benchmark_config, CigarOutput::Off),
{
    let mut configs: Vec<FloxerConfig> = Vec::new();
    push_instance(&mut configs, benchmark_config, "direct_full", FloxerAlgorithmConfig {
        verification_algorithm: VerificationAlgorithm::DirectFull,
        ..FloxerAlgorithmConfig::default()
    });
    push_instance(&mut configs, benchmark_config, "hierarchical", FloxerAlgorithmConfig {
        verification_algorithm: VerificationAlgorithm::Hierarchical,
        ..FloxerAlgorithmConfig::default()
    });
    assert(instance_views(configs@) =~= verification_algorithm_instances());
    FloxerParameterBenchmark {
        floxer_configs: configs,
        benchmark_name: String::from_str("verification_algorithm"),
        profile_config: ProfileConfig::Off,
    }
}

pub open spec fn pex_seed_errors_no_max_anchors_instances() -> Seq<(Seq<char>, FloxerAlgorithmConfig)> {
    seq![
        ("0"@, FloxerAlgorithmConfig {
            max_num_anchors_hard: u64::MAX,
            max_num_anchors_soft: u64::MAX,
            pex_seed_errors: 0,
            ..default_algorithm_config()
        }),
        ("1"@, FloxerAlgorithmConfig {
            max_num_anchors_hard: u64::MAX,
            max_num_anchors_soft: u64::MAX,
            pex_seed_errors: 1,
            ..default_algorithm_config()
        }),
        ("2"@, FloxerAlgorithmConfig {
            max_num_anchors_hard: u64::MAX,
            max_num_anchors_soft: u64::MAX,
            pex_seed_errors: 2,
            ..default_algorithm_config()
        }),
        ("3"@, FloxerAlgorithmConfig {
            max_num_anchors_hard: u64::MAX,
            max_num_anchors_soft: u64::MAX,
            pex_seed_errors: 3,
            ..default_algorithm_config()
        }),
    ]
}

/// Zero to three seed errors without anchor caps; refused on the real human genome, whose repeats make this run for ever.
pub fn pex_seed_errors_no_max_anchors(benchmark_config: &BenchmarkConfig) -> (r: Result<FloxerParameterBenchmark, BenchmarkError>)
    ensures
        is_human_genome(benchmark_config.reference) <==> r is Err,
        r matches Err(e) ==> e == BenchmarkError::NoMaxAnchorsOnHumanGenome,
        r matches Ok(s) ==> {
            &&& s.benchmark_name@ == "pex_seed_errors_no_max_anchors"@
            &&& s.profile_config == ProfileConfig::Off
            &&& s.spec_instances() == pex_seed_errors_no_max_anchors_instances()
            &&& s.runs_on(*benchmark_config, CigarOutput::Off)
        },
{
    if benchmark_config.reference == Reference::HumanGenomeHg38
        || benchmark_config.reference == Reference::MaskedHumanGenomeHg38 {
        return Err(BenchmarkError::NoMaxAnchorsOnHumanGenome);
    }
    let mut configs: Vec<FloxerConfig> = Vec::new();
    push_instance(&mut configs, benchmark_config, "0", FloxerAlgorithmConfig {
        max_num_anchors_hard: u64::MAX,
        max_num_anchors_soft: u64::MAX,
        pex_seed_errors: 0,
        ..FloxerAlgorithmConfig::default()
    });
    push_instance(&mut configs, benchmark_config, "1", FloxerAlgorithmConfig {
        max_num_anchors_hard: u64::MAX,
        max_num_anchors_soft: u64::MAX,
        pex_seed_errors: 1,
        ..FloxerAlgorithmConfig::default()
    });
    push_instance(&mut configs, benchmark_config, "2", FloxerAlgorithmConfig {
        max_num_anchors_hard: u64::MAX,
        max_num_anchors_soft: u64::MAX,
        pex_seed_errors: 2,
        ..FloxerAlgorithmConfig::default()
    });
    push_instance(&mut configs, benchmark_config, "3", FloxerAlgorithmConfig {
        max_num_anchors_hard: u64::MAX,
        max_num_anchors_soft: u64::MAX,
        pex_seed_errors: 3,
        ..FloxerAlgorithmConfig::default()
    });
    assert(instance_views(configs@) =~= pex_seed_errors_no_max_anchors_instances());
    Ok(
        FloxerParameterBenchmark {
            floxer_configs: configs,
            benchmark_name: String::from_str("pex_seed_errors_no_max_anchors"),
            profile_config: ProfileConfig::Off,
        },
    )
}

pub open spec fn pex_seed_errors_no_max_anchors_and_high_error_rate_instances() -> Seq<(Seq<char>, FloxerAlgorithmConfig)> {
    seq![
        ("1"@, FloxerAlgorithmConfig {
            max_num_anchors_hard: u64::MAX,
            max_num_anchors_soft: u64::MAX,
            query_errors: QueryErrors::Rate(Decimal { units: 15,
            scale: 2 }),
            pex_seed_errors: 1,
            ..default_algorithm_config()
        }),
        ("2"@, FloxerAlgorithmConfig {
            max_num_anchors_hard: u64::MAX,
            max_num_anchors_soft: u64::MAX,
            query_errors: QueryErrors::Rate(Decimal { units: 15,
            scale: 2 }),
            pex_seed_errors: 2,
            ..default_algorithm_config()
        }),
        ("3"@, FloxerAlgorithmConfig {
            max_num_anchors_hard: u64::MAX,
            max_num_anchors_soft: u64::MAX,
            query_errors: QueryErrors::Rate(Decimal { units: 15,
            scale: 2 }),
            pex_seed_errors: 3,
            ..default_algorithm_config()
        }),
    ]
}

/// One to three seed errors without anchor caps at a query error rate of 0.15; refused on the real human genome.
pub fn pex_seed_errors_no_max_anchors_and_high_error_rate(benchmark_config: &BenchmarkConfig) -> (r: Result<FloxerParameterBenchmark, BenchmarkError>)
    ensures
        is_human_genome(benchmark_config.reference) <==> r is Err,
        r matches Err(e) ==> e == BenchmarkError::NoMaxAnchorsOnHumanGenome,
        r matches Ok(s) ==> {
            &&& s.benchmark_name@ == "pex_seed_errors_no_max_anchors_and_high_error_rate"@
            &&& s.profile_config == ProfileConfig::Off
            &&& s.spec_instances() == pex_seed_errors_no_max_anchors_and_high_error_rate_instances()
            &&& s.runs_on(*benchmark_config, CigarOutput::Off)
        },
{
    if benchmark_config.reference == Reference::HumanGenomeHg38
        || benchmark_config.reference == Reference::MaskedHumanGenomeHg38 {
        return Err(BenchmarkError::NoMaxAnchorsOnHumanGenome);
    }
    let mut configs: Vec<FloxerConfig> = Vec::new();
    push_instance(&mut configs, benchmark_config, "1", FloxerAlgorithmConfig {
        max_num_anchors_hard: u64::MAX,
        max_num_anchors_soft: u64::MAX,
        query_errors: QueryErrors::Rate(Decimal { units: 15,
        scale: 2 }),
        pex_seed_errors: 1,
        ..FloxerAlgorithmConfig::default()
    });
    push_instance(&mut configs, benchmark_config, "2", FloxerAlgorithmConfig {
        max_num_anchors_hard: u64::MAX,
        max_num_anchors_soft: u64::MAX,
        query_errors: QueryErrors::Rate(Decimal { units: 15,
        scale: 2 }),
        pex_seed_errors: 2,
        ..FloxerAlgorithmConfig::default()
    });
    push_instance(&mut configs, benchmark_config, "3", FloxerAlgorithmConfig {
        max_num_anchors_hard: u64::MAX,
        max_num_anchors_soft: u64::MAX,
        query_errors: QueryErrors::Rate(Decimal { units: 15,
        scale: 2 }),
        pex_seed_errors: 3,
        ..FloxerAlgorithmConfig::default()
    });
    assert(instance_views(configs@) =~= pex_seed_errors_no_max_anchors_and_high_error_rate_instances());
    Ok(
        FloxerParameterBenchmark {
            floxer_configs: configs,
            benchmark_name: String::from_str("pex_seed_errors_no_max_anchors_and_high_error_rate"),
            profile_config: ProfileConfig::Off,
        },
    )
}

/// The soft anchor caps of one sweep: 5, 10, 20, 50, and no cap on the simulated
/// reference or 100 on any other.
pub open spec fn soft_anchor_caps(reference: Reference) -> Seq<u64> {
    seq![5, 10, 20, 50, if reference == Reference::Simulated { u64::MAX } else { 100 }]
}

pub open spec fn soft_anchor_cap_instances(reference: Reference, pex_seed_errors: u8) -> Seq<(Seq<char>, FloxerAlgorithmConfig)> {
    soft_anchor_caps(reference).map_values(|cap: u64| (
        "soft_anchor_cap_"@ + digits(cap as nat) + "_"@ + digits(pex_seed_errors as nat),
        FloxerAlgorithmConfig {
            max_num_anchors_soft: cap,
            pex_seed_errors,
            ..default_algorithm_config()
        },
    ))
}

fn soft_anchor_cap_sweep(benchmark_config: &BenchmarkConfig, pex_seed_errors: u8) -> (r: FloxerParameterBenchmark)
    ensures
        r.benchmark_name@ == "soft_anchor_cap_"@ + digits(pex_seed_errors as nat),
        r.profile_config == ProfileConfig::Off,
        r.spec_instances() == soft_anchor_cap_instances(benchmark_config.reference, pex_seed_errors),
        r.runs_on(*benchmark_config, CigarOutput::Off),
{
    let last: u64 = if benchmark_config.reference == Reference::Simulated {
        u64::MAX
    } else {
        100
    };
    let caps: Vec<u64> = vec![5, 10, 20, 50, last];
    assert(caps@ =~= soft_anchor_caps(benchmark_config.reference));
    let ghost f = |cap: u64| (
        "soft_anchor_cap_"@ + digits(cap as nat) + "_"@ + digits(pex_seed_errors as nat),
        FloxerAlgorithmConfig {
            max_num_anchors_soft: cap,
            pex_seed_errors,
            ..default_algorithm_config()
        },
    );
    let seed_errors_text = u64_text(pex_seed_errors as u64);
    let mut configs: Vec<FloxerConfig> = Vec::new();
    let mut i: usize = 0;
    while i < caps.len()
        invariant
            i <= caps@.len(),
            seed_errors_text@ == digits(pex_seed_errors as nat),
            f == (|cap: u64| (
                "soft_anchor_cap_"@ + digits(cap as nat) + "_"@ + digits(pex_seed_errors as nat),
                FloxerAlgorithmConfig {
                    max_num_anchors_soft: cap,
                    pex_seed_errors,
                    ..default_algorithm_config()
                },
            )),
            instance_views(configs@) == caps@.take(i as int).map_values(f),
            configs_run_on(configs@, *benchmark_config, CigarOutput::Off),
        decreases caps@.len() - i,
    {
        let cap = caps[i];
        let mut name = String::from_str("soft_anchor_cap_");
        let cap_text = u64_text(cap);
        name.append(cap_text.as_str());
        name.append("_");
        name.append(seed_errors_text.as_str());
        let algorithm_config = FloxerAlgorithmConfig {
            max_num_anchors_soft: cap,
            pex_seed_errors,
            ..FloxerAlgorithmConfig::default()
        };
        push_instance(&mut configs, benchmark_config, name.as_str(), algorithm_config);
        proof {
            assert(f(cap) == (name@, algorithm_config));
            assert(caps@.take(i + 1) =~= caps@.take(i as int).push(cap));
            assert(caps@.take(i + 1).map_values(f) =~= caps@.take(i as int).map_values(f).push(f(cap)));
        }
        i = i + 1;
    }
    assert(caps@.take(i as int) =~= caps@);
    let mut benchmark_name = String::from_str("soft_anchor_cap_");
    benchmark_name.append(seed_errors_text.as_str());
    FloxerParameterBenchmark {
        floxer_configs: configs,
        benchmark_name,
        profile_config: ProfileConfig::Off,
    }
}

/// Soft anchor caps with one seed error, then with two.
pub fn soft_anchor_cap(benchmark_config: &BenchmarkConfig) -> (r: Vec<FloxerParameterBenchmark>)
    ensures
        r@.len() == 2,
        forall|i: int|
            0 <= i < 2 ==> {
                &&& (#[trigger] r@[i]).benchmark_name@ == "soft_anchor_cap_"@ + digits((i + 1) as nat)
                &&& r@[i].profile_config == ProfileConfig::Off
                &&& r@[i].spec_instances() == soft_anchor_cap_instances(benchmark_config.reference, (i + 1) as u8)
                &&& r@[i].runs_on(*benchmark_config, CigarOutput::Off)
            },
{
    let first = soft_anchor_cap_sweep(benchmark_config, 1);
    let second = soft_anchor_cap_sweep(benchmark_config, 2);
    let r = vec![first, second];
    r
}

/// A floxer run and a minimap run of one benchmark, measured side by side and, if
/// a comparison error rate is given, compared alignment by alignment.
#[derive(Debug)]
pub struct MinimapComparisonPlan {
    pub benchmark_name: String,
    pub benchmark_config: BenchmarkConfig,
    pub floxer: FloxerConfig,
    pub minimap: MinimapConfig,
    pub comparison_error_rate: Option<Decimal>,
}

/// Floxer and minimap building their indices from scratch, on the debug queries.
pub fn index_build(benchmark_config: &BenchmarkConfig) -> (r: MinimapComparisonPlan)
    ensures
        r.benchmark_name@ == "index_build"@,
        r.benchmark_config == (BenchmarkConfig { queries: Queries::Debug, ..*benchmark_config }),
        r.floxer.name@ == "floxer"@,
        r.floxer.reference == benchmark_config.reference,
        r.floxer.queries == Queries::Debug,
        r.floxer.only_analysis == benchmark_config.only_analysis,
        r.floxer.cigar_output == CigarOutput::Off,
        r.floxer.algorithm_config == (FloxerAlgorithmConfig {
            index_strategy: IndexStrategy::AlwaysRebuild,
            ..default_algorithm_config()
        }),
        r.minimap == (MinimapConfig {
            reference: benchmark_config.reference,
            queries: Queries::Debug,
            index_strategy: IndexStrategy::AlwaysRebuild,
            num_threads: 32,
            only_analysis: benchmark_config.only_analysis,
        }),
        r.comparison_error_rate is None,
{
    let bc = benchmark_config.with_queries(Queries::Debug);
    let mut floxer = FloxerConfig::from_benchmark_config(&bc);
    floxer.name = String::from_str("floxer");
    floxer.algorithm_config = FloxerAlgorithmConfig {
        index_strategy: IndexStrategy::AlwaysRebuild,
        ..FloxerAlgorithmConfig::default()
    };
    let mut minimap = MinimapConfig::from_benchmark_config(&bc);
    minimap.index_strategy = IndexStrategy::AlwaysRebuild;
    MinimapComparisonPlan {
        benchmark_name: String::from_str("index_build"),
        benchmark_config: bc,
        floxer,
        minimap,
        comparison_error_rate: None,
    }
}

fn against_minimap(
    benchmark_config: &BenchmarkConfig,
    benchmark_name: &str,
    floxer_name: &str,
    error_rate: Decimal,
) -> (r: MinimapComparisonPlan)
    ensures
        r.benchmark_name@ == benchmark_name@,
        r.benchmark_config == *benchmark_config,
        r.floxer.name@ == floxer_name@,
        r.floxer.reference == benchmark_config.reference,
        r.floxer.queries == benchmark_config.queries,
        r.floxer.only_analysis == benchmark_config.only_analysis,
        r.floxer.cigar_output == CigarOutput::On,
        r.floxer.algorithm_config == (FloxerAlgorithmConfig {
            query_errors: QueryErrors::Rate(error_rate),
            ..default_algorithm_config()
        }),
        r.minimap == (MinimapConfig {
            reference: benchmark_config.reference,
            queries: benchmark_config.queries,
            index_strategy: IndexStrategy::ReadFromDiskIfStored,
            num_threads: 32,
            only_analysis: benchmark_config.only_analysis,
        }),
        r.comparison_error_rate == Some(error_rate),
{
    let mut floxer = FloxerConfig::from_benchmark_config(benchmark_config);
    floxer.name = String::from_str(floxer_name);
    floxer.cigar_output = CigarOutput::On;
    floxer.algorithm_config = FloxerAlgorithmConfig {
        query_errors: QueryErrors::Rate(error_rate),
        ..FloxerAlgorithmConfig::default()
    };
    MinimapComparisonPlan {
        benchmark_name: String::from_str(benchmark_name),
        benchmark_config: BenchmarkConfig {
            only_analysis: benchmark_config.only_analysis,
            tag: crate::cli::clone_tag(&benchmark_config.tag),
            reference: benchmark_config.reference,
            queries: benchmark_config.queries,
            cigar_output: benchmark_config.cigar_output,
        },
        floxer,
        minimap: MinimapConfig::from_benchmark_config(benchmark_config),
        comparison_error_rate: Some(error_rate),
    }
}

/// Floxer with CIGAR output at the default error rate of 0.09, against minimap.
pub fn minimap(benchmark_config: &BenchmarkConfig) -> (r: MinimapComparisonPlan)
    ensures
        r.benchmark_name@ == "minimap"@,
        r.floxer.name@ == "floxer"@,
        r.comparison_error_rate == Some(Decimal { units: 9, scale: 2 }),
        r.floxer.algorithm_config == (FloxerAlgorithmConfig {
            query_errors: QueryErrors::Rate(Decimal { units: 9, scale: 2 }),
            ..default_algorithm_config()
        }),
        r.floxer.cigar_output == CigarOutput::On,
        r.minimap == (MinimapConfig {
            reference: benchmark_config.reference,
            queries: benchmark_config.queries,
            index_strategy: IndexStrategy::ReadFromDiskIfStored,
            num_threads: 32,
            only_analysis: benchmark_config.only_analysis,
        }),
{
    against_minimap(benchmark_config, "minimap", "floxer", crate::readmappers::floxer::default_error_rate())
}

/// Floxer with CIGAR output at the high error rate of 0.15, against minimap.
pub fn minimap_high_error_rate(benchmark_config: &BenchmarkConfig) -> (r: MinimapComparisonPlan)
    ensures
        r.benchmark_name@ == "minimap_high_error_rate"@,
        r.floxer.name@ == "floxer_query_error_rate_0_15"@,
        r.comparison_error_rate == Some(Decimal { units: 15, scale: 2 }),
        r.floxer.algorithm_config == (FloxerAlgorithmConfig {
            query_errors: QueryErrors::Rate(Decimal { units: 15, scale: 2 }),
            ..default_algorithm_config()
        }),
        r.floxer.cigar_output == CigarOutput::On,
        r.minimap == (MinimapConfig {
            reference: benchmark_config.reference,
            queries: benchmark_config.queries,
            index_strategy: IndexStrategy::ReadFromDiskIfStored,
            num_threads: 32,
            only_analysis: benchmark_config.only_analysis,
        }),
{
    against_minimap(
        benchmark_config,
        "minimap_high_error_rate",
        "floxer_query_error_rate_0_15",
        crate::readmappers::floxer::high_error_rate(),
    )
}

/// The two mapped-reads files that are compared: floxer's and minimap's, both
/// reached through the most-recent link of the benchmark's folder.
pub fn comparison_inputs(folder: &BenchmarkFolder, floxer_name: &str) -> (r: (String, String))
    ensures
        r.0@ == join_path(join_path(folder.spec_most_recent(), floxer_name@), "mapped_reads.bam"@),
        r.1@ == join_path(join_path(folder.spec_most_recent(), "minimap"@), "mapped_reads.sam"@),
{
    let link = folder.most_recect_previous_run_folder();
    let floxer_folder = join(link.as_str(), floxer_name);
    let minimap_folder = join(link.as_str(), "minimap");
    (join(floxer_folder.as_str(), "mapped_reads.bam"), join(minimap_folder.as_str(), "mapped_reads.sam"))
}


/// What running a benchmark amounts to.
#[derive(Debug)]
pub enum BenchmarkPlan {
    /// Floxer sweeps, run one after another on these settings.
    Sweeps { benchmark_config: BenchmarkConfig, sweeps: Vec<FloxerParameterBenchmark> },
    /// One floxer run against one minimap run.
    AgainstMinimap(MinimapComparisonPlan),
}

fn copy_config(bc: &BenchmarkConfig) -> (r: BenchmarkConfig)
    ensures
        r == *bc,
{
    BenchmarkConfig {
        only_analysis: bc.only_analysis,
        tag: crate::cli::clone_tag(&bc.tag),
        reference: bc.reference,
        queries: bc.queries,
        cigar_output: bc.cigar_output,
    }
}

impl Benchmark {
    /// Every benchmark, in declaration order.
    pub fn all() -> (r: Vec<Benchmark>)
        ensures
            r@ == seq![Benchmark::AnchorGroupOrderAndChoiceStrategy, Benchmark::AnchorsPerVerificationTask, Benchmark::Debug, Benchmark::DefaultParams, Benchmark::EraseUselessAnchors, Benchmark::ExtraVerificationRatio, Benchmark::IndexBuild, Benchmark::IntervalOptimization, Benchmark::MaxAnchorsHard, Benchmark::Minimap, Benchmark::MinimapHighErrorRate, Benchmark::PexSeedErrors, Benchmark::PexSeedErrorsHighErrorRate, Benchmark::PexSeedErrorsNoMaxAnchors, Benchmark::PexSeedErrorsNoMaxAnchorsAndHighErrorRate, Benchmark::PexTreeBuilding, Benchmark::ProblemQuery, Benchmark::Profile, Benchmark::QueryErrorRate, Benchmark::SeedSamplingStepSize, Benchmark::SoftAnchorCap, Benchmark::Threads, Benchmark::VerificationAlgorithm],
    {
        vec![Benchmark::AnchorGroupOrderAndChoiceStrategy, Benchmark::AnchorsPerVerificationTask, Benchmark::Debug, Benchmark::DefaultParams, Benchmark::EraseUselessAnchors, Benchmark::ExtraVerificationRatio, Benchmark::IndexBuild, Benchmark::IntervalOptimization, Benchmark::MaxAnchorsHard, Benchmark::Minimap, Benchmark::MinimapHighErrorRate, Benchmark::PexSeedErrors, Benchmark::PexSeedErrorsHighErrorRate, Benchmark::PexSeedErrorsNoMaxAnchors, Benchmark::PexSeedErrorsNoMaxAnchorsAndHighErrorRate, Benchmark::PexTreeBuilding, Benchmark::ProblemQuery, Benchmark::Profile, Benchmark::QueryErrorRate, Benchmark::SeedSamplingStepSize, Benchmark::SoftAnchorCap, Benchmark::Threads, Benchmark::VerificationAlgorithm]
    }

    /// What the benchmark runs on these settings; the anchor-cap-free benchmarks
    /// refuse the real human genome.
    pub fn plan(&self, benchmark_config: &BenchmarkConfig) -> (r: Result<BenchmarkPlan, BenchmarkError>)
        ensures
            r is Err <==> ((*self == Benchmark::PexSeedErrorsNoMaxAnchors
                || *self == Benchmark::PexSeedErrorsNoMaxAnchorsAndHighErrorRate) && is_human_genome(
                benchmark_config.reference,
            )),
            r matches Err(e) ==> e == BenchmarkError::NoMaxAnchorsOnHumanGenome,
            *self == Benchmark::AnchorGroupOrderAndChoiceStrategy ==> (r matches Ok(BenchmarkPlan::Sweeps { benchmark_config: c, sweeps })
                && c == *benchmark_config && sweeps@.len() == 1 && sweeps@[0].spec_instances() == anchor_group_order_and_choice_strategy_instances()),
            *self == Benchmark::AnchorsPerVerificationTask ==> (r matches Ok(BenchmarkPlan::Sweeps { benchmark_config: c, sweeps })
                && c == *benchmark_config && sweeps@.len() == 1 && sweeps@[0].spec_instances() == anchors_per_verification_task_instances()),
            *self == Benchmark::DefaultParams ==> (r matches Ok(BenchmarkPlan::Sweeps { benchmark_config: c, sweeps })
                && c == *benchmark_config && sweeps@.len() == 1 && sweeps@[0].spec_instances() == default_params_instances()),
            *self == Benchmark::EraseUselessAnchors ==> (r matches Ok(BenchmarkPlan::Sweeps { benchmark_config: c, sweeps })
                && c == *benchmark_config && sweeps@.len() == 1 && sweeps@[0].spec_instances() == erase_useless_anchors_instances()),
            *self == Benchmark::ExtraVerificationRatio ==> (r matches Ok(BenchmarkPlan::Sweeps { benchmark_config: c, sweeps })
                && c == *benchmark_config && sweeps@.len() == 1 && sweeps@[0].spec_instances() == extra_verification_ratio_instances()),
            *self == Benchmark::IntervalOptimization ==> (r matches Ok(BenchmarkPlan::Sweeps { benchmark_config: c, sweeps })
                && c == *benchmark_config && sweeps@.len() == 1 && sweeps@[0].spec_instances() == interval_optimization_instances()),
            *self == Benchmark::MaxAnchorsHard ==> (r matches Ok(BenchmarkPlan::Sweeps { benchmark_config: c, sweeps })
                && c == *benchmark_config && sweeps@.len() == 1 && sweeps@[0].spec_instances() == max_anchors_hard_instances()),
            *self == Benchmark::PexSeedErrors ==> (r matches Ok(BenchmarkPlan::Sweeps { benchmark_config: c, sweeps })
                && c == *benchmark_config && sweeps@.len() == 1 && sweeps@[0].spec_instances() == pex_seed_errors_instances()),
            *self == Benchmark::PexSeedErrorsHighErrorRate ==> (r matches Ok(BenchmarkPlan::Sweeps { benchmark_config: c, sweeps })
                && c == *benchmark_config && sweeps@.len() == 1 && sweeps@[0].spec_instances() == pex_seed_errors_high_error_rate_instances()),
            *self == Benchmark::PexTreeBuilding ==> (r matches Ok(BenchmarkPlan::Sweeps { benchmark_config: c, sweeps })
                && c == *benchmark_config && sweeps@.len() == 1 && sweeps@[0].spec_instances() == pex_tree_building_instances()),
            *self == Benchmark::Profile ==> (r matches Ok(BenchmarkPlan::Sweeps { benchmark_config: c, sweeps })
                && c == *benchmark_config && sweeps@.len() == 1 && sweeps@[0].spec_instances() == profile_instances()),
            *self == Benchmark::QueryErrorRate ==> (r matches Ok(BenchmarkPlan::Sweeps { benchmark_config: c, sweeps })
                && c == *benchmark_config && sweeps@.len() == 1 && sweeps@[0].spec_instances() == query_error_rate_instances()),
            *self == Benchmark::SeedSamplingStepSize ==> (r matches Ok(BenchmarkPlan::Sweeps { benchmark_config: c, sweeps })
                && c == *benchmark_config && sweeps@.len() == 1 && sweeps@[0].spec_instances() == seed_sampling_step_size_instances()),
            *self == Benchmark::Threads ==> (r matches Ok(BenchmarkPlan::Sweeps { benchmark_config: c, sweeps })
                && c == *benchmark_config && sweeps@.len() == 1 && sweeps@[0].spec_instances() == threads_instances()),
            *self == Benchmark::VerificationAlgorithm ==> (r matches Ok(BenchmarkPlan::Sweeps { benchmark_config: c, sweeps })
                && c == *benchmark_config && sweeps@.len() == 1 && sweeps@[0].spec_instances() == verification_algorithm_instances()),
            *self == Benchmark::PexSeedErrorsNoMaxAnchors && !is_human_genome(benchmark_config.reference)
                ==> (r matches Ok(BenchmarkPlan::Sweeps { benchmark_config: c, sweeps }) && c == *benchmark_config
                && sweeps@.len() == 1 && sweeps@[0].spec_instances() == pex_seed_errors_no_max_anchors_instances()),
            *self == Benchmark::PexSeedErrorsNoMaxAnchorsAndHighErrorRate && !is_human_genome(benchmark_config.reference)
                ==> (r matches Ok(BenchmarkPlan::Sweeps { benchmark_config: c, sweeps }) && c == *benchmark_config
                && sweeps@.len() == 1 && sweeps@[0].spec_instances() == pex_seed_errors_no_max_anchors_and_high_error_rate_instances()),
            *self == Benchmark::Debug ==> (r matches Ok(BenchmarkPlan::Sweeps { benchmark_config: c, sweeps })
                && c == (BenchmarkConfig { reference: Reference::Debug, queries: Queries::Debug, ..*benchmark_config })
                && sweeps@.len() == 1 && sweeps@[0].spec_instances() == debug_benchmark_instances()),
            *self == Benchmark::ProblemQuery ==> (r matches Ok(BenchmarkPlan::Sweeps { benchmark_config: c, sweeps })
                && c == (BenchmarkConfig { queries: Queries::ProblemQuery, ..*benchmark_config })
                && sweeps@.len() == 1 && sweeps@[0].spec_instances() == problem_query_instances()),
            *self == Benchmark::SoftAnchorCap ==> (r matches Ok(BenchmarkPlan::Sweeps { benchmark_config: c, sweeps })
                && c == *benchmark_config && sweeps@.len() == 2
                && sweeps@[0].spec_instances() == soft_anchor_cap_instances(benchmark_config.reference, 1)
                && sweeps@[1].spec_instances() == soft_anchor_cap_instances(benchmark_config.reference, 2)),
            *self == Benchmark::IndexBuild ==> (r matches Ok(BenchmarkPlan::AgainstMinimap(p)) && p.benchmark_name@ == "index_build"@
                && p.comparison_error_rate is None),
            *self == Benchmark::Minimap ==> (r matches Ok(BenchmarkPlan::AgainstMinimap(p)) && p.benchmark_name@ == "minimap"@
                && p.comparison_error_rate == Some(Decimal { units: 9, scale: 2 })),
            *self == Benchmark::MinimapHighErrorRate ==> (r matches Ok(BenchmarkPlan::AgainstMinimap(p)) && p.benchmark_name@ == "minimap_high_error_rate"@
                && p.comparison_error_rate == Some(Decimal { units: 15, scale: 2 })),
    {
        match *self {
            Benchmark::AnchorGroupOrderAndChoiceStrategy => Ok(BenchmarkPlan::Sweeps { benchmark_config: copy_config(benchmark_config), sweeps: vec![anchor_group_order_and_choice_strategy(benchmark_config)] }),
            Benchmark::AnchorsPerVerificationTask => Ok(BenchmarkPlan::Sweeps { benchmark_config: copy_config(benchmark_config), sweeps: vec![anchors_per_verification_task(benchmark_config)] }),
            Benchmark::DefaultParams => Ok(BenchmarkPlan::Sweeps { benchmark_config: copy_config(benchmark_config), sweeps: vec![default_params(benchmark_config)] }),
            Benchmark::EraseUselessAnchors => Ok(BenchmarkPlan::Sweeps { benchmark_config: copy_config(benchmark_config), sweeps: vec![erase_useless_anchors(benchmark_config)] }),
            Benchmark::ExtraVerificationRatio => Ok(BenchmarkPlan::Sweeps { benchmark_config: copy_config(benchmark_config), sweeps: vec![extra_verification_ratio(benchmark_config)] }),
            Benchmark::IntervalOptimization => Ok(BenchmarkPlan::Sweeps { benchmark_config: copy_config(benchmark_config), sweeps: vec![interval_optimization(benchmark_config)] }),
            Benchmark::MaxAnchorsHard => Ok(BenchmarkPlan::Sweeps { benchmark_config: copy_config(benchmark_config), sweeps: vec![max_anchors_hard(benchmark_config)] }),
            Benchmark::PexSeedErrors => Ok(BenchmarkPlan::Sweeps { benchmark_config: copy_config(benchmark_config), sweeps: vec![pex_seed_errors(benchmark_config)] }),
            Benchmark::PexSeedErrorsHighErrorRate => Ok(BenchmarkPlan::Sweeps { benchmark_config: copy_config(benchmark_config), sweeps: vec![pex_seed_errors_high_error_rate(benchmark_config)] }),
            Benchmark::PexTreeBuilding => Ok(BenchmarkPlan::Sweeps { benchmark_config: copy_config(benchmark_config), sweeps: vec![pex_tree_building(benchmark_config)] }),
            Benchmark::Profile => Ok(BenchmarkPlan::Sweeps { benchmark_config: copy_config(benchmark_config), sweeps: vec![profile(benchmark_config)] }),
            Benchmark::QueryErrorRate => Ok(BenchmarkPlan::Sweeps { benchmark_config: copy_config(benchmark_config), sweeps: vec![query_error_rate(benchmark_config)] }),
            Benchmark::SeedSamplingStepSize => Ok(BenchmarkPlan::Sweeps { benchmark_config: copy_config(benchmark_config), sweeps: vec![seed_sampling_step_size(benchmark_config)] }),
            Benchmark::Threads => Ok(BenchmarkPlan::Sweeps { benchmark_config: copy_config(benchmark_config), sweeps: vec![threads(benchmark_config)] }),
            Benchmark::VerificationAlgorithm => Ok(BenchmarkPlan::Sweeps { benchmark_config: copy_config(benchmark_config), sweeps: vec![verification_algorithm(benchmark_config)] }),
            Benchmark::Debug => Ok(BenchmarkPlan::Sweeps {
                benchmark_config: benchmark_config.with_reference(Reference::Debug).with_queries(Queries::Debug),
                sweeps: vec![debug_benchmark(benchmark_config)],
            }),
            Benchmark::ProblemQuery => Ok(BenchmarkPlan::Sweeps {
                benchmark_config: benchmark_config.with_queries(Queries::ProblemQuery),
                sweeps: vec![problem_query(benchmark_config)],
            }),
            Benchmark::PexSeedErrorsNoMaxAnchors => match pex_seed_errors_no_max_anchors(benchmark_config) {
                Ok(sweep) => Ok(BenchmarkPlan::Sweeps { benchmark_config: copy_config(benchmark_config), sweeps: vec![sweep] }),
                Err(e) => Err(e),
            },
            Benchmark::PexSeedErrorsNoMaxAnchorsAndHighErrorRate => match pex_seed_errors_no_max_anchors_and_high_error_rate(benchmark_config) {
                Ok(sweep) => Ok(BenchmarkPlan::Sweeps { benchmark_config: copy_config(benchmark_config), sweeps: vec![sweep] }),
                Err(e) => Err(e),
            },
            Benchmark::SoftAnchorCap => Ok(BenchmarkPlan::Sweeps {
                benchmark_config: copy_config(benchmark_config),
                sweeps: soft_anchor_cap(benchmark_config),
            }),
            Benchmark::IndexBuild => Ok(BenchmarkPlan::AgainstMinimap(index_build(benchmark_config))),
            Benchmark::Minimap => Ok(BenchmarkPlan::AgainstMinimap(minimap(benchmark_config))),
            Benchmark::MinimapHighErrorRate => Ok(BenchmarkPlan::AgainstMinimap(minimap_high_error_rate(benchmark_config))),
        }
    }
}

/// The benchmarks a run without a selection runs: all but the verification
/// algorithm and the problem query, in declaration order.
pub fn default_selection() -> (r: Vec<Benchmark>)
    ensures
        r@ == Benchmark::all_spec().filter(|b: Benchmark| b != Benchmark::VerificationAlgorithm && b != Benchmark::ProblemQuery),
{
    let all = Benchmark::all();
    let ghost keep = |b: Benchmark| b != Benchmark::VerificationAlgorithm && b != Benchmark::ProblemQuery;
    let mut r: Vec<Benchmark> = Vec::new();
    let mut i: usize = 0;
    while i < all.len()
        invariant
            i <= all@.len(),
            all@ == Benchmark::all_spec(),
            keep == (|b: Benchmark| b != Benchmark::VerificationAlgorithm && b != Benchmark::ProblemQuery),
            r@ == all@.take(i as int).filter(keep),
        decreases all@.len() - i,
    {
        let b = all[i];
        proof {
            assert(all@.take(i + 1).drop_last() =~= all@.take(i as int));
            reveal(Seq::filter);
        }
        if b != Benchmark::VerificationAlgorithm && b != Benchmark::ProblemQuery {
            r.push(b);
        }
        i = i + 1;
    }
    assert(all@.take(i as int) =~= all@);
    r
}

impl Benchmark {
    pub open spec fn all_spec() -> Seq<Benchmark> {
        seq![Benchmark::AnchorGroupOrderAndChoiceStrategy, Benchmark::AnchorsPerVerificationTask, Benchmark::Debug, Benchmark::DefaultParams, Benchmark::EraseUselessAnchors, Benchmark::ExtraVerificationRatio, Benchmark::IndexBuild, Benchmark::IntervalOptimization, Benchmark::MaxAnchorsHard, Benchmark::Minimap, Benchmark::MinimapHighErrorRate, Benchmark::PexSeedErrors, Benchmark::PexSeedErrorsHighErrorRate, Benchmark::PexSeedErrorsNoMaxAnchors, Benchmark::PexSeedErrorsNoMaxAnchorsAndHighErrorRate, Benchmark::PexTreeBuilding, Benchmark::ProblemQuery, Benchmark::Profile, Benchmark::QueryErrorRate, Benchmark::SeedSamplingStepSize, Benchmark::SoftAnchorCap, Benchmark::Threads, Benchmark::VerificationAlgorithm]
    }
}

/// The results of one floxer sweep, in the order its instances ran.
#[derive(Debug)]
pub struct BenchmarkResult {
    pub benchmark_name: String,
    pub folder: BenchmarkFolder,
    pub floxer_results: Vec<FloxerRunResult>,
}

/// Progress through one sweep. Instances run strictly one after another in the
/// order given; the first instance that fails ends the sweep, and its error is the
/// sweep's. The most-recent link is pointed at the sweep's folder only after every
/// instance has succeeded, and only if some instance actually ran.
pub struct SweepRun {
    pub results: Vec<FloxerRunResult>,
    /// Some instance ran its mapper rather than reusing earlier artifacts.
    pub ran_any: bool,
    /// An instance failed, which ended the sweep.
    pub failed: bool,
}

impl SweepRun {
    /// Each result so far belongs to the instance at its position.
    pub open spec fn in_order(&self, sweep: &FloxerParameterBenchmark) -> bool {
        &&& self.results@.len() <= sweep.floxer_configs@.len()
        &&& forall|i: int|
            0 <= i < self.results@.len() ==> (#[trigger] self.results@[i]).benchmark_instance_name@
                == sweep.floxer_configs@[i].name@
    }

    pub fn new() -> (r: Self)
        ensures
            r.results@.len() == 0,
            !r.ran_any,
            !r.failed,
    {
        SweepRun { results: Vec::new(), ran_any: false, failed: false }
    }

    /// The position of the instance to run next, or `None` once all have run or
    /// one has failed.
    pub fn next_instance(&self, sweep: &FloxerParameterBenchmark) -> (r: Option<usize>)
        ensures
            r == (if !self.failed && self.results@.len() < sweep.floxer_configs@.len() {
                Some(self.results@.len() as usize)
            } else {
                None::<usize>
            }),
    {
        if !self.failed && self.results.len() < sweep.floxer_configs.len() {
            Some(self.results.len())
        } else {
            None
        }
    }

    /// Takes the result of the instance that ran next; `ran` tells whether its
    /// mapper ran or earlier artifacts were analysed.
    pub fn record(&mut self, sweep: &FloxerParameterBenchmark, result: FloxerRunResult, ran: bool)
        requires
            old(self).in_order(sweep),
            old(self).results@.len() < sweep.floxer_configs@.len(),
            result.benchmark_instance_name@ == sweep.floxer_configs@[old(self).results@.len() as int].name@,
        ensures
            final(self).results@ == old(self).results@.push(result),
            final(self).ran_any == (old(self).ran_any || ran),
            final(self).failed == old(self).failed,
            final(self).in_order(sweep),
    {
        self.results.push(result);
        self.ran_any = self.ran_any || ran;
    }

    /// Notes that the instance that ran next failed: no further instance runs.
    pub fn record_failure(&mut self)
        ensures
            final(self).results@ == old(self).results@,
            final(self).ran_any == old(self).ran_any,
            final(self).failed,
    {
        self.failed = true;
    }

    /// Whether the completed sweep moves the most-recent link to its folder.
    pub fn moves_most_recent_link(&self, sweep: &FloxerParameterBenchmark) -> (r: bool)
        ensures
            r == (!self.failed && self.ran_any && self.results@.len() == sweep.floxer_configs@.len()),
    {
        !self.failed && self.ran_any && self.results.len() == sweep.floxer_configs.len()
    }

    /// The sweep's results once every instance has run: one per instance, in the
    /// instances' order.
    pub fn finish(self, sweep: &FloxerParameterBenchmark, folder: BenchmarkFolder) -> (r: BenchmarkResult)
        requires
            self.in_order(sweep),
            self.results@.len() == sweep.floxer_configs@.len(),
        ensures
            r.benchmark_name@ == sweep.benchmark_name@,
            r.folder == folder,
            r.floxer_results@ == self.results@,
            r.floxer_results@.len() == sweep.floxer_configs@.len(),
            forall|i: int|
                0 <= i < r.floxer_results@.len() ==> (#[trigger] r.floxer_results@[i]).benchmark_instance_name@
                    == sweep.floxer_configs@[i].name@,
    {
        BenchmarkResult {
            benchmark_name: sweep.benchmark_name.clone(),
            folder,
            floxer_results: self.results,
        }
    }
}

/// Progress through a batch of benchmarks: a failing benchmark is counted and the
/// batch goes on; the batch fails at the end if any benchmark failed.
pub struct BatchRun {
    pub num_failed: u64,
}

impl BatchRun {
    pub fn new() -> (r: Self)
        ensures
            r.num_failed == 0,
    {
        BatchRun { num_failed: 0 }
    }

    /// Counts one finished benchmark.
    pub fn record(&mut self, succeeded: bool)
        requires
            old(self).num_failed < u64::MAX,
        ensures
            final(self).num_failed == old(self).num_failed + if succeeded { 0int } else { 1int },
    {
        if !succeeded {
            self.num_failed = self.num_failed + 1;
        }
    }

    /// `Ok` if every benchmark succeeded, else how many failed.
    pub fn finish(&self) -> (r: Result<(), BenchmarkError>)
        ensures
            self.num_failed == 0 <==> r is Ok,
            self.num_failed > 0 ==> r == Err::<(), BenchmarkError>(BenchmarkError::RunsFailed { num_failed: self.num_failed }),
    {
        if self.num_failed == 0 {
            Ok(())
        } else {
            Err(BenchmarkError::RunsFailed { num_failed: self.num_failed })
        }
    }
}

} // verus!
