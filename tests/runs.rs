use floxer_benchmarks::analyze_mapped_reads::{
    analyze_alignment_records, comparison_command, verify_simulated_dataset, AlignmentRecord,
    AnalysisError, EditDistanceTag, MappingStatus, VerifiedSimulatedDataset, VerifiedSimulatedQuery,
};
use floxer_benchmarks::benchmarks::{
    default_selection, minimap, pex_seed_errors, soft_anchor_cap, threads, BatchRun, Benchmark,
    BenchmarkError, BenchmarkPlan, FloxerParameterBenchmark, SweepRun,
};
use floxer_benchmarks::cli::BenchmarkConfig;
use floxer_benchmarks::config::{BenchmarkSuiteConfig, QueryPaths, ReadmapperBinaries, ReferencePaths};
use floxer_benchmarks::folder_structure::{BenchmarkFolder, BenchmarkInstanceFolder, Timestamp};
use floxer_benchmarks::readmappers::floxer::{
    check_floxer_output, CigarOutput, FloxerAlgorithmConfig, FloxerConfig, FloxerRunResult,
    ProfileConfig, QueryErrors, RunError, RunPlan,
};
use floxer_benchmarks::readmappers::floxer_stats::{
    AlignmentStats, AnchorStatsPerQuery, AnchorStatsPerSeed, DescriptiveStats, FloxerStats,
    HistogramData, SeedStats, StatsError,
};
use floxer_benchmarks::readmappers::minimap::MinimapConfig;
use floxer_benchmarks::readmappers::{IndexStrategy, Queries, Reference, ResourceMetrics};
use floxer_benchmarks::text::Decimal;

fn suite() -> BenchmarkSuiteConfig {
    BenchmarkSuiteConfig {
        output_folder: "out".to_string(),
        compare_aligner_outputs_binary: "bin/compare".to_string(),
        simulated_dataset_binary: "bin/sim".to_string(),
        readmapper_binaries: ReadmapperBinaries { floxer: "bin/floxer".to_string(), minimap: "bin/minimap2".to_string() },
        reference_paths: ReferencePaths {
            human_genome_hg38: "ref/hg38.fa".to_string(),
            masked_human_genome_hg38: "ref/hg38_masked.fa".to_string(),
            debug: "ref/debug.fa".to_string(),
            simulated: "ref/sim.fa".to_string(),
        },
        query_paths: QueryPaths {
            human_wgs_nanopore: "q/wgs.fq".to_string(),
            human_wgs_nanopore_small: "q/wgs_small.fq".to_string(),
            debug: "q/debug.fq".to_string(),
            problem_query: "q/problem.fq".to_string(),
            simulated: "q/sim.fq".to_string(),
            simulated_small: "q/sim_small.fq".to_string(),
        },
    }
}

fn bench_config(reference: Reference) -> BenchmarkConfig {
    BenchmarkConfig { only_analysis: false, tag: None, reference, queries: Queries::HumanWgsNanopore, cigar_output: CigarOutput::Off }
}

fn folder() -> BenchmarkFolder {
    let t = Timestamp { year: 2024, month: 3, day: 9, hour: 7, minute: 30, second: 0 };
    BenchmarkFolder::new("out", "default", &bench_config(Reference::HumanGenomeHg38), &t)
}

fn scenario_config() -> FloxerConfig {
    FloxerConfig {
        name: "default".to_string(),
        reference: Reference::HumanGenomeHg38,
        queries: Queries::HumanWgsNanopore,
        only_analysis: false,
        algorithm_config: FloxerAlgorithmConfig {
            query_errors: QueryErrors::Rate(Decimal { units: 7, scale: 2 }),
            pex_seed_errors: 2,
            num_threads: 8,
            ..Default::default()
        },
        cigar_output: CigarOutput::Off,
    }
}

fn count(args: &[String], word: &str) -> usize {
    args.iter().filter(|a| a.as_str() == word).count()
}

fn value_after(args: &[String], word: &str) -> String {
    let i = args.iter().position(|a| a.as_str() == word).unwrap();
    args[i + 1].clone()
}

#[test]
fn rate_config_has_only_the_error_probability_flag() {
    let instance = BenchmarkInstanceFolder::new(&folder(), "default");
    let cmd = scenario_config().command(ProfileConfig::Off, &instance, &suite());
    assert_eq!(cmd.program, "/usr/bin/time");
    assert_eq!(count(&cmd.args, "--error-probability"), 1);
    assert_eq!(count(&cmd.args, "--query-errors"), 0);
    assert_eq!(value_after(&cmd.args, "--error-probability"), "0.07");
    assert_eq!(value_after(&cmd.args, "--seed-errors"), "2");
    assert_eq!(value_after(&cmd.args, "--threads"), "8");
    assert_eq!(value_after(&cmd.args, "--extra-verification-ratio"), "0.1");
    assert_eq!(value_after(&cmd.args, "--max-anchors-hard"), "18446744073709551615");
    assert_eq!(value_after(&cmd.args, "--index"), "out/indices/floxer-index-human_genome_hg38.flxi");
    assert_eq!(value_after(&cmd.args, "--stats-input-hint"), "real_nanopore");
    assert_eq!(count(&cmd.args, "--without-cigar"), 1);
    assert_eq!(count(&cmd.args, "--bottom-up-pex-tree"), 1);
    assert_eq!(count(&cmd.args, "--interval-optimization"), 1);
    assert_eq!(count(&cmd.args, "--direct-full-verification"), 0);
    assert_eq!(&cmd.args[0..2], &["--output".to_string(), instance.timing_path.clone()]);
    assert_eq!(cmd.args[4], "bin/floxer");
    assert_eq!(value_after(&cmd.args, "--reference"), "ref/hg38.fa");
    assert_eq!(value_after(&cmd.args, "--queries"), "q/wgs.fq");
}

#[test]
fn exact_config_has_only_the_query_errors_flag() {
    let mut config = scenario_config();
    config.algorithm_config.query_errors = QueryErrors::Exact(2);
    config.algorithm_config.index_strategy = IndexStrategy::AlwaysRebuild;
    config.queries = Queries::Debug;
    config.cigar_output = CigarOutput::On;
    let instance = BenchmarkInstanceFolder::new(&folder(), "default");
    let cmd = config.command(ProfileConfig::On, &instance, &suite());
    assert_eq!(cmd.program, "perf");
    assert_eq!(count(&cmd.args, "--query-errors"), 1);
    assert_eq!(count(&cmd.args, "--error-probability"), 0);
    assert_eq!(value_after(&cmd.args, "--query-errors"), "2");
    assert_eq!(count(&cmd.args, "--index"), 0);
    assert_eq!(count(&cmd.args, "--stats-input-hint"), 0);
    assert_eq!(count(&cmd.args, "--without-cigar"), 0);
    assert_eq!(cmd.args[0], "record");
    assert_eq!(cmd.args[9], "/usr/bin/time");
}

#[test]
fn process_output_decides_success() {
    assert_eq!(check_floxer_output(true, true, ProfileConfig::Off), Ok(()));
    assert_eq!(check_floxer_output(false, true, ProfileConfig::Off), Err(RunError::ProcessFailed));
    assert_eq!(check_floxer_output(true, false, ProfileConfig::Off), Err(RunError::UnexpectedOutput));
    assert_eq!(check_floxer_output(true, false, ProfileConfig::On), Ok(()));
}

#[test]
fn analysis_only_reuses_the_most_recent_run() {
    let mut config = scenario_config();
    assert_eq!(config.plan_run(true), RunPlan::Execute);
    config.only_analysis = true;
    assert_eq!(config.plan_run(false), RunPlan::Execute);
    assert_eq!(config.plan_run(true), RunPlan::ReuseMostRecent);
    let f = folder();
    let reused = config.instance_folder(&f, RunPlan::ReuseMostRecent);
    assert_eq!(reused.stats_path, format!("{}/default/stats.toml", f.most_recect_previous_run_folder()));
    let link = f.link_update(false);
    assert_eq!(reused.stats_path, format!("{}/default/stats.toml", link.link));
    let fresh = config.instance_folder(&f, RunPlan::Execute);
    assert_eq!(fresh.stats_path, format!("{}/default/stats.toml", link.target));
}

fn hist(thresholds: Vec<u64>, occurrences: Vec<u64>, num_values: u64) -> HistogramData {
    HistogramData::new(num_values, thresholds, occurrences, None).unwrap()
}

fn empty() -> HistogramData {
    hist(vec![], vec![0], 0)
}

#[test]
fn histogram_needs_one_more_bucket_than_thresholds() {
    let h = hist(vec![10, 20], vec![1, 2, 3], 6);
    assert_eq!(h.occurrences().len(), h.thresholds().len() + 1);
    assert!(h.counts_add_up());
    assert_eq!(
        HistogramData::new(6, vec![10, 20], vec![1, 2], None).unwrap_err(),
        StatsError::BucketCountMismatch { num_thresholds: 2, num_occurrences: 2 }
    );
    assert!(HistogramData::new(0, vec![], vec![], None).is_err());
    assert!(!hist(vec![10], vec![1, 1], 3).counts_add_up());
    assert_eq!(h.axis_names(), vec!["<= 10", "<= 20", "<= inf"]);
    assert_eq!(hist(vec![], vec![u32::MAX as u64], 1).occurrences_as_i32(), vec![-1]);
}

#[test]
fn descriptive_stats_are_ordered() {
    let ok = DescriptiveStats { min_value: 1, mean: Decimal { units: 25, scale: 1 }, max_value: 3 };
    let h = HistogramData::new(2, vec![], vec![2], Some(ok)).unwrap();
    assert!(h.stats_are_ordered());
    let at_max = DescriptiveStats { min_value: 1, mean: Decimal { units: 30, scale: 1 }, max_value: 3 };
    assert!(HistogramData::new(2, vec![], vec![2], Some(at_max)).unwrap().stats_are_ordered());
    let above = DescriptiveStats { min_value: 1, mean: Decimal { units: 31, scale: 1 }, max_value: 3 };
    assert!(!HistogramData::new(2, vec![], vec![2], Some(above)).unwrap().stats_are_ordered());
    let below = DescriptiveStats { min_value: 2, mean: Decimal { units: 19, scale: 1 }, max_value: 3 };
    assert!(!HistogramData::new(2, vec![], vec![2], Some(below)).unwrap().stats_are_ordered());
    assert!(empty().stats_are_ordered());
}

fn stats_with_query_lengths(query_lengths: HistogramData) -> FloxerStats {
    FloxerStats {
        query_lengths,
        seed_stats: SeedStats { seed_lengths: empty(), errors_per_seed: empty(), seeds_per_query: empty() },
        anchor_stats_per_query: AnchorStatsPerQuery {
            completely_excluded_queries: 0,
            fully_excluded_seeds_per_query: empty(),
            kept_anchors_per_query: empty(),
            excluded_raw_anchors_by_soft_cap_per_query: empty(),
            excluded_raw_anchors_by_erase_useless_per_query: empty(),
        },
        anchor_stats_per_seed: AnchorStatsPerSeed {
            kept_anchors_per_kept_seed: empty(),
            excluded_raw_anchors_by_soft_cap_per_kept_seed: empty(),
            excluded_raw_anchors_by_erase_useless_per_kept_seed: empty(),
        },
        alignment_stats: AlignmentStats {
            reference_span_sizes_aligned_of_inner_nodes: empty(),
            reference_span_sizes_aligned_of_roots: empty(),
            reference_span_sizes_alignment_avoided_of_roots: empty(),
        },
        alignments_per_query: empty(),
        alignments_edit_distance: empty(),
        milliseconds_spent_in_search_per_query: empty(),
        milliseconds_spent_in_verification_per_query: empty(),
    }
}

#[test]
fn end_to_end_scenario_result() {
    let config = scenario_config();
    let instance = BenchmarkInstanceFolder::new(&folder(), "default");
    let cmd = config.command(ProfileConfig::Off, &instance, &suite());
    assert_eq!(value_after(&cmd.args, "--error-probability"), "0.07");
    assert_eq!(check_floxer_output(true, true, ProfileConfig::Off), Ok(()));
    let metrics = ResourceMetrics::from_texts("12.3", "40.0", "1.0", 500000, None).unwrap();
    assert_eq!(metrics.wall_clock_seconds, Decimal { units: 123, scale: 1 });
    assert_eq!(metrics.wall_clock_seconds.to_text(), "12.3");
    assert_eq!(metrics.peak_memory_kilobytes, 500000);
    let stats = stats_with_query_lengths(hist(vec![10, 20], vec![1, 2, 3], 6));
    let mapped = analyze_alignment_records(&vec![]).unwrap();
    let result = FloxerRunResult::new(&config, stats, metrics, mapped);
    assert_eq!(result.benchmark_instance_name, "default");
    assert_eq!(result.resource_metrics.wall_clock_seconds, Decimal::parse("12.3").unwrap());
    let h = &result.stats.query_lengths;
    assert_eq!(h.occurrences().len(), 3);
    assert_eq!(h.occurrences().iter().sum::<u64>(), 6);
    assert!(ResourceMetrics::from_texts("12.3s", "40.0", "1.0", 1, None).is_none());
}

fn record(unmapped: bool, secondary: bool, supplementary: bool, nm: EditDistanceTag) -> AlignmentRecord {
    AlignmentRecord { is_unmapped: unmapped, is_secondary: secondary, is_supplementary: supplementary, edit_distance: nm }
}

#[test]
fn mapped_reads_are_counted_from_primary_records() {
    let records = vec![
        record(false, false, false, EditDistanceTag::U8(3)),
        record(false, true, false, EditDistanceTag::U8(9)),
        record(false, false, false, EditDistanceTag::I32(5)),
        record(true, false, false, EditDistanceTag::Missing),
    ];
    let stats = analyze_alignment_records(&records).unwrap();
    assert_eq!(stats.num_mapped, 2);
    assert_eq!(stats.primary_alignment_edit_distances, vec![3, 5]);
}

#[test]
fn supplementary_record_breaks_the_contract() {
    let records = vec![
        record(false, false, false, EditDistanceTag::U8(3)),
        record(false, false, true, EditDistanceTag::U8(1)),
    ];
    assert_eq!(analyze_alignment_records(&records).unwrap_err(), AnalysisError::UnexpectedSupplementaryRecord);
}

#[test]
fn edit_distance_tags_are_normalized() {
    let records = vec![
        record(false, false, false, EditDistanceTag::I8(-1)),
        record(false, false, false, EditDistanceTag::U16(60000)),
        record(false, false, false, EditDistanceTag::I16(-300)),
        record(false, false, false, EditDistanceTag::U32(u32::MAX)),
    ];
    let stats = analyze_alignment_records(&records).unwrap();
    assert_eq!(stats.primary_alignment_edit_distances, vec![-1, 60000, -300, -1]);
    let bad = vec![record(false, false, false, EditDistanceTag::Other)];
    assert_eq!(analyze_alignment_records(&bad).unwrap_err(), AnalysisError::BadEditDistanceTag);
    let missing = vec![record(false, false, false, EditDistanceTag::Missing)];
    assert_eq!(analyze_alignment_records(&missing).unwrap_err(), AnalysisError::BadEditDistanceTag);
}

fn run_result(config: &FloxerConfig) -> FloxerRunResult {
    let metrics = ResourceMetrics::from_texts("1", "1", "0", 1, None).unwrap();
    let mapped = analyze_alignment_records(&vec![]).unwrap();
    FloxerRunResult::new(config, stats_with_query_lengths(empty()), metrics, mapped)
}

#[test]
fn sweep_results_keep_configuration_order() {
    let bc = bench_config(Reference::Simulated);
    let sweep = FloxerParameterBenchmark::from_configs(
        vec!["A", "B", "C"]
            .into_iter()
            .map(|n| FloxerConfig { name: n.to_string(), ..FloxerConfig::from_benchmark_config(&bc) })
            .collect(),
        0,
    )
    .name("ordering");
    let mut run = SweepRun::new();
    let mut durations = vec![3, 1, 2].into_iter();
    while let Some(i) = run.next_instance(&sweep) {
        let _ = durations.next();
        let result = run_result(&sweep.floxer_configs[i]);
        run.record(&sweep, result, true);
    }
    assert!(run.moves_most_recent_link(&sweep));
    let result = run.finish(&sweep, folder());
    let names: Vec<&str> = result.floxer_results.iter().map(|r| r.benchmark_instance_name.as_str()).collect();
    assert_eq!(names, vec!["A", "B", "C"]);
    assert_eq!(result.benchmark_name, "ordering");
}

#[test]
fn unnamed_sweeps_are_numbered() {
    let sweep = FloxerParameterBenchmark::from_configs(vec![], 7);
    assert_eq!(sweep.benchmark_name, "benchmark_7");
    assert_eq!(sweep.with_profile().profile_config, ProfileConfig::On);
}

#[test]
fn sweeps_define_their_instances() {
    let bc = bench_config(Reference::HumanGenomeHg38);
    let t = threads(&bc);
    let names: Vec<&str> = t.floxer_configs.iter().map(|c| c.name.as_str()).collect();
    assert_eq!(names, vec!["8", "16", "24", "32"]);
    assert_eq!(t.floxer_configs[2].algorithm_config.num_threads, 24);
    let p = pex_seed_errors(&bc);
    assert_eq!(p.floxer_configs[3].name, "seed_errors_3");
    assert_eq!(p.floxer_configs[3].algorithm_config.pex_seed_errors, 3);
    let soft = soft_anchor_cap(&bc);
    assert_eq!(soft[0].benchmark_name, "soft_anchor_cap_1");
    assert_eq!(soft[1].floxer_configs[4].name, "soft_anchor_cap_100_2");
    let soft_sim = soft_anchor_cap(&bench_config(Reference::Simulated));
    assert_eq!(soft_sim[0].floxer_configs[4].algorithm_config.max_num_anchors_soft, u64::MAX);
    let m = minimap(&bc);
    assert_eq!(m.comparison_error_rate, Some(Decimal { units: 9, scale: 2 }));
    assert_eq!(m.floxer.cigar_output, CigarOutput::On);
}

#[test]
fn no_max_anchors_is_refused_on_the_human_genome() {
    let human = bench_config(Reference::HumanGenomeHg38);
    assert_eq!(Benchmark::PexSeedErrorsNoMaxAnchors.plan(&human).unwrap_err(), BenchmarkError::NoMaxAnchorsOnHumanGenome);
    let masked = bench_config(Reference::MaskedHumanGenomeHg38);
    assert!(Benchmark::PexSeedErrorsNoMaxAnchorsAndHighErrorRate.plan(&masked).is_err());
    match Benchmark::PexSeedErrorsNoMaxAnchors.plan(&bench_config(Reference::Simulated)).unwrap() {
        BenchmarkPlan::Sweeps { sweeps, .. } => assert_eq!(sweeps[0].floxer_configs.len(), 4),
        BenchmarkPlan::AgainstMinimap(_) => panic!("expected sweeps"),
    }
}

#[test]
fn default_selection_skips_two_benchmarks() {
    let all = Benchmark::all();
    let selected = default_selection();
    assert_eq!(all.len(), 23);
    assert_eq!(selected.len(), 21);
    assert!(!selected.contains(&Benchmark::VerificationAlgorithm));
    assert!(!selected.contains(&Benchmark::ProblemQuery));
    assert_eq!(selected[0], Benchmark::AnchorGroupOrderAndChoiceStrategy);
}

#[test]
fn batch_fails_after_counting_failures() {
    let mut batch = BatchRun::new();
    batch.record(true);
    assert_eq!(batch.finish(), Ok(()));
    batch.record(false);
    batch.record(false);
    assert_eq!(batch.finish(), Err(BenchmarkError::RunsFailed { num_failed: 2 }));
}

#[test]
fn minimap_commands() {
    let bc = bench_config(Reference::Debug);
    let m = MinimapConfig::from_benchmark_config(&bc);
    let f = folder();
    let instance = m.instance_folder(&f, RunPlan::Execute);
    assert_eq!(instance.folder, format!("{}/minimap", f.get()));
    let index = m.index_command(&instance, &suite());
    assert_eq!(&index.args[4..], &["bin/minimap2", "-x", "map-ont", "-d", "out/indices/minimap-index-debug-human_wgs_nanopore.mmi", "ref/debug.fa", "-t", "32"]);
    let map = m.map_command(&instance, &suite());
    assert_eq!(map.args[map.args.len() - 1], instance.mapped_reads_sam_path);
    assert!(m.should_build_index(false));
    assert!(!m.should_build_index(true));
    let rebuild = MinimapConfig { index_strategy: IndexStrategy::AlwaysRebuild, ..m };
    assert!(rebuild.should_build_index(true));
}

#[test]
fn comparison_command_passes_the_error_rate() {
    let cmd = comparison_command("a.bam", "b.sam", Decimal { units: 15, scale: 2 }, &suite());
    assert_eq!(cmd.program, "bin/compare");
    assert_eq!(cmd.args, vec!["--new", "a.bam", "--reference", "b.sam", "--error-rate", "0.15"]);
}

#[test]
fn simulated_verification_summary() {
    let q = |id: &str, status| VerifiedSimulatedQuery { id: id.to_string(), status };
    let data = VerifiedSimulatedDataset {
        queries: vec![
            q("a", MappingStatus::FoundOptimal),
            q("b", MappingStatus::NotFound),
            q("c", MappingStatus::FoundSuboptimal { pos_diff_expected_num_errors: 1, pos_diff_higher_num_errors: 2 }),
            q("d", MappingStatus::FoundOptimal),
            q("e", MappingStatus::NotFound),
        ],
    };
    let summary = verify_simulated_dataset(data);
    assert_eq!(summary.num_optimal_mapped, 2);
    let unmapped: Vec<&str> = summary.unmapped_queries.iter().map(|q| q.id.as_str()).collect();
    assert_eq!(unmapped, vec!["b", "e"]);
    let missed: Vec<&str> = summary.missed_queries().iter().map(|q| q.id.as_str()).collect();
    assert_eq!(missed, vec!["b", "e", "c"]);
}

#[test]
fn a_failed_instance_ends_the_sweep() {
    let bc = bench_config(Reference::Simulated);
    let sweep = threads(&bc);
    let mut run = SweepRun::new();
    let first = run.next_instance(&sweep).unwrap();
    run.record(&sweep, run_result(&sweep.floxer_configs[first]), true);
    assert_eq!(run.next_instance(&sweep), Some(1));
    run.record_failure();
    assert_eq!(run.next_instance(&sweep), None);
    assert_eq!(run.results.len(), 1);
    assert!(!run.moves_most_recent_link(&sweep));
}

#[test]
fn analysis_only_sweep_leaves_the_link_alone() {
    let bc = bench_config(Reference::Simulated);
    let sweep = threads(&bc);
    let mut run = SweepRun::new();
    while let Some(i) = run.next_instance(&sweep) {
        run.record(&sweep, run_result(&sweep.floxer_configs[i]), false);
    }
    assert!(!run.moves_most_recent_link(&sweep));
    assert_eq!(run.finish(&sweep, folder()).floxer_results.len(), 4);
}
