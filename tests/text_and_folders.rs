use floxer_benchmarks::cli::BenchmarkConfig;
use floxer_benchmarks::folder_structure::{BenchmarkFolder, BenchmarkInstanceFolder, Timestamp};
use floxer_benchmarks::readmappers::floxer::CigarOutput;
use floxer_benchmarks::readmappers::{Queries, Reference};
use floxer_benchmarks::text::{join, padded_text, u64_text, Decimal};

fn config(tag: Option<&str>) -> BenchmarkConfig {
    BenchmarkConfig {
        only_analysis: false,
        tag: tag.map(String::from),
        reference: Reference::HumanGenomeHg38,
        queries: Queries::HumanWgsNanopore,
        cigar_output: CigarOutput::Off,
    }
}

fn at(second: u8) -> Timestamp {
    Timestamp { year: 2024, month: 3, day: 9, hour: 7, minute: 30, second }
}

#[test]
fn numbers_are_written_in_decimal() {
    assert_eq!(u64_text(0), "0");
    assert_eq!(u64_text(500000), "500000");
    assert_eq!(u64_text(u64::MAX), "18446744073709551615");
    assert_eq!(padded_text(7, 2), "07");
    assert_eq!(padded_text(2024, 4), "2024");
}

#[test]
fn decimals_are_written_in_shortest_form() {
    assert_eq!(Decimal { units: 7, scale: 2 }.to_text(), "0.07");
    assert_eq!(Decimal { units: 123, scale: 1 }.to_text(), "12.3");
    assert_eq!(Decimal { units: 200, scale: 2 }.to_text(), "2");
    assert_eq!(Decimal { units: 10, scale: 2 }.to_text(), "0.1");
    assert_eq!(Decimal { units: 15, scale: 0 }.to_text(), "15");
}

#[test]
fn decimals_are_read_back() {
    assert_eq!(Decimal::parse("12.3"), Some(Decimal { units: 123, scale: 1 }));
    assert_eq!(Decimal::parse("40.0"), Some(Decimal { units: 400, scale: 1 }));
    assert_eq!(Decimal::parse("500000"), Some(Decimal { units: 500000, scale: 0 }));
    assert_eq!(Decimal::parse("0.07"), Some(Decimal { units: 7, scale: 2 }));
    assert_eq!(Decimal::parse(""), None);
    assert_eq!(Decimal::parse("1."), None);
    assert_eq!(Decimal::parse(".5"), None);
    assert_eq!(Decimal::parse("1.2.3"), None);
    assert_eq!(Decimal::parse("-1"), None);
    assert_eq!(Decimal::parse("18446744073709551616"), None);
    for d in [Decimal { units: 9, scale: 2 }, Decimal { units: 1500, scale: 3 }, Decimal { units: 0, scale: 4 }] {
        assert_eq!(Decimal::parse(&d.to_text()), Some(d.normalized()));
    }
}

#[test]
fn paths_are_joined_with_one_slash() {
    assert_eq!(join("out", "indices"), "out/indices");
    assert_eq!(join("out/", "indices"), "out/indices");
    assert_eq!(join("", "indices"), "indices");
}

#[test]
fn timestamps_name_folders() {
    assert_eq!(at(0).to_text(), "2024-03-09--07-30-00");
    let early = Timestamp { year: -44, month: 12, day: 31, hour: 23, minute: 59, second: 59 };
    assert_eq!(early.to_text(), "-0044-12-31--23-59-59");
}

#[test]
fn run_folder_path_is_deterministic() {
    let a = BenchmarkFolder::new("out", "threads", &config(None), &at(0));
    let b = BenchmarkFolder::new("out", "threads", &config(None), &at(0));
    assert_eq!(a.get(), "out/threads/human_wgs_nanopore_in_human_genome_hg38/2024-03-09--07-30-00");
    assert_eq!(a.get(), b.get());
    let tagged = BenchmarkFolder::new("out", "threads", &config(Some("try")), &at(0));
    assert_eq!(tagged.get(), "out/threads/human_wgs_nanopore_in_human_genome_hg38/2024-03-09--07-30-00_try");
}

#[test]
fn run_folders_of_different_times_differ() {
    let a = BenchmarkFolder::new("out", "threads", &config(None), &at(0));
    let b = BenchmarkFolder::new("out", "threads", &config(None), &at(1));
    assert_ne!(a.get(), b.get());
    assert_eq!(a.most_recect_previous_run_folder(), b.most_recect_previous_run_folder());
}

#[test]
fn most_recent_link_sits_beside_the_runs() {
    let a = BenchmarkFolder::new("out", "threads", &config(None), &at(0));
    assert_eq!(a.most_recect_previous_run_folder(), "out/threads/human_wgs_nanopore_in_human_genome_hg38/most_recent");
    assert_eq!(a.plot_folder(), "out/threads/human_wgs_nanopore_in_human_genome_hg38/2024-03-09--07-30-00/plots");
}

#[test]
fn link_update_replaces_an_existing_link() {
    let a = BenchmarkFolder::new("out", "threads", &config(None), &at(0));
    let first = a.link_update(false);
    assert!(!first.remove_existing);
    let second = a.link_update(true);
    assert!(second.remove_existing);
    assert_eq!(first.link, second.link);
    assert_eq!(first.target, second.target);
    assert_eq!(second.target, *a.get());
}

#[test]
fn instance_artifacts_live_in_the_instance_folder() {
    let a = BenchmarkFolder::new("out", "b", &config(None), &at(0));
    let i = BenchmarkInstanceFolder::new(&a, "default");
    let base = format!("{}/default", a.get());
    assert_eq!(i.folder, base);
    assert_eq!(i.mapped_reads_bam_path, format!("{base}/mapped_reads.bam"));
    assert_eq!(i.mapped_reads_sam_path, format!("{base}/mapped_reads.sam"));
    assert_eq!(i.logfile_path, format!("{base}/log.txt"));
    assert_eq!(i.timing_path, format!("{base}/timing.toml"));
    assert_eq!(i.index_timing_path, format!("{base}/index_timing.toml"));
    assert_eq!(i.stats_path, format!("{base}/stats.toml"));
    assert_eq!(i.perf_data_path, format!("{base}/perf.data"));
    assert_eq!(i.samply_profile_path, format!("{base}/samply_profile.json"));
    assert_eq!(i.flamegraph_path, format!("{base}/flamegraph_default.svg"));
    let previous = BenchmarkInstanceFolder::most_recent_previous_run(&a, "default");
    assert_eq!(previous.folder, format!("{}/default", a.most_recect_previous_run_folder()));
}

#[test]
fn benchmark_config_builders_change_one_field() {
    let c = config(Some("t"));
    let r = c.with_reference(Reference::Debug);
    assert_eq!(r.reference, Reference::Debug);
    assert_eq!(r.queries, c.queries);
    assert_eq!(r.tag, c.tag);
    let q = c.with_queries(Queries::Simulated);
    assert_eq!(q.queries, Queries::Simulated);
    assert_eq!(c.with_smaller_queries().queries, Queries::HumanWgsNanoporeSmall);
    assert_eq!(q.with_smaller_queries().queries, Queries::SimulatedSmall);
    assert_eq!(c.with_queries(Queries::ProblemQuery).with_smaller_queries().queries, Queries::ProblemQuery);
}

#[test]
fn run_folder_now_is_named_after_the_current_time() {
    let folder = BenchmarkFolder::new_at_current_time("out", "threads", &config(None));
    let prefix = "out/threads/human_wgs_nanopore_in_human_genome_hg38/";
    assert!(folder.get().starts_with(prefix));
    let name = &folder.get()[prefix.len()..];
    assert_eq!(name.len(), 20);
    let bytes = name.as_bytes();
    for (i, b) in bytes.iter().enumerate() {
        match i {
            4 | 7 | 10 | 11 | 14 | 17 => assert_eq!(*b, b'-'),
            _ => assert!(b.is_ascii_digit()),
        }
    }
}
