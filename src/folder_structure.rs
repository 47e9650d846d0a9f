//! Where a benchmark's artifacts live on disk, and the link to the most recent run.
use vstd::prelude::*;

use crate::cli::BenchmarkConfig;
use crate::text::{chars_of, digit_char, join, join_path, padded_digits, string_from_chars};

verus! {

/// A civil date and time of day, to the second.
#[derive(Debug, Clone, Copy, PartialEq, Eq, Structural)]
pub struct Timestamp {
    pub year: i16,
    pub month: u8,
    pub day: u8,
    pub hour: u8,
    pub minute: u8,
    pub second: u8,
}

impl Timestamp {
    /// Each field lies in its calendar range.
    pub open spec fn wf(self) -> bool {
        &&& -9999 <= self.year <= 9999
        &&& 1 <= self.month <= 12
        &&& 1 <= self.day <= 31
        &&& self.hour <= 23
        &&& self.minute <= 59
        &&& self.second <= 59
    }

    /// `YYYY-MM-DD--HH-MM-SS`, a negative year with a leading `-`.
    pub open spec fn spec_text(self) -> Seq<char> {
        year_text(self.year as int) + seq!['-'] + padded_digits(self.month as nat, 2) + seq!['-']
            + padded_digits(self.day as nat, 2) + seq!['-', '-'] + padded_digits(
            self.hour as nat,
            2,
        ) + seq!['-'] + padded_digits(self.minute as nat, 2) + seq!['-'] + padded_digits(
            self.second as nat,
            2,
        )
    }

    /// The folder-name form of the time: `2024-03-09--07-30-00`.
    pub fn to_text(&self) -> (s: String)
        requires
            self.wf(),
        ensures
            s@ == self.spec_text(),
    {
        let mut v: Vec<char> = Vec::new();
        if self.year < 0 {
            v.push('-');
        }
        let abs_year: u64 = if self.year < 0 {
            (0 - self.year as i32) as u64
        } else {
            self.year as u64
        };
        push_padded(&mut v, abs_year, 4);
        v.push('-');
        push_padded(&mut v, self.month as u64, 2);
        v.push('-');
        push_padded(&mut v, self.day as u64, 2);
        v.push('-');
        v.push('-');
        push_padded(&mut v, self.hour as u64, 2);
        v.push('-');
        push_padded(&mut v, self.minute as u64, 2);
        v.push('-');
        push_padded(&mut v, self.second as u64, 2);
        assert(v@ =~= self.spec_text());
        string_from_chars(&v)
    }
}

pub open spec fn year_text(year: int) -> Seq<char> {
    if year < 0 {
        seq!['-'] + padded_digits((-year) as nat, 4)
    } else {
        padded_digits(year as nat, 4)
    }
}

fn push_padded(v: &mut Vec<char>, n: u64, width: u8)
    ensures
        final(v)@ == old(v)@ + padded_digits(n as nat, width as nat),
    decreases width,
{
    if width > 0 {
        push_padded(v, n / 10, width - 1);
        let c = ((n % 10) as u8 + 48) as char;
        assert(c == digit_char((n % 10) as int));
        v.push(c);
        assert(final(v)@ =~= old(v)@ + padded_digits(n as nat, width as nat));
    } else {
        assert(final(v)@ =~= old(v)@ + padded_digits(n as nat, width as nat));
    }
}

pub open spec fn pow10(k: nat) -> int
    decreases k,
{
    if k == 0 {
        1
    } else {
        10 * pow10((k - 1) as nat)
    }
}

proof fn lemma_padded_injective(a: nat, b: nat, width: nat)
    requires
        a < pow10(width),
        b < pow10(width),
        padded_digits(a, width) == padded_digits(b, width),
    ensures
        a == b,
    decreases width,
{
    if width > 0 {
        let pa = padded_digits(a, width);
        let pb = padded_digits(b, width);
        assert(pa.drop_last() == padded_digits(a / 10, (width - 1) as nat));
        assert(pb.drop_last() == padded_digits(b / 10, (width - 1) as nat));
        lemma_padded_injective(a / 10, b / 10, (width - 1) as nat);
        assert(pa.last() == digit_char((a % 10) as int));
        assert(pb.last() == digit_char((b % 10) as int));
        assert(a % 10 == b % 10);
    }
}

proof fn lemma_padded_len(n: nat, width: nat)
    ensures
        padded_digits(n, width).len() == width,
    decreases width,
{
    if width > 0 {
        lemma_padded_len(n / 10, (width - 1) as nat);
    }
}

proof fn lemma_text_len(t: Timestamp)
    ensures
        t.spec_text().len() == year_text(t.year as int).len() + 16,
{
    lemma_padded_len(t.month as nat, 2);
    lemma_padded_len(t.day as nat, 2);
    lemma_padded_len(t.hour as nat, 2);
    lemma_padded_len(t.minute as nat, 2);
    lemma_padded_len(t.second as nat, 2);
    let y = year_text(t.year as int);
    let a = y + seq!['-'] + padded_digits(t.month as nat, 2);
    assert(a.len() == y.len() + 3);
    let b = a + seq!['-'] + padded_digits(t.day as nat, 2);
    assert(b.len() == y.len() + 6);
    let c = b + seq!['-', '-'] + padded_digits(t.hour as nat, 2);
    assert(c.len() == y.len() + 10);
    let d = c + seq!['-'] + padded_digits(t.minute as nat, 2);
    assert(d.len() == y.len() + 13);
    let e = d + seq!['-'] + padded_digits(t.second as nat, 2);
    assert(e.len() == y.len() + 16);
    assert(e == t.spec_text());
}

/// Two well-formed timestamps that read alike are the same timestamp.
pub proof fn lemma_timestamp_text_injective(t1: Timestamp, t2: Timestamp)
    requires
        t1.wf(),
        t2.wf(),
        t1.spec_text() == t2.spec_text(),
    ensures
        t1 == t2,
{
    let s1 = t1.spec_text();
    let s2 = t2.spec_text();
    reveal_with_fuel(pow10, 5);
    assert(pow10(2) == 100);
    assert(pow10(4) == 10000);
    lemma_padded_len(0, 0);
    let y1 = if t1.year < 0 { (-t1.year) as nat } else { t1.year as nat };
    let y2 = if t2.year < 0 { (-t2.year) as nat } else { t2.year as nat };
    lemma_padded_len(y1, 4);
    lemma_padded_len(y2, 4);
    lemma_padded_len(t1.month as nat, 2);
    lemma_padded_len(t2.month as nat, 2);
    lemma_padded_len(t1.day as nat, 2);
    lemma_padded_len(t2.day as nat, 2);
    lemma_padded_len(t1.hour as nat, 2);
    lemma_padded_len(t2.hour as nat, 2);
    lemma_padded_len(t1.minute as nat, 2);
    lemma_padded_len(t2.minute as nat, 2);
    lemma_padded_len(t1.second as nat, 2);
    lemma_padded_len(t2.second as nat, 2);
    let o1: int = if t1.year < 0 { 1 } else { 0 };
    let o2: int = if t2.year < 0 { 1 } else { 0 };
    assert(year_text(t1.year as int).len() == 4 + o1);
    assert(year_text(t2.year as int).len() == 4 + o2);
    assert(seq!['-', '-'].len() == 2);
    assert(seq!['-'].len() == 1);
    lemma_text_len(t1);
    lemma_text_len(t2);
    assert(s2.len() == 20 + o2);
    assert(o1 == o2);
    let o = o1;
    assert(s1.subrange(o, o + 4) =~= padded_digits(y1, 4));
    assert(s2.subrange(o, o + 4) =~= padded_digits(y2, 4));
    lemma_padded_injective(y1, y2, 4);
    assert(s1.subrange(o + 5, o + 7) =~= padded_digits(t1.month as nat, 2));
    assert(s2.subrange(o + 5, o + 7) =~= padded_digits(t2.month as nat, 2));
    lemma_padded_injective(t1.month as nat, t2.month as nat, 2);
    assert(s1.subrange(o + 8, o + 10) =~= padded_digits(t1.day as nat, 2));
    assert(s2.subrange(o + 8, o + 10) =~= padded_digits(t2.day as nat, 2));
    lemma_padded_injective(t1.day as nat, t2.day as nat, 2);
    assert(s1.subrange(o + 12, o + 14) =~= padded_digits(t1.hour as nat, 2));
    assert(s2.subrange(o + 12, o + 14) =~= padded_digits(t2.hour as nat, 2));
    lemma_padded_injective(t1.hour as nat, t2.hour as nat, 2);
    assert(s1.subrange(o + 15, o + 17) =~= padded_digits(t1.minute as nat, 2));
    assert(s2.subrange(o + 15, o + 17) =~= padded_digits(t2.minute as nat, 2));
    lemma_padded_injective(t1.minute as nat, t2.minute as nat, 2);
    assert(s1.subrange(o + 18, o + 20) =~= padded_digits(t1.second as nat, 2));
    assert(s2.subrange(o + 18, o + 20) =~= padded_digits(t2.second as nat, 2));
    lemma_padded_injective(t1.second as nat, t2.second as nat, 2);
}

/// Relies on jiff's `Zoned::now` and its field getters: the civil time now in the
/// system's time zone, whose year jiff keeps in -9999..=9999 and whose other fields
/// stay in their calendar ranges.
#[verifier::external_body]
fn current_civil_time() -> (t: Timestamp)
    ensures
        t.wf(),
{
    let now = jiff::Zoned::now();
    Timestamp {
        year: now.year(),
        month: now.month() as u8,
        day: now.day() as u8,
        hour: now.hour() as u8,
        minute: now.minute() as u8,
        second: now.second() as u8,
    }
}

/// `<queries>_in_<reference>`: the folder that groups runs on one pair of datasets.
pub open spec fn input_tag(config: BenchmarkConfig) -> Seq<char> {
    config.queries.spec_name() + "_in_"@ + config.reference.spec_name()
}

/// The timestamp, followed by `_<tag>` where the configuration carries a tag.
pub open spec fn run_folder_name(config: BenchmarkConfig, timestamp: Timestamp) -> Seq<char> {
    match config.tag {
        Some(tag) => timestamp.spec_text() + seq!['_'] + tag@,
        None => timestamp.spec_text(),
    }
}

/// `<root>/<benchmark name>/<input tag>`: the parent of all runs of one benchmark.
pub open spec fn runs_parent(root: Seq<char>, benchmark_name: Seq<char>, config: BenchmarkConfig) -> Seq<char> {
    join_path(join_path(root, benchmark_name), input_tag(config))
}

/// `<root>/<benchmark name>/<input tag>/<timestamp>[_<tag>]`.
pub open spec fn run_folder_path(
    root: Seq<char>,
    benchmark_name: Seq<char>,
    config: BenchmarkConfig,
    timestamp: Timestamp,
) -> Seq<char> {
    join_path(runs_parent(root, benchmark_name, config), run_folder_name(config, timestamp))
}

/// The folder of one run of a benchmark.
#[derive(Debug)]
pub struct BenchmarkFolder {
    /// The folder that holds all runs of this benchmark on these inputs.
    pub parent: String,
    /// This run's own folder, below `parent`.
    pub folder: String,
}

/// A change to the symbolic link that points to the most recent run.
pub struct LinkUpdate {
    /// Remove the link that is there first.
    pub remove_existing: bool,
    pub link: String,
    pub target: String,
}

/// The links on disk, from link path to target, after a link update.
pub open spec fn apply_link_update(
    links: Map<Seq<char>, Seq<char>>,
    remove_existing: bool,
    link: Seq<char>,
    target: Seq<char>,
) -> Map<Seq<char>, Seq<char>> {
    let cleared = if remove_existing {
        links.remove(link)
    } else {
        links
    };
    cleared.insert(link, target)
}

fn input_tag_text(config: &BenchmarkConfig) -> (r: String)
    ensures
        r@ == input_tag(*config),
{
    let mut s = String::from_str(config.queries.name());
    s.append("_in_");
    s.append(config.reference.name());
    s
}

impl BenchmarkFolder {
    pub open spec fn spec_most_recent(&self) -> Seq<char> {
        join_path(self.parent@, "most_recent"@)
    }

    /// The folder of a run of `benchmark_name` started at `timestamp`. Nothing is
    /// created on disk.
    pub fn new(
        base_output_folder: &str,
        benchmark_name: &str,
        config: &BenchmarkConfig,
        timestamp: &Timestamp,
    ) -> (r: Self)
        requires
            timestamp.wf(),
        ensures
            r.parent@ == runs_parent(base_output_folder@, benchmark_name@, *config),
            r.folder@ == run_folder_path(base_output_folder@, benchmark_name@, *config, *timestamp),
    {
        let named = join(base_output_folder, benchmark_name);
        let tag = input_tag_text(config);
        let parent = join(named.as_str(), tag.as_str());
        let mut subfolder_name = timestamp.to_text();
        match &config.tag {
            Some(tag) => {
                subfolder_name.append("_");
                subfolder_name.append(tag.as_str());
                proof {
                    reveal_strlit("_");
                }
            },
            None => {},
        }
        let folder = join(parent.as_str(), subfolder_name.as_str());
        BenchmarkFolder { parent, folder }
    }

    /// The folder of a run of `benchmark_name` that starts now.
    pub fn new_at_current_time(
        base_output_folder: &str,
        benchmark_name: &str,
        config: &BenchmarkConfig,
    ) -> (r: Self)
        ensures
            exists|t: Timestamp|
                t.wf() && r.folder@ == run_folder_path(
                    base_output_folder@,
                    benchmark_name@,
                    *config,
                    t,
                ),
            r.parent@ == runs_parent(base_output_folder@, benchmark_name@, *config),
    {
        let now = current_civil_time();
        Self::new(base_output_folder, benchmark_name, config, &now)
    }

    /// This run's folder.
    pub fn get(&self) -> (r: &String)
        ensures
            r@ == self.folder@,
    {
        &self.folder
    }

    /// `<run folder>/plots`.
    pub fn plot_folder(&self) -> (r: String)
        ensures
            r@ == join_path(self.folder@, "plots"@),
    {
        join(self.folder.as_str(), "plots")
    }

    /// The link beside the runs that points to the most recent completed run.
    pub fn most_recect_previous_run_folder(&self) -> (r: String)
        ensures
            r@ == self.spec_most_recent(),
    {
        join(self.parent.as_str(), "most_recent")
    }

    /// How to point the most-recent link at this run, given whether a link is there.
    pub fn link_update(&self, link_exists: bool) -> (u: LinkUpdate)
        ensures
            u.remove_existing == link_exists,
            u.link@ == self.spec_most_recent(),
            u.target@ == self.folder@,
    {
        LinkUpdate {
            remove_existing: link_exists,
            link: self.most_recect_previous_run_folder(),
            target: self.folder.clone(),
        }
    }
}

proof fn lemma_join_path_injective(base: Seq<char>, a: Seq<char>, b: Seq<char>)
    requires
        join_path(base, a) == join_path(base, b),
    ensures
        a == b,
{
    let ja = join_path(base, a);
    let jb = join_path(base, b);
    if base.len() == 0 {
    } else if base.last() == '/' {
        assert(a =~= ja.skip(base.len() as int));
        assert(b =~= jb.skip(base.len() as int));
    } else {
        assert(a =~= ja.skip(base.len() as int + 1));
        assert(b =~= jb.skip(base.len() as int + 1));
    }
}

/// The folder of a run depends on nothing but its root, benchmark name,
/// configuration and timestamp, and two runs that started at different times
/// never share a folder.
pub proof fn lemma_run_folder_unique(
    root: Seq<char>,
    benchmark_name: Seq<char>,
    config: BenchmarkConfig,
    t1: Timestamp,
    t2: Timestamp,
)
    requires
        t1.wf(),
        t2.wf(),
    ensures
        (t1 == t2) == (run_folder_path(root, benchmark_name, config, t1) == run_folder_path(
            root,
            benchmark_name,
            config,
            t2,
        )),
{
    if run_folder_path(root, benchmark_name, config, t1) == run_folder_path(root, benchmark_name, config, t2) {
        let parent = runs_parent(root, benchmark_name, config);
        lemma_join_path_injective(parent, run_folder_name(config, t1), run_folder_name(config, t2));
        lemma_text_len(t1);
        lemma_text_len(t2);
        match config.tag {
            Some(tag) => {
                let n1 = run_folder_name(config, t1);
                let n2 = run_folder_name(config, t2);
                let k = (seq!['_'] + tag@).len();
                assert(n1.len() == t1.spec_text().len() + k);
                assert(t1.spec_text() =~= n1.take(n1.len() - k));
                assert(t2.spec_text() =~= n2.take(n2.len() - k));
            },
            None => {},
        }
        lemma_timestamp_text_injective(t1, t2);
    }
}

/// Pointing the most-recent link at a run a second time leaves the links as the
/// first time left them.
pub proof fn lemma_link_update_idempotent(folder: BenchmarkFolder, links: Map<Seq<char>, Seq<char>>)
    ensures
        ({
            let link = folder.spec_most_recent();
            let once = apply_link_update(links, links.dom().contains(link), link, folder.folder@);
            apply_link_update(once, once.dom().contains(link), link, folder.folder@) == once
        }),
{
    let link = folder.spec_most_recent();
    let once = apply_link_update(links, links.dom().contains(link), link, folder.folder@);
    let twice = apply_link_update(once, once.dom().contains(link), link, folder.folder@);
    assert(twice =~= once);
}

/// The paths of one benchmark instance's artifacts.
pub struct BenchmarkInstanceFolder {
    pub folder: String,
    pub mapped_reads_sam_path: String,
    pub mapped_reads_bam_path: String,
    pub logfile_path: String,
    pub timing_path: String,
    pub index_timing_path: String,
    pub stats_path: String,
    pub perf_data_path: String,
    pub samply_profile_path: String,
    pub flamegraph_path: String,
}

impl BenchmarkInstanceFolder {
    /// Every path lies in `base` and is named as the artifact it holds.
    pub open spec fn lies_in(&self, base: Seq<char>, instance_name: Seq<char>) -> bool {
        &&& self.folder@ == base
        &&& self.mapped_reads_sam_path@ == join_path(base, "mapped_reads.sam"@)
        &&& self.mapped_reads_bam_path@ == join_path(base, "mapped_reads.bam"@)
        &&& self.logfile_path@ == join_path(base, "log.txt"@)
        &&& self.timing_path@ == join_path(base, "timing.toml"@)
        &&& self.index_timing_path@ == join_path(base, "index_timing.toml"@)
        &&& self.stats_path@ == join_path(base, "stats.toml"@)
        &&& self.perf_data_path@ == join_path(base, "perf.data"@)
        &&& self.samply_profile_path@ == join_path(base, "samply_profile.json"@)
        &&& self.flamegraph_path@ == join_path(base, "flamegraph_"@ + instance_name + ".svg"@)
    }

    /// The artifacts of `instance_name` in this run's folder. The folder itself is
    /// created by whoever writes the first artifact.
    pub fn new(benchmark_folder: &BenchmarkFolder, instance_name: &str) -> (r: Self)
        ensures
            r.lies_in(join_path(benchmark_folder.folder@, instance_name@), instance_name@),
    {
        let base_folder = join(benchmark_folder.get().as_str(), instance_name);
        Self::from_parts(base_folder, instance_name)
    }

    /// The artifacts of `instance_name` in the most recent completed run, reached
    /// through the most-recent link.
    pub fn most_recent_previous_run(benchmark_folder: &BenchmarkFolder, instance_name: &str) -> (r: Self)
        ensures
            r.lies_in(join_path(benchmark_folder.spec_most_recent(), instance_name@), instance_name@),
    {
        let link = benchmark_folder.most_recect_previous_run_folder();
        let base_folder = join(link.as_str(), instance_name);
        Self::from_parts(base_folder, instance_name)
    }

    fn from_parts(base_folder: String, instance_name: &str) -> (r: Self)
        ensures
            r.lies_in(base_folder@, instance_name@),
    {
        let base = base_folder.as_str();
        let mapped_reads_sam_path = join(base, "mapped_reads.sam");
        let mapped_reads_bam_path = join(base, "mapped_reads.bam");
        let logfile_path = join(base, "log.txt");
        let timing_path = join(base, "timing.toml");
        let index_timing_path = join(base, "index_timing.toml");
        let stats_path = join(base, "stats.toml");
        let perf_data_path = join(base, "perf.data");
        let samply_profile_path = join(base, "samply_profile.json");
        let mut flamegraph_name = String::from_str("flamegraph_");
        flamegraph_name.append(instance_name);
        flamegraph_name.append(".svg");
        let flamegraph_path = join(base, flamegraph_name.as_str());
        BenchmarkInstanceFolder {
            folder: base_folder,
            mapped_reads_sam_path,
            mapped_reads_bam_path,
            logfile_path,
            timing_path,
            index_timing_path,
            stats_path,
            perf_data_path,
            samply_profile_path,
            flamegraph_path,
        }
    }
}

} // verus!
