use std::collections::BTreeMap;

use iftpfm2::engine::{age_verdict, AgeVerdict, Command, Engine, Event, FailReason, Outcome, Phase, Side, SkipReason};
use iftpfm2::pattern::FilePattern;
use iftpfm2::staging::{choose_storage, effective_threshold, temp_file_name, StorageKind, DEFAULT_RAM_THRESHOLD};

const NOW: u64 = 1_700_000_000;
const PID: u32 = 4242;

/// Two in-memory servers that answer the engine's commands.
struct Sim {
    src: BTreeMap<String, (Vec<u8>, i64)>,
    dst: BTreeMap<String, Vec<u8>>,
    staged: Vec<u8>,
    temp_size_reported: Option<u64>,
    shutdown_after: Option<usize>,
    transferred: usize,
    log: Vec<Command>,
}

impl Sim {
    fn new() -> Sim {
        Sim {
            src: BTreeMap::new(),
            dst: BTreeMap::new(),
            staged: Vec::new(),
            temp_size_reported: None,
            shutdown_after: None,
            transferred: 0,
            log: Vec::new(),
        }
    }

    fn add_source(&mut self, name: &str, len: usize, age_secs: i64) {
        self.src.insert(name.to_string(), (vec![7u8; len], NOW as i64 - age_secs));
    }
}

fn engine(pattern: &str, min_age: u64, delete: bool, threshold: u64) -> Engine {
    let p = FilePattern::new(pattern).expect("valid pattern");
    Engine::new(p, min_age, delete, threshold, PID)
}

fn drive(e: &mut Engine, sim: &mut Sim) -> usize {
    let mut ev = Event::Succeeded;
    loop {
        let shutdown = sim.shutdown_after.map_or(false, |n| sim.transferred >= n);
        let cmd = e.step(ev, shutdown);
        sim.log.push(cmd);
        ev = match cmd {
            Command::Connect(_) | Command::SetBinary(_) | Command::Close(_) => Event::Succeeded,
            Command::List => Event::Listed(sim.src.keys().cloned().collect()),
            Command::QueryMtime(i) => {
                let (_, m) = &sim.src[e.file_name(i)];
                Event::ModifiedAt { secs: *m, nanos: 0, now_secs: NOW, now_nanos: 0 }
            }
            Command::QuerySize(i) => Event::Size(sim.src[e.file_name(i)].0.len() as u64),
            Command::Fetch(i, _) => {
                sim.staged = sim.src[e.file_name(i)].0.clone();
                Event::Fetched(sim.staged.len() as u64)
            }
            Command::Upload(i) => {
                sim.dst.insert(e.temp_name(i), sim.staged.clone());
                Event::Uploaded(sim.staged.len() as u64)
            }
            Command::QueryTempSize(i) => match sim.dst.get(&e.temp_name(i)) {
                Some(d) => Event::Size(sim.temp_size_reported.unwrap_or(d.len() as u64)),
                None => Event::Failed,
            },
            Command::Rename(i) => {
                let name = e.file_name(i).to_string();
                if sim.dst.contains_key(&name) {
                    Event::Failed
                } else {
                    match sim.dst.remove(&e.temp_name(i)) {
                        Some(d) => {
                            sim.dst.insert(name, d);
                            Event::Succeeded
                        }
                        None => Event::Failed,
                    }
                }
            }
            Command::RemoveExisting(i) => match sim.dst.remove(e.file_name(i)) {
                Some(_) => Event::Succeeded,
                None => Event::Failed,
            },
            Command::RemoveTemp(i) => match sim.dst.remove(&e.temp_name(i)) {
                Some(_) => Event::Succeeded,
                None => Event::Failed,
            },
            Command::QueryFinalSize(i) => match sim.dst.get(e.file_name(i)) {
                Some(d) => Event::Size(d.len() as u64),
                None => Event::Failed,
            },
            Command::RemoveSource(i) => match sim.src.remove(e.file_name(i)) {
                Some(_) => Event::Succeeded,
                None => Event::Failed,
            },
            Command::Report(_, o) => {
                if o == Outcome::Transferred {
                    sim.transferred += 1;
                }
                Event::Succeeded
            }
            Command::Finish(n) => return n,
        };
    }
}

fn no_temp_left(sim: &Sim) -> bool {
    sim.dst.keys().all(|k| !k.ends_with(".tmp"))
}

#[test]
fn happy_path_memory_staging() {
    let mut sim = Sim::new();
    sim.add_source("a.txt", 5, 10);
    let mut e = engine(r".*\.txt$", 0, false, 10 * 1024 * 1024);
    let n = drive(&mut e, &mut sim);
    assert_eq!(n, 1);
    assert_eq!(sim.dst.get("a.txt").map(|d| d.len()), Some(5));
    assert!(no_temp_left(&sim));
    assert!(sim.src.contains_key("a.txt"));
    assert!(sim.log.contains(&Command::Fetch(0, StorageKind::Memory)));
    assert_eq!(
        &sim.log[..5],
        &[
            Command::Connect(Side::Source),
            Command::Connect(Side::Target),
            Command::SetBinary(Side::Source),
            Command::SetBinary(Side::Target),
            Command::List
        ]
    );
}

#[test]
fn happy_path_with_delete_removes_source() {
    let mut sim = Sim::new();
    sim.add_source("a.txt", 5, 10);
    let mut e = engine(r".*\.txt$", 0, true, 10 * 1024 * 1024);
    let n = drive(&mut e, &mut sim);
    assert_eq!(n, 1);
    assert_eq!(sim.dst.get("a.txt").map(|d| d.len()), Some(5));
    assert!(!sim.src.contains_key("a.txt"));
    assert!(no_temp_left(&sim));
}

#[test]
fn upload_size_mismatch_fails_file() {
    let mut sim = Sim::new();
    sim.add_source("b.bin", 100, 10);
    sim.temp_size_reported = Some(90);
    let mut e = engine(".*", 0, true, 10 * 1024 * 1024);
    let n = drive(&mut e, &mut sim);
    assert_eq!(n, 0);
    assert!(sim.dst.is_empty());
    assert!(sim.src.contains_key("b.bin"));
    assert!(sim.log.contains(&Command::RemoveTemp(0)));
    assert!(sim.log.contains(&Command::Report(0, Outcome::Failed(FailReason::UploadSizeMismatch))));
    assert!(!sim.log.contains(&Command::RemoveSource(0)));
}

#[test]
fn existing_target_uses_fallback_rename() {
    let mut sim = Sim::new();
    sim.add_source("c.log", 12, 100);
    sim.dst.insert("c.log".to_string(), vec![1u8; 3]);
    let mut e = engine(".*", 0, false, 10 * 1024 * 1024);
    let n = drive(&mut e, &mut sim);
    assert_eq!(n, 1);
    assert_eq!(sim.dst.get("c.log").map(|d| d.len()), Some(12));
    assert!(no_temp_left(&sim));
    let renames = sim.log.iter().filter(|c| **c == Command::Rename(0)).count();
    assert_eq!(renames, 2);
    assert!(sim.log.contains(&Command::RemoveExisting(0)));
}

#[test]
fn pattern_and_age_filter() {
    let mut sim = Sim::new();
    sim.add_source("x.txt", 4, 5);
    sim.add_source("y.txt", 4, 3600);
    sim.add_source("z.csv", 4, 3600);
    let mut e = engine(r".*\.txt$", 60, false, 10 * 1024 * 1024);
    let n = drive(&mut e, &mut sim);
    assert_eq!(n, 1);
    assert_eq!(sim.dst.keys().cloned().collect::<Vec<_>>(), vec!["y.txt".to_string()]);
    assert!(sim.log.contains(&Command::Report(0, Outcome::Skipped(SkipReason::TooYoung))));
    assert!(sim.log.contains(&Command::Report(2, Outcome::Skipped(SkipReason::PatternMismatch))));
}

#[test]
fn shutdown_mid_batch_stops_before_next_file() {
    let mut sim = Sim::new();
    for k in 0..10 {
        sim.add_source(&format!("f{}.dat", k), 8, 100);
    }
    sim.shutdown_after = Some(3);
    let mut e = engine(".*", 0, false, 10 * 1024 * 1024);
    let n = drive(&mut e, &mut sim);
    assert_eq!(n, 3);
    assert_eq!(sim.dst.len(), 3);
    assert!(!sim.log.contains(&Command::QueryMtime(3)));
    assert_eq!(sim.log[sim.log.len() - 2], Command::Close(true));
}

#[test]
fn test_transfer_files_shutdown_before_start() {
    let mut e = engine(".*", 100, false, DEFAULT_RAM_THRESHOLD);
    let first = e.step(Event::Succeeded, true);
    assert_eq!(first, Command::Finish(0), "Should return 0 when shutdown requested before start");
}

#[test]
fn rerun_over_previous_result_keeps_contents() {
    let mut sim = Sim::new();
    sim.add_source("r.txt", 9, 100);
    let mut e1 = engine(".*", 0, false, 10 * 1024 * 1024);
    assert_eq!(drive(&mut e1, &mut sim), 1);
    let after_first = sim.dst.clone();
    let mut e2 = engine(".*", 0, false, 10 * 1024 * 1024);
    sim.log.clear();
    assert_eq!(drive(&mut e2, &mut sim), 1);
    assert_eq!(sim.dst, after_first);
}

#[test]
fn source_connect_failure_finishes_with_zero() {
    let mut e = engine(".*", 0, false, 0);
    assert_eq!(e.step(Event::Succeeded, false), Command::Connect(Side::Source));
    assert_eq!(e.step(Event::Failed, false), Command::Finish(0));
    assert_eq!(e.progress().phase, Phase::Finished);
}

#[test]
fn target_connect_failure_closes_source_only() {
    let mut e = engine(".*", 0, false, 0);
    e.step(Event::Succeeded, false);
    assert_eq!(e.step(Event::Succeeded, false), Command::Connect(Side::Target));
    assert_eq!(e.step(Event::Failed, false), Command::Close(false));
    assert_eq!(e.step(Event::Succeeded, false), Command::Finish(0));
}

#[test]
fn missing_size_skips_and_fetch_failure_fails() {
    let mut e = engine(".*", 0, false, 0);
    for _ in 0..4 {
        e.step(Event::Succeeded, false);
    }
    let c = e.step(Event::Succeeded, false);
    assert_eq!(c, Command::List);
    let c = e.step(Event::Listed(vec!["a".to_string(), "b".to_string()]), false);
    assert_eq!(c, Command::QueryMtime(0));
    let c = e.step(Event::ModifiedAt { secs: 10, nanos: 0, now_secs: 20, now_nanos: 0 }, false);
    assert_eq!(c, Command::QuerySize(0));
    let c = e.step(Event::Failed, false);
    assert_eq!(c, Command::Report(0, Outcome::Skipped(SkipReason::NoSize)));
    let c = e.step(Event::Succeeded, false);
    assert_eq!(c, Command::QueryMtime(1));
    let c = e.step(Event::ModifiedAt { secs: 10, nanos: 0, now_secs: 20, now_nanos: 0 }, false);
    assert_eq!(c, Command::QuerySize(1));
    let c = e.step(Event::Size(50), false);
    assert_eq!(c, Command::Fetch(1, StorageKind::Memory));
    let c = e.step(Event::Failed, false);
    assert_eq!(c, Command::Report(1, Outcome::Failed(FailReason::FetchFailed)));
    assert_eq!(e.step(Event::Succeeded, false), Command::Close(true));
    assert_eq!(e.step(Event::Succeeded, false), Command::Finish(0));
}

#[test]
fn large_file_staged_on_disk() {
    let mut sim = Sim::new();
    sim.add_source("big.bin", 2000, 100);
    let mut e = engine(".*", 0, false, 1000);
    assert_eq!(drive(&mut e, &mut sim), 1);
    assert!(sim.log.contains(&Command::Fetch(0, StorageKind::Disk)));
}

#[test]
fn staging_policy() {
    assert_eq!(choose_storage(5, 10), StorageKind::Memory);
    assert_eq!(choose_storage(10, 10), StorageKind::Memory);
    assert_eq!(choose_storage(11, 10), StorageKind::Disk);
    assert_eq!(choose_storage(u64::MAX, 0), StorageKind::Memory);
    assert_eq!(effective_threshold(None), 10485760);
    assert_eq!(effective_threshold(Some(0)), 0);
    assert_eq!(effective_threshold(Some(77)), 77);
}

#[test]
fn temp_name_shape() {
    assert_eq!(temp_file_name("a.txt", 1234), ".a.txt.1234.tmp");
    assert_eq!(temp_file_name("b", 0), ".b.0.tmp");
    let mut e = engine(".*", 0, false, 0);
    for _ in 0..5 {
        e.step(Event::Succeeded, false);
    }
    e.step(Event::Listed(vec!["c.log".to_string()]), false);
    assert_eq!(e.temp_name(0), format!(".c.log.{}.tmp", PID));
    assert_eq!(e.file_name(0), "c.log");
}

#[test]
fn age_verdicts() {
    assert_eq!(age_verdict(-1, 0, 100, 0, 0), AgeVerdict::PreEpoch);
    assert_eq!(age_verdict(200, 0, 100, 0, 0), AgeVerdict::InFuture);
    assert_eq!(age_verdict(100, 500, 100, 0, 0), AgeVerdict::InFuture);
    assert_eq!(age_verdict(100, 0, 105, 0, 60), AgeVerdict::TooYoung(5));
    assert_eq!(age_verdict(100, 0, 3700, 0, 60), AgeVerdict::Eligible(3600));
    assert_eq!(age_verdict(100, 600_000_000, 160, 500_000_000, 60), AgeVerdict::TooYoung(59));
    assert_eq!(age_verdict(100, 0, 100, 0, 0), AgeVerdict::Eligible(0));
}

#[test]
fn test_regex_compilation() {
    let filename_regexp = r".*\.txt$".to_string();
    let regex = FilePattern::new(&filename_regexp);
    assert!(regex.is_some());
    let re = regex.unwrap();
    assert!(re.is_match("file.txt"));
    assert!(!re.is_match("file.csv"));
    assert_eq!(re.as_str(), r".*\.txt$");
}

#[test]
fn test_regex_special_patterns() {
    let patterns = vec![r".*", r"^[A-Z].*\.log$", r"\d{4}-\d{2}-\d{2}.*", r"test_.*\.csv"];
    for pattern in patterns {
        let regex = FilePattern::new(pattern);
        assert!(regex.is_some(), "Pattern '{}' should compile", pattern);
    }
}

#[test]
fn invalid_regex_is_rejected() {
    assert!(FilePattern::new("(unclosed").is_none());
    assert!(FilePattern::new("[a-").is_none());
}

#[test]
fn extreme_clock_and_sizes() {
    assert_eq!(age_verdict(0, 0, u64::MAX, 999_999_999, u64::MAX), AgeVerdict::Eligible(u64::MAX));
    assert_eq!(age_verdict(i64::MAX, 0, u64::MAX, 0, 0), AgeVerdict::Eligible(u64::MAX - i64::MAX as u64));
    assert_eq!(choose_storage(u64::MAX, u64::MAX), StorageKind::Memory);
    assert_eq!(choose_storage(u64::MAX, u64::MAX - 1), StorageKind::Disk);
}

#[test]
fn empty_listing_finishes_with_zero() {
    let mut sim = Sim::new();
    let mut e = engine(".*", 0, false, 0);
    assert_eq!(drive(&mut e, &mut sim), 0);
    assert_eq!(e.successes(), 0);
}

#[test]
fn tally_never_exceeds_listing() {
    let mut sim = Sim::new();
    for k in 0..5 {
        sim.add_source(&format!("t{}.txt", k), k + 1, 100);
    }
    sim.add_source("skip.csv", 3, 100);
    let mut e = engine(r"\.txt$", 0, true, 2);
    let n = drive(&mut e, &mut sim);
    assert_eq!(n, 5);
    assert!(n <= e.progress().listed);
    assert_eq!(e.progress().listed, 6);
    assert!(sim.src.contains_key("skip.csv"));
    assert_eq!(sim.src.len(), 1);
}
