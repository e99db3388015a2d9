use batch_archive::archive::{ArchivalEngine, ArchiveMode, ArchivePlan};
use batch_archive::candidate::{FileCandidate, MAX_PARENT_DEPTH, SECONDS_PER_DAY};
use batch_archive::pattern::PatternMatcher;
use batch_archive::run_date::RunDate;

const NOON_2024_01_01: i64 = 1_704_110_400;

fn engine() -> ArchivalEngine {
    ArchivalEngine::new(PatternMatcher::new(10))
}

fn file(name: &str, depth: usize, modified_secs: Option<u64>) -> FileCandidate {
    FileCandidate::new(format!("/src/{}", name), name.to_string(), depth, modified_secs)
}

fn names(plan: &ArchivePlan) -> Vec<String> {
    plan.steps.iter().map(|step| step.file_name.clone()).collect()
}

fn sources(plan: &ArchivePlan) -> Vec<String> {
    plan.steps.iter().map(|step| step.source.clone()).collect()
}

#[test]
fn dated_archive_takes_the_matching_files() {
    let entries = vec![
        file("2024010112-a.csv", 0, None),
        file("99-b.csv", 0, None),
        file("2024010113-c.csv", 0, None),
    ];
    let run_date = RunDate::new(1, 1, 2024).unwrap();
    let plan = engine().archive_dated(&entries, "/dest", &run_date, false);
    assert_eq!(plan.target.destination, "/dest");
    assert_eq!(plan.target.folder, "01-01-2024");
    assert_eq!(names(&plan), vec!["2024010112-a.csv", "2024010113-c.csv"]);
    assert_eq!(sources(&plan), vec!["/src/2024010112-a.csv", "/src/2024010113-c.csv"]);
    assert!(!names(&plan).contains(&"99-b.csv".to_string()));
    assert_eq!(plan.copy_count(), 2);
}

#[test]
fn the_folder_is_created_only_where_it_is_missing() {
    let entries = vec![file("2024010112-a.csv", 0, None)];
    let run_date = RunDate::new(1, 1, 2024).unwrap();
    let first = engine().archive_dated(&entries, "/dest", &run_date, false);
    assert!(first.create_folder);
    let second = engine().archive_dated(&entries, "/dest", &run_date, true);
    assert!(!second.create_folder);
    assert_eq!(names(&first), names(&second));
    assert_eq!(sources(&first), sources(&second));
    assert_eq!(first.target.folder, second.target.folder);
}

#[test]
fn an_empty_tree_gives_an_empty_plan() {
    let entries: Vec<FileCandidate> = Vec::new();
    let run_date = RunDate::new(31, 12, 1999).unwrap();
    let plan = engine().archive_dated(&entries, "out", &run_date, false);
    assert_eq!(plan.copy_count(), 0);
    assert!(plan.steps.is_empty());
    assert!(plan.create_folder);
    assert_eq!(plan.target.folder, "31-12-1999");
}

#[test]
fn directories_and_deep_entries_are_left_out() {
    let mut directory = file("2024010112-dir", 0, None);
    directory.is_regular_file = false;
    let entries = vec![
        directory,
        file("2024010112-top.csv", 0, None),
        file("2024010112-below.csv", 1, None),
        file("2024010112-deep.csv", 2, None),
        file("2024010112-deeper.csv", 7, None),
    ];
    assert_eq!(MAX_PARENT_DEPTH, 1);
    let run_date = RunDate::new(1, 1, 2024).unwrap();
    let plan = engine().archive_dated(&entries, "/dest", &run_date, true);
    assert_eq!(names(&plan), vec!["2024010112-top.csv", "2024010112-below.csv"]);
}

#[test]
fn steps_keep_the_order_of_the_walk() {
    let entries = vec![
        file("3000000000-z", 1, None),
        file("1000000000-a", 0, None),
        file("2000000000-m", 1, None),
    ];
    let run_date = RunDate::new(1, 1, 2024).unwrap();
    let plan = engine().archive_dated(&entries, "/dest", &run_date, true);
    assert_eq!(names(&plan), vec!["3000000000-z", "1000000000-a", "2000000000-m"]);
}

#[test]
fn files_of_one_name_are_each_copied() {
    let mut first = file("2024010112-a.csv", 1, None);
    first.path = "/src/one/2024010112-a.csv".to_string();
    let mut second = file("2024010112-a.csv", 1, None);
    second.path = "/src/two/2024010112-a.csv".to_string();
    let run_date = RunDate::new(1, 1, 2024).unwrap();
    let plan = engine().archive_dated(&vec![first, second], "/dest", &run_date, true);
    assert_eq!(sources(&plan), vec!["/src/one/2024010112-a.csv", "/src/two/2024010112-a.csv"]);
    assert_eq!(names(&plan), vec!["2024010112-a.csv", "2024010112-a.csv"]);
}

#[test]
fn category_archive_takes_todays_files_only() {
    let today = NOON_2024_01_01 as u64;
    let yesterday = today - SECONDS_PER_DAY;
    let entries = vec![
        file("2024010112-today.csv", 0, Some(today)),
        file("2024010112-yesterday.csv", 0, Some(yesterday)),
        file("2024010112-unknown.csv", 0, None),
        file("99-today.csv", 0, Some(today)),
    ];
    let plan = engine().archive_category(&entries, "/dest", "Email", NOON_2024_01_01, false);
    assert_eq!(plan.target.destination, "/dest");
    assert_eq!(plan.target.folder, "Email");
    assert!(plan.create_folder);
    assert_eq!(names(&plan), vec!["2024010112-today.csv"]);
    assert_eq!(plan.copy_count(), 1);
}

#[test]
fn the_day_runs_from_midnight_to_midnight() {
    let midnight: u64 = 1_704_067_200;
    assert_eq!(midnight % SECONDS_PER_DAY, 0);
    let entries = vec![
        file("0000000001-first-second.csv", 0, Some(midnight)),
        file("0000000002-last-second.csv", 0, Some(midnight + SECONDS_PER_DAY - 1)),
        file("0000000003-next-day.csv", 0, Some(midnight + SECONDS_PER_DAY)),
        file("0000000004-day-before.csv", 0, Some(midnight - 1)),
    ];
    let plan = engine().archive_category(&entries, "/dest", "SMS", NOON_2024_01_01, true);
    assert_eq!(
        names(&plan),
        vec!["0000000001-first-second.csv", "0000000002-last-second.csv"]
    );
    assert_eq!(plan.target.folder, "SMS");
    assert!(!plan.create_folder);
}

#[test]
fn a_clock_before_the_epoch_takes_nothing() {
    let entries = vec![
        file("2024010112-a.csv", 0, Some(0)),
        file("2024010112-b.csv", 0, Some(5)),
    ];
    let plan = engine().archive_category(&entries, "/dest", "Email", -1, true);
    assert_eq!(plan.copy_count(), 0);
    let plan = engine().archive_category(&entries, "/dest", "Email", 0, true);
    assert_eq!(plan.copy_count(), 2);
}

#[test]
fn selects_follows_the_mode() {
    let today = NOON_2024_01_01 as u64;
    let entry = file("2024010112-a.csv", 1, Some(today - 2 * SECONDS_PER_DAY));
    let engine = engine();
    assert!(engine.selects(ArchiveMode::Dated, &entry));
    assert!(!engine.selects(ArchiveMode::Category { now_secs: NOON_2024_01_01 }, &entry));
    let fresh = file("2024010112-a.csv", 1, Some(today));
    assert!(engine.selects(ArchiveMode::Category { now_secs: NOON_2024_01_01 }, &fresh));
    assert!(fresh.modified_on_day_of(NOON_2024_01_01));
    assert!(!entry.modified_on_day_of(NOON_2024_01_01));
    assert!(fresh.in_reach());
}

#[test]
fn the_engine_keeps_its_matcher() {
    let engine = ArchivalEngine::new(PatternMatcher::new(7));
    assert_eq!(engine.matcher().digits(), 7);
    let entries = vec![file("2024010-a.csv", 0, None), file("2024010112-a.csv", 0, None)];
    let run_date = RunDate::new(2, 3, 2024).unwrap();
    let plan = engine.archive_dated(&entries, "/dest", &run_date, true);
    assert_eq!(names(&plan), vec!["2024010-a.csv"]);
    assert_eq!(plan.target.folder, "02-03-2024");
}

#[test]
fn plan_with_a_free_folder_name() {
    let entries = vec![file("2024010112-a.csv", 0, None)];
    let plan = engine().plan(ArchiveMode::Dated, &entries, "/dest", "anything", false);
    assert_eq!(plan.target.folder, "anything");
    assert_eq!(plan.target.destination, "/dest");
    assert_eq!(names(&plan), vec!["2024010112-a.csv"]);
}

#[test]
fn category_archive_by_the_clock_takes_files_of_this_day() {
    let before = chrono::Utc::now().timestamp();
    let fresh = file("2024010112-fresh.csv", 0, Some(before as u64));
    let old = file("2024010112-old.csv", 0, Some(before as u64 - 2 * SECONDS_PER_DAY));
    let plan = engine().archive_category_today(&vec![fresh, old], "/dest", "Email", false);
    let after = chrono::Utc::now().timestamp();
    assert_eq!(plan.target.folder, "Email");
    assert!(!names(&plan).contains(&"2024010112-old.csv".to_string()));
    if before / 86_400 == after / 86_400 {
        assert_eq!(names(&plan), vec!["2024010112-fresh.csv"]);
    }
}
