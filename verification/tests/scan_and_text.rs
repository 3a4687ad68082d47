use asdclean::error::CliError;
use asdclean::mode::RunMode;
use asdclean::scan::{deletion_plan, parse_listing, removal_preview, ScanResult};
use asdclean::text::{matches_extension, split_lines, strip_root_prefix};

fn sample_scan() -> ScanResult {
    let mut scan = ScanResult::new();
    scan.record(String::from("/tmp/a.asd"), Some(100));
    scan.record(String::from("/tmp/sub/b.asd"), Some(924));
    scan.record(String::from("/tmp/sub/deep/c.asd"), None);
    scan
}

#[test]
fn count_and_total_follow_the_records() {
    let scan = sample_scan();
    assert_eq!(scan.count(), 3);
    assert_eq!(scan.total_size(), Some(1024));
}

#[test]
fn empty_scan_has_zero_totals() {
    let scan = ScanResult::new();
    assert_eq!(scan.count(), 0);
    assert_eq!(scan.total_size(), Some(0));
}

#[test]
fn unreadable_metadata_degrades_to_zero_and_reports() {
    let mut scan = ScanResult::new();
    assert!(!scan.record(String::from("a.asd"), Some(7)));
    assert!(scan.record(String::from("b.asd"), None));
    assert_eq!(scan.total_size(), Some(7));
}

#[test]
fn total_that_overflows_is_refused() {
    let mut scan = ScanResult::new();
    scan.record(String::from("a.asd"), Some(u64::MAX));
    scan.record(String::from("b.asd"), Some(1));
    assert_eq!(scan.total_size(), None);
}

#[test]
fn purge_plans_every_recorded_path() {
    let scan = sample_scan();
    let plan = deletion_plan(RunMode::Purge, &scan);
    assert_eq!(
        plan,
        vec!["/tmp/a.asd", "/tmp/sub/b.asd", "/tmp/sub/deep/c.asd"]
    );
}

#[test]
fn report_and_dry_run_plan_no_deletion() {
    let scan = sample_scan();
    assert!(deletion_plan(RunMode::Report, &scan).is_empty());
    assert!(deletion_plan(RunMode::DryRunPurge, &scan).is_empty());
}

#[test]
fn dry_run_previews_exactly_what_purge_would_delete() {
    let scan = sample_scan();
    let preview = removal_preview(RunMode::DryRunPurge, &scan);
    let plan = deletion_plan(RunMode::Purge, &scan);
    assert_eq!(preview, plan);
    assert!(removal_preview(RunMode::Report, &scan).is_empty());
    assert!(removal_preview(RunMode::Purge, &scan).is_empty());
}

#[test]
fn successful_listing_is_split_into_paths() {
    let r = parse_listing(Some(0), "/r/a.asd\n/r/s/b.asd\n", "");
    assert_eq!(r.unwrap(), vec!["/r/a.asd", "/r/s/b.asd"]);
}

#[test]
fn listing_without_exit_code_is_tolerated() {
    let r = parse_listing(None, "/r/a.asd\n", "");
    assert_eq!(r.unwrap(), vec!["/r/a.asd"]);
}

#[test]
fn empty_listing_yields_no_paths() {
    let r = parse_listing(Some(0), "", "");
    assert_eq!(r.unwrap(), Vec::<String>::new());
}

#[test]
fn failed_listing_carries_its_diagnostic() {
    let r = parse_listing(Some(1), "", "find: '/nope': No such file or directory");
    match r {
        Err(CliError::ScanBackendFailure { message }) => {
            assert_eq!(message, "find: '/nope': No such file or directory");
        }
        _ => panic!("a non-zero exit must fail the scan"),
    }
}

#[test]
fn lines_split_at_line_feeds() {
    assert_eq!(split_lines("a\nb\nc"), vec!["a", "b", "c"]);
    assert_eq!(split_lines("a\nb\n"), vec!["a", "b"]);
    assert_eq!(split_lines(""), Vec::<String>::new());
    assert_eq!(split_lines("\n"), vec![""]);
    assert_eq!(split_lines("a\n\nb"), vec!["a", "", "b"]);
}

#[test]
fn lines_strip_a_carriage_return_before_the_line_feed() {
    assert_eq!(split_lines("a\r\nb\r\n"), vec!["a", "b"]);
    assert_eq!(split_lines("a\r"), vec!["a\r"]);
}

#[test]
fn extension_match_is_exact_and_case_sensitive() {
    assert!(matches_extension("x.asd"));
    assert!(matches_extension("dir/deep/name.asd"));
    assert!(!matches_extension("x.ASD"));
    assert!(!matches_extension("x.asdf"));
    assert!(!matches_extension("asd"));
    assert!(!matches_extension(""));
    assert!(matches_extension(".asd"));
}

#[test]
fn root_is_trimmed_only_as_a_prefix() {
    assert_eq!(strip_root_prefix("/r/a.asd", "/r"), "/a.asd");
    assert_eq!(strip_root_prefix("/r/a.asd", "/x"), "/r/a.asd");
    assert_eq!(strip_root_prefix("/a/banana/a", "/a"), "/banana/a");
    assert_eq!(strip_root_prefix("short", "longer-root"), "short");
}
