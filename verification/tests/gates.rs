//! The digest, the quoting, the measurements path and triage.

use vulcan_ui::gates::{
    fnv1a, measurements_directory, measurements_file_name, measurements_path, prototype_digest, quote, requested_profiles,
    round_trip_profiles, triage, Discrepancy,
    Status,
};

#[test]
fn the_detail_lands_beside_the_summary_and_never_on_it() {
    let summary = "reports/budgets/linux-cgroup.json";
    let detail = measurements_path(summary);
    assert_eq!(detail, "reports/budgets/linux-cgroup-measurements.json");
    assert_ne!(detail, summary);
}

#[test]
fn a_report_without_stem_or_extension_takes_the_defaults() {
    assert_eq!(measurements_path("reports/summary"), "reports/summary-measurements.json");
    assert_eq!(measurements_path("/"), "/budgets-measurements.json");
    assert_eq!(measurements_path(".hidden"), ".hidden-measurements.json");
}

#[test]
fn fnv1a_matches_its_published_vectors() {
    assert_eq!(fnv1a(b""), 0xcbf2_9ce4_8422_2325);
    assert_eq!(fnv1a(b"a"), 0xaf63_dc4c_8601_ec8c);
    assert_eq!(fnv1a(b"foobar"), 0x8594_4171_f739_67e8);
}

#[test]
fn a_digest_is_sixteen_hex_digits() {
    assert_eq!(prototype_digest(b""), "fnv1a:cbf29ce484222325");
    assert_eq!(prototype_digest(b"a"), "fnv1a:af63dc4c8601ec8c");
}

#[test]
fn quoting_escapes_backslashes_and_quotes() {
    assert_eq!(quote("46px"), "\"46px\"");
    assert_eq!(quote("'Inter', \"sans\""), "\"'Inter', \\\"sans\\\"\"");
    assert_eq!(quote("a\\b"), "\"a\\\\b\"");
    assert_eq!(quote(""), "\"\"");
}

fn report(path: &str, status: Status, entry: Option<&str>) -> Discrepancy {
    Discrepancy { path: path.to_string(), status, backlog_entry: entry.map(|e| e.to_string()) }
}

#[test]
fn triage_names_every_undecided_report() {
    let found = vec![
        report("a.md", Status::Accepted, None),
        report("b.md", Status::Untriaged, None),
        report("c.md", Status::Unreadable, None),
        report("d.md", Status::BacklogEntry, None),
        report("e.md", Status::BacklogEntry, Some("F004")),
        report("f.md", Status::BacklogEntry, Some("F999")),
    ];
    let findings = triage(&found, "- F004 plugin host\n", "specs/features-map.md");
    assert_eq!(
        findings,
        vec![
            "b.md is untriaged; decide it as Accepted or BacklogEntry before review",
            "c.md has no decided Status line",
            "d.md is a BacklogEntry but names no feature",
            "f.md names backlog entry F999, which is not in specs/features-map.md",
        ]
    );
    assert!(triage(&found[..1].to_vec(), "", "map").is_empty());
}

#[test]
fn round_trip_profiles_read_every_number_and_skip_the_rest() {
    assert_eq!(round_trip_profiles("50,100,200"), vec![50, 100, 200]);
    assert_eq!(round_trip_profiles(" 50 , ,x, +7 ,-3,4294967296,4294967295"), vec![50, 7, 4294967295]);
    assert_eq!(round_trip_profiles("12"), vec![12]);
    assert_eq!(round_trip_profiles(",,"), Vec::<u32>::new());
}

#[test]
fn the_detail_name_joins_stem_and_extension() {
    assert_eq!(measurements_file_name(Some("linux-cgroup"), Some("json")), "linux-cgroup-measurements.json");
    assert_eq!(measurements_file_name(None, Some("txt")), "budgets-measurements.txt");
    assert_eq!(measurements_file_name(Some("x"), None), "x-measurements.json");
    assert_eq!(measurements_file_name(None, None), "budgets-measurements.json");
}

#[test]
fn the_detail_stays_in_the_summary_directory() {
    let summary = "reports/budgets/linux-cgroup.json";
    let detail = measurements_path(summary);
    assert_eq!(
        std::path::Path::new(&detail).parent(),
        std::path::Path::new(summary).parent()
    );
}

#[test]
fn an_absent_or_empty_rtt_falls_back_to_the_defaults() {
    let defaults = vec![0, 20, 80];
    assert_eq!(requested_profiles(None, &defaults), defaults);
    assert_eq!(requested_profiles(Some(""), &defaults), defaults);
    assert_eq!(requested_profiles(Some("5, 50,x"), &defaults), vec![5, 50]);
}

#[test]
fn the_measurements_go_into_the_summary_directory() {
    assert_eq!(measurements_directory("reports/budgets/linux-cgroup.json").as_deref(), Some("reports/budgets"));
    assert_eq!(measurements_directory("summary.json").as_deref(), Some(""));
    assert_eq!(measurements_directory("/").as_deref(), Some("/"));
}
