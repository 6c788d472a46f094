use crate_latest::{
    crate_url, entry_line, error_prefix, gap_before_marker, indexed_line, is_success,
    latest_line, latest_stable, list_lines, missing_crate, no_stable_version,
    resolving_failure, user_agent, versions_url, yanked_marker, Action, Event, Line,
    ResolvingError, Settings, Version,
};

fn v(num: &str, yanked: bool) -> Version {
    Version::new(num.to_string(), yanked)
}

fn settings(name: &str, latest: Option<bool>) -> Settings {
    Settings::new(name.to_string(), latest)
}

fn printed(a: Action) -> Vec<String> {
    match a {
        Action::Print(ls) => ls.iter().map(|l: &Line| l.plain()).collect(),
        _ => panic!("expected lines to print"),
    }
}

fn failure_of(a: Action) -> (String, i32) {
    match a {
        Action::Fail(f) => (f.message, f.exit_code),
        _ => panic!("expected a failure"),
    }
}

fn existence_request_of(a: Action) -> (String, String) {
    match a {
        Action::CheckExistence(q) => (q.url, q.user_agent),
        _ => panic!("expected the existence request"),
    }
}

fn versions_request_of(a: Action) -> (String, String) {
    match a {
        Action::FetchVersions(q) => (q.url, q.user_agent),
        _ => panic!("expected the version request"),
    }
}

#[test]
fn start_asks_whether_the_crate_exists() {
    let (url, agent) = existence_request_of(settings("serde", None).next_action(Event::Started));
    assert_eq!(url, "http://crates.io/api/v1/crates/serde");
    assert_eq!(agent, "get last version cli");
}

#[test]
fn existing_crate_leads_to_the_version_request() {
    let s = settings("serde", None);
    for code in [200u16, 204, 299] {
        let (url, agent) = versions_request_of(s.next_action(Event::ExistenceStatus(code)));
        assert_eq!(url, "http://crates.io/api/v1/crates/serde/versions");
        assert_eq!(agent, "get last version cli");
    }
}

#[test]
fn absent_crate_stops_with_does_not_exist() {
    let s = settings("no-such-crate", None);
    for code in [404u16, 199, 300, 500] {
        let (msg, exit) = failure_of(s.next_action(Event::ExistenceStatus(code)));
        assert_eq!(msg, "Crate with name 'no-such-crate' does not exist");
        assert_eq!(exit, 1);
    }
}

#[test]
fn transport_failure_on_existence_is_request_error() {
    let (msg, exit) = failure_of(settings("serde", None).next_action(Event::ExistenceUnreachable));
    assert_eq!(msg, "Check internet connection");
    assert_eq!(exit, 1);
}

#[test]
fn transport_failure_on_versions_is_request_error() {
    let (msg, exit) = failure_of(settings("serde", None).next_action(Event::VersionsUnreachable));
    assert_eq!(msg, "Check internet connection");
    assert_eq!(exit, 1);
}

#[test]
fn unreadable_versions_is_parse_error() {
    let (msg, exit) = failure_of(settings("serde", None).next_action(Event::VersionsUnreadable));
    assert_eq!(msg, "Failed to parse versions for crate. Check crate name!");
    assert_eq!(exit, 1);
}

#[test]
fn canned_history_in_latest_mode() {
    let vs = vec![v("1.0.0", false), v("1.1.0", true)];
    let out = printed(settings("name", None).next_action(Event::VersionsListed(vs)));
    assert_eq!(out, vec!["name = \"1.0.0\"".to_string()]);
}

#[test]
fn canned_history_in_list_mode() {
    let vs = vec![v("1.0.0", false), v("1.1.0", true)];
    let out = printed(settings("name", Some(false)).next_action(Event::VersionsListed(vs)));
    assert_eq!(
        out,
        vec![
            format!("[  1] name = \"1.1.0\"{}yanked", " ".repeat(15)),
            "[  2] name = \"1.0.0\"".to_string(),
        ]
    );
}

#[test]
fn explicit_true_is_latest_mode() {
    let vs = vec![v("0.1.0", false), v("0.2.0", false)];
    let out = printed(settings("x", Some(true)).next_action(Event::VersionsListed(vs)));
    assert_eq!(out, vec!["x = \"0.1.0\"".to_string()]);
}

#[test]
fn latest_is_first_stable_in_registry_order() {
    let vs = vec![v("0.1.0", true), v("0.2.0", false), v("0.3.0", false), v("0.4.0", true)];
    assert_eq!(latest_stable(&vs), Some(1));
    let l = latest_line("pkg", &vs).unwrap();
    assert_eq!(l.plain(), "pkg = \"0.2.0\"");
    assert!(!l.yanked);
    assert_eq!(l.gap, "");
}

#[test]
fn all_yanked_has_no_stable_version() {
    let vs = vec![v("0.1.0", true), v("0.2.0", true)];
    assert_eq!(latest_stable(&vs), None);
    assert!(latest_line("pkg", &vs).is_none());
    let (msg, exit) = failure_of(settings("pkg", None).next_action(Event::VersionsListed(vs)));
    assert_eq!(msg, "No stable version was found for crate!");
    assert_eq!(exit, 1);
}

#[test]
fn empty_history_has_no_stable_version() {
    let vs: Vec<Version> = Vec::new();
    assert_eq!(latest_stable(&vs), None);
    let (msg, _) = failure_of(settings("pkg", None).next_action(Event::VersionsListed(vs)));
    assert_eq!(msg, "No stable version was found for crate!");
}

#[test]
fn empty_history_lists_nothing() {
    let vs: Vec<Version> = Vec::new();
    assert!(list_lines("pkg", &vs).is_empty());
    let out = printed(settings("pkg", Some(false)).next_action(Event::VersionsListed(vs)));
    assert!(out.is_empty());
}

#[test]
fn list_has_one_line_per_version_newest_first() {
    let vs = vec![v("0.1.0", false), v("0.2.0", true), v("0.3.0", false)];
    let ls = list_lines("c", &vs);
    assert_eq!(ls.len(), 3);
    assert_eq!(ls[0].plain(), "[  1] c = \"0.3.0\"");
    assert_eq!(ls[1].plain(), format!("[  2] c = \"0.2.0\"{}yanked", " ".repeat(15)));
    assert_eq!(ls[2].plain(), "[  3] c = \"0.1.0\"");
}

#[test]
fn index_wider_than_three_is_not_cut() {
    let l = indexed_line("c", 1234, &v("1.0.0", false));
    assert_eq!(l.plain(), "[1234] c = \"1.0.0\"");
    let l = indexed_line("c", 42, &v("1.0.0", false));
    assert_eq!(l.plain(), "[ 42] c = \"1.0.0\"");
    let l = indexed_line("c", 100, &v("1.0.0", false));
    assert_eq!(l.plain(), "[100] c = \"1.0.0\"");
    let l = indexed_line("c", 0, &v("1.0.0", false));
    assert_eq!(l.plain(), "[  0] c = \"1.0.0\"");
}

#[test]
fn long_list_numbers_every_line() {
    let vs: Vec<Version> = (0..12).map(|i| v(&format!("0.{}.0", i), false)).collect();
    let ls = list_lines("c", &vs);
    assert_eq!(ls.len(), 12);
    assert_eq!(ls[0].plain(), "[  1] c = \"0.11.0\"");
    assert_eq!(ls[11].plain(), "[ 12] c = \"0.0.0\"");
}

#[test]
fn yanked_gap_fills_to_column_twenty() {
    assert_eq!(gap_before_marker("1.1.0"), 15);
    assert_eq!(gap_before_marker(""), 20);
    assert_eq!(gap_before_marker("0.0.0-prerelease.12"), 1);
    let l = entry_line("n", &v("1.1.0", true));
    assert!(l.yanked);
    assert_eq!(l.text, "n = \"1.1.0\"");
    assert_eq!(l.gap, " ".repeat(15));
    assert_eq!(l.plain(), format!("n = \"1.1.0\"{}yanked", " ".repeat(15)));
}

#[test]
fn long_version_gets_no_gap() {
    assert_eq!(gap_before_marker("0.0.0-prerelease.123456"), 0);
    assert_eq!(gap_before_marker("0.0.0-prerelease.12x"), 0);
    let l = indexed_line("n", 1, &v("0.0.0-prerelease.123456", true));
    assert_eq!(l.gap, "");
    assert_eq!(l.plain(), "[  1] n = \"0.0.0-prerelease.123456\"yanked");
}

#[test]
fn non_yanked_line_has_no_gap() {
    let l = entry_line("n", &v("1.0.0", false));
    assert!(!l.yanked);
    assert_eq!(l.gap, "");
    assert_eq!(l.plain(), "n = \"1.0.0\"");
}

#[test]
fn settings_default_to_latest_mode() {
    assert!(settings("a", None).latest_only());
    assert!(settings("a", Some(true)).latest_only());
    assert!(!settings("a", Some(false)).latest_only());
}

#[test]
fn success_statuses() {
    assert!(is_success(200));
    assert!(is_success(299));
    assert!(!is_success(199));
    assert!(!is_success(300));
    assert!(!is_success(404));
}

#[test]
fn urls_and_agent() {
    assert_eq!(crate_url("tokio"), "http://crates.io/api/v1/crates/tokio");
    assert_eq!(versions_url("tokio"), "http://crates.io/api/v1/crates/tokio/versions");
    assert_eq!(user_agent(), "get last version cli");
}

#[test]
fn failure_messages() {
    assert_eq!(missing_crate("abc").message, "Crate with name 'abc' does not exist");
    assert_eq!(no_stable_version().message, "No stable version was found for crate!");
    let f = resolving_failure(ResolvingError::CrateNotFound);
    assert_eq!(f.message, "Crate with this name is not found");
    assert_eq!(f.exit_code, 1);
    assert_eq!(ResolvingError::RequestError.message(), "Check internet connection");
    assert_eq!(
        ResolvingError::VersionsParseError.message(),
        "Failed to parse versions for crate. Check crate name!"
    );
    assert_eq!(error_prefix(), "[ERROR]:");
    assert_eq!(yanked_marker(), "yanked");
}

#[test]
fn unicode_name_and_version() {
    let l = entry_line("ü", &v("1.0.0-β", true));
    assert_eq!(l.text, "ü = \"1.0.0-β\"");
    assert_eq!(l.gap, " ".repeat(12));
    assert_eq!(gap_before_marker("é"), 18);
    assert_eq!(gap_before_marker("\u{1F600}\u{1F600}\u{1F600}\u{1F600}\u{1F600}"), 0);
}
