use flodviddar::report::{aggregate, log_sessions, render, Checks, LogLine, Section, ViolationReport};

fn all_checks() -> Checks {
    Checks { whitelist: true, blacklist: true, anomaly: true }
}

#[test]
fn two_blacklisted_sessions_make_a_violation() {
    let r = aggregate(all_checks(), true, Vec::<u32>::new(), vec![7, 9], Vec::new());
    assert!(r.has_violation());
    assert_eq!(r.blacklisted().len(), 2);
    assert!(r.whitelist_exceptions().is_empty());
    assert!(r.anomalous().is_empty());
    assert_eq!(r.violation_count(), 2);
}

#[test]
fn has_violation_follows_the_sets() {
    let empty = aggregate(all_checks(), true, Vec::<u32>::new(), Vec::new(), Vec::new());
    assert!(!empty.has_violation());
    let one = aggregate(all_checks(), true, Vec::new(), Vec::new(), vec![3u32]);
    assert!(one.has_violation());
    let fresh: ViolationReport<u32> = ViolationReport::empty();
    assert!(!fresh.has_violation());
}

#[test]
fn disabled_checks_contribute_nothing() {
    let checks = Checks { whitelist: false, blacklist: false, anomaly: true };
    let r = aggregate(checks, false, vec![1u32, 2], vec![3], vec![4]);
    assert!(r.whitelist_exceptions().is_empty());
    assert!(r.blacklisted().is_empty());
    assert_eq!(r.anomalous(), &vec![4]);
    let none = Checks { whitelist: false, blacklist: false, anomaly: false };
    assert!(none.none_enabled());
    assert!(!all_checks().none_enabled());
    let r = aggregate(none, false, vec![1u32], vec![2], vec![3]);
    assert!(!r.has_violation());
}

#[test]
fn conforming_whitelist_drops_exceptions() {
    let r = aggregate(all_checks(), true, vec![1u32], Vec::new(), Vec::new());
    assert!(!r.has_violation());
    let r = aggregate(all_checks(), false, vec![1u32], Vec::new(), Vec::new());
    assert!(r.has_violation());
    assert_eq!(r.whitelist_exceptions(), &vec![1]);
}

#[test]
fn duplicates_across_checks_are_kept_in_order() {
    let r = aggregate(all_checks(), false, vec![5u32, 6], vec![6], vec![5]);
    assert_eq!(r.into_violating(), vec![5, 6, 6, 5]);
}

#[test]
fn render_lists_counts_banner_sessions_and_verdict() {
    let r = aggregate(all_checks(), true, Vec::new(), vec![10u32, 11], vec![12]);
    let lines = render(r);
    assert_eq!(lines.len(), 7);
    assert!(matches!(lines[0], LogLine::Detected(Section::Blacklisted, 2)));
    assert!(matches!(lines[1], LogLine::Detected(Section::Anomalous, 1)));
    assert!(matches!(lines[2], LogLine::Banner));
    assert!(matches!(lines[3], LogLine::Session(10)));
    assert!(matches!(lines[4], LogLine::Session(11)));
    assert!(matches!(lines[5], LogLine::Session(12)));
    assert!(matches!(lines[6], LogLine::Verdict));
}

#[test]
fn empty_report_renders_no_violations() {
    let r: ViolationReport<u32> = ViolationReport::empty();
    let lines = render(r);
    assert_eq!(lines.len(), 1);
    assert!(matches!(lines[0], LogLine::NoViolations));
}

#[test]
fn log_and_json_view_name_the_same_sessions() {
    let r = aggregate(all_checks(), false, vec![1u32], vec![2, 3], vec![1]);
    let lines = render(r);
    assert_eq!(log_sessions(lines), vec![1, 2, 3, 1]);
    let empty: ViolationReport<u32> = ViolationReport::empty();
    assert!(log_sessions(render(empty)).is_empty());
}
