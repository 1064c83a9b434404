use powerhouse::service::{analyze, analyze_with_limits, parse_unit_line, AnalysisLimits};

#[test]
fn parses_service_inventory_line() {
    let service =
        parse_unit_line("ssh.service loaded active running OpenSSH server daemon").unwrap();
    assert_eq!(service.name, "ssh.service");
    assert_eq!(service.active_state, "active");
    assert_eq!(service.sub_state, "running");
    assert_eq!(service.description, "OpenSSH server daemon");
}

#[test]
fn ignores_non_service_units() {
    assert!(parse_unit_line("multi-user.target loaded active active Multi-User System").is_none());
}

#[test]
fn short_lines_are_not_services() {
    assert!(parse_unit_line("a.service loaded active").is_none());
    let bare = parse_unit_line("  a.service   loaded\tactive   exited  ").unwrap();
    assert_eq!(bare.load_state, "loaded");
    assert_eq!(bare.description, "");
    assert_eq!(bare.unit_file_state, None);
}

const INVENTORY: &str = "a.service loaded failed failed A\n\
b.service loaded inactive dead B\n\
c.target loaded active active C\n\
d.service loaded inactive dead D\n";

#[test]
fn inventory_counts_failed_and_inactive_services() {
    let analysis = analyze(INVENTORY);
    assert_eq!(analysis.services_scanned, 3);
    assert!(!analysis.truncated);
    assert_eq!(analysis.failed_services, 1);
    assert_eq!(analysis.inactive_services, 2);
    assert_eq!(analysis.anomalies.len(), 1);
    assert_eq!(analysis.anomalies[0].kind, "failed-services");
    assert_eq!(analysis.anomalies[0].description, "Observed 1 failed service(s).");
}

#[test]
fn inventory_is_bounded_and_marks_truncation() {
    let analysis = analyze_with_limits(INVENTORY, AnalysisLimits { max_services: 2, top_n: 1 });
    assert_eq!(analysis.services_scanned, 2);
    assert!(analysis.truncated);
    assert_eq!(analysis.services[1].name, "b.service");
    assert_eq!(analysis.inactive_services, 1);
    assert_eq!(analysis.anomalies.len(), 1);
}

#[test]
fn many_inactive_services_are_an_anomaly() {
    let analysis = analyze_with_limits(INVENTORY, AnalysisLimits { max_services: 10, top_n: 1 });
    assert!(!analysis.truncated);
    assert_eq!(analysis.anomalies.len(), 1);
    let analysis = analyze_with_limits(INVENTORY, AnalysisLimits { max_services: 10, top_n: 0 });
    assert!(analysis.anomalies.is_empty());
    let analysis = analyze_with_limits(
        "b.service loaded inactive dead B\nd.service loaded inactive dead D\n",
        AnalysisLimits { max_services: 10, top_n: 1 },
    );
    assert_eq!(analysis.anomalies[0].kind, "inactive-services");
    assert_eq!(
        analysis.anomalies[0].description,
        "Observed 2 inactive service(s) in the bounded inventory."
    );
}

#[test]
fn a_full_inventory_with_nothing_left_is_not_truncated() {
    let analysis = analyze_with_limits(
        "a.service loaded active running A\n",
        AnalysisLimits { max_services: 1, top_n: 5 },
    );
    assert!(!analysis.truncated);
    assert_eq!(analysis.services_scanned, 1);
    assert!(analysis.anomalies.is_empty());
}
