use tartaros::engine::{
    always_triggers, compute_plan, count_successes, outcome_of_error, port443_triggers,
    port445_triggers, port80_triggers, run, wrap_vuln_findings, wrap_web_findings, Dispatcher,
    EngineStatus, Finding, ScanOutcome, ScanTriggers, ScannerKind,
};
use tartaros::error::{handle_scan_error, ScanError};
use tartaros::feroxbuster::{FeroxbusterScan, FeroxbusterScanResult};
use tartaros::nmap::{NmapScanResult, Port, PortState};
use tartaros::nuclei::NucleiScanResult;
use tartaros::scan::{command_message, run_outcome};

fn record(num: &str, state: PortState, service: &str) -> NmapScanResult {
    NmapScanResult {
        port: Port { num: num.to_string(), state },
        service_name: service.to_string(),
        service_version: String::new(),
    }
}

#[test]
fn both_mapped_ports_trigger_exactly_once() {
    // Two open ports with rules: each listed scanner is planned exactly
    // once, and nothing is planned for any other port.
    let inventory = vec![record("80", PortState::Open, "http"), record(
        "445",
        PortState::Open,
        "netbios",
    )];
    let plan = compute_plan(&inventory, &ScanTriggers::new());
    assert_eq!(plan.len(), 2);
    assert_eq!(plan[0].port, "80");
    assert_eq!(plan[0].scanner, ScannerKind::Feroxbuster);
    assert_eq!(plan[1].port, "445");
    assert_eq!(plan[1].scanner, ScannerKind::SmbSuite);
}

#[test]
fn empty_inventory_short_circuits() {
    let plan = run(&Vec::new(), &ScanTriggers::new());
    assert_eq!(plan.status, EngineStatus::NoOpenPorts);
    assert!(plan.dispatch.is_empty());
    assert_eq!(plan.unconditional, vec![ScannerKind::Nuclei]);
}

#[test]
fn zero_open_ports_zero_invocations() {
    let inventory = vec![record("80", PortState::Filtered, "http"), record(
        "445",
        PortState::Filtered,
        "netbios",
    )];
    let plan = run(&inventory, &ScanTriggers::new());
    assert_eq!(plan.status, EngineStatus::Dispatched);
    assert!(plan.dispatch.is_empty());
}

#[test]
fn repeated_open_port_does_not_retrigger() {
    let inventory = vec![
        record("80", PortState::Open, "http"),
        record("80", PortState::Open, "http"),
    ];
    let plan = compute_plan(&inventory, &ScanTriggers::new());
    assert_eq!(plan.len(), 1);
    assert_eq!(plan[0].port, "80");
}

#[test]
fn unmapped_open_port_triggers_nothing() {
    let inventory = vec![record("8080", PortState::Open, "http-proxy")];
    let plan = compute_plan(&inventory, &ScanTriggers::new());
    assert!(plan.is_empty());
}

#[test]
fn dispatch_depends_only_on_open_port_set() {
    let fwd = vec![record("80", PortState::Open, ""), record("445", PortState::Open, "")];
    let rev = vec![
        record("445", PortState::Open, ""),
        record("80", PortState::Open, ""),
        record("445", PortState::Open, ""),
    ];
    let triggers = ScanTriggers::new();
    let mut a: Vec<(String, ScannerKind)> = compute_plan(&fwd, &triggers)
        .into_iter()
        .map(|i| (i.port, i.scanner))
        .collect();
    let mut b: Vec<(String, ScannerKind)> = compute_plan(&rev, &triggers)
        .into_iter()
        .map(|i| (i.port, i.scanner))
        .collect();
    a.sort();
    b.sort();
    assert_eq!(a, b);
}

#[test]
fn not_installed_does_not_block_others() {
    // The first scanner's tool is absent; the second invocation still
    // stands and still runs.
    let inventory = vec![record("80", PortState::Open, "http"), record(
        "445",
        PortState::Open,
        "netbios",
    )];
    let mut dispatcher = Dispatcher::new(ScanTriggers::new());
    dispatcher.dispatch(&inventory);
    let first = dispatcher.next_invocation().unwrap();
    assert_eq!(first.port, "80");
    dispatcher.record_outcome(ScanOutcome::NotInstalled("feroxbuster".to_string()));
    let second = dispatcher.next_invocation().expect("second invocation must survive");
    assert_eq!(second.port, "445");
    assert_eq!(second.scanner, ScannerKind::SmbSuite);
    dispatcher.record_outcome(ScanOutcome::Success(Vec::new()));
    assert!(dispatcher.next_invocation().is_none());
    assert_eq!(dispatcher.outcomes.len(), 2);
    assert!(matches!(dispatcher.outcomes[0], ScanOutcome::NotInstalled(_)));
    assert!(matches!(dispatcher.outcomes[1], ScanOutcome::Success(_)));
}

#[test]
fn empty_plan_is_done_at_once() {
    let mut dispatcher = Dispatcher::new(ScanTriggers::new());
    dispatcher.dispatch(&Vec::new());
    assert!(dispatcher.next_invocation().is_none());
    assert!(dispatcher.outcomes.is_empty());
}

#[test]
fn trigger_lists() {
    assert_eq!(always_triggers(), vec![ScannerKind::Nuclei]);
    assert_eq!(port80_triggers(), vec![ScannerKind::Feroxbuster]);
    assert_eq!(port443_triggers(), vec![ScannerKind::Feroxbuster]);
    assert_eq!(port445_triggers(), vec![ScannerKind::SmbSuite]);
    let triggers = ScanTriggers::new();
    assert_eq!(triggers.scanners_for(&"443".to_string()), vec![ScannerKind::Feroxbuster]);
    assert!(triggers.scanners_for(&"8080".to_string()).is_empty());
}

#[test]
fn run_outcome_not_installed() {
    let scan = FeroxbusterScan::new("/tmp".to_string(), "h".to_string(), 80);
    let r = run_outcome(&scan, false, false, None);
    match r {
        Err(ScanError::NotInstalled(name)) => assert_eq!(name, "feroxbuster"),
        _ => panic!("expected a not-installed error"),
    }
}

#[test]
fn run_outcome_runtime_failure() {
    let scan = FeroxbusterScan::new("/tmp".to_string(), "h".to_string(), 80);
    let r = run_outcome(&scan, true, false, None);
    match r {
        Err(ScanError::Runtime(name)) => assert_eq!(name, "feroxbuster"),
        _ => panic!("expected a runtime error"),
    }
}

#[test]
fn run_outcome_success_decodes_output() {
    let scan = FeroxbusterScan::new("/tmp".to_string(), "h".to_string(), 80);
    let bytes = b"{\"url\":\"/a\",\"status\":200,\"word_count\":2}\n".to_vec();
    let (records, diagnostics) = run_outcome(&scan, true, true, Some(&bytes)).unwrap();
    assert_eq!(records.len(), 1);
    assert_eq!(diagnostics, 0);
    assert_eq!(records[0].url, "/a");
}

#[test]
fn run_outcome_unreadable_output_is_empty_success() {
    let scan = FeroxbusterScan::new("/tmp".to_string(), "h".to_string(), 80);
    let (records, diagnostics) = run_outcome(&scan, true, true, None).unwrap();
    assert!(records.is_empty());
    assert_eq!(diagnostics, 1);
}

#[test]
fn error_messages() {
    assert_eq!(
        handle_scan_error(&ScanError::NotInstalled("nuclei".to_string())),
        "nuclei: Not installed, skipping this scan."
    );
    assert_eq!(
        handle_scan_error(&ScanError::Runtime("nmap".to_string())),
        "nmap: Encountered runtime error"
    );
}

#[test]
fn command_message_joins_arguments() {
    let scan = FeroxbusterScan::new("/t".to_string(), "h".to_string(), 80);
    assert_eq!(
        command_message(&scan),
        "Command used: feroxbuster -u https://h -w \
/Users/mick/Workspace/Wordlists/common.txt -o /t/feroxbuster --json"
    );
}

#[test]
fn findings_wrap_in_order() {
    let web = vec![FeroxbusterScanResult { url: "/a".to_string(), status: 200, word_count: 1 }];
    let wrapped = wrap_web_findings(web);
    assert_eq!(wrapped.len(), 1);
    match &wrapped[0] {
        Finding::WebPath(f) => assert_eq!(f.url, "/a"),
        _ => panic!("expected a web-path finding"),
    }
    let vuln = vec![NucleiScanResult {
        severity: "low".to_string(),
        template_id: "t".to_string(),
        template_type: "http".to_string(),
        finding_values: vec!["v".to_string()],
        matcher_name: String::new(),
        location: "x".to_string(),
    }];
    let wrapped = wrap_vuln_findings(vuln);
    assert_eq!(wrapped.len(), 1);
    match &wrapped[0] {
        Finding::Vulnerability(f) => assert_eq!(f.template_id, "t"),
        _ => panic!("expected a vulnerability finding"),
    }
}

#[test]
fn outcomes_carry_names_and_detail() {
    match outcome_of_error(ScanError::NotInstalled("x".to_string()), String::new()) {
        ScanOutcome::NotInstalled(name) => assert_eq!(name, "x"),
        _ => panic!("expected a not-installed outcome"),
    }
    match outcome_of_error(ScanError::Runtime("y".to_string()), "spawn failed".to_string()) {
        ScanOutcome::RuntimeFailure(name, detail) => {
            assert_eq!(name, "y");
            assert_eq!(detail, "spawn failed");
        },
        _ => panic!("expected a runtime-failure outcome"),
    }
}

#[test]
fn success_count_reflects_outcome_union() {
    let outcomes = vec![
        ScanOutcome::Success(Vec::new()),
        ScanOutcome::NotInstalled("feroxbuster".to_string()),
        ScanOutcome::RuntimeFailure("nuclei".to_string(), "spawn failed".to_string()),
        ScanOutcome::Success(Vec::new()),
    ];
    assert_eq!(count_successes(&outcomes), 2);
    assert_eq!(count_successes(&Vec::new()), 0);
}
