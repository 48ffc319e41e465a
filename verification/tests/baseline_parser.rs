use tartaros::nmap::{parse_inventory, NmapScan, PortState};
use tartaros::scan::Scan;
use tartaros::tags::{Attr, TagEvent};

fn start(name: &str, attrs: Vec<(&str, &str)>) -> TagEvent {
    TagEvent::Start {
        name: name.to_string(),
        attrs: attrs
            .into_iter()
            .map(|(n, v)| Attr { name: n.to_string(), value: v.to_string() })
            .collect(),
    }
}

fn end(name: &str) -> TagEvent {
    TagEvent::End { name: name.to_string() }
}

#[test]
fn two_port_document_yields_two_records_in_order() {
    let xml = b"<?xml version=\"1.0\"?>\n<nmaprun><host><ports>\
<port protocol=\"tcp\" portid=\"80\"><state state=\"open\" reason=\"syn-ack\"/>\
<service name=\"http\" product=\"nginx\" version=\"1.18\"/></port>\
<port protocol=\"tcp\" portid=\"445\"><state state=\"filtered\"/>\
<service name=\"netbios-ssn\"/></port>\
</ports></host></nmaprun>";
    let scan = NmapScan::new("/tmp/out".to_string(), "host".to_string());
    let (records, diagnostics) = scan.parse_output(Some(&xml.to_vec()));
    assert_eq!(records.len(), 2);
    assert_eq!(diagnostics, 0);
    assert_eq!(records[0].port.num, "80");
    assert_eq!(records[0].port.state, PortState::Open);
    assert_eq!(records[0].service_name, "http: nginx");
    assert_eq!(records[0].service_version, "1.18");
    assert_eq!(records[1].port.num, "445");
    assert_eq!(records[1].port.state, PortState::Filtered);
    assert_eq!(records[1].service_name, "netbios-ssn");
    assert_eq!(records[1].service_version, "");
}

#[test]
fn service_concatenation_rule() {
    // name, then product with the separator, and the version verbatim.
    let events = vec![
        start("port", vec![("portid", "80")]),
        start("state", vec![("state", "open")]),
        start("service", vec![("name", "http"), ("product", "nginx"), ("version", "1.18")]),
        end("port"),
    ];
    let (records, diagnostics) = parse_inventory(&events);
    assert_eq!(diagnostics, 0);
    assert_eq!(records.len(), 1);
    assert_eq!(records[0].service_name, "http: nginx");
    assert_eq!(records[0].service_version, "1.18");
}

#[test]
fn product_without_name_gets_no_separator() {
    let events = vec![
        start("port", vec![("portid", "22")]),
        start("service", vec![("product", "OpenSSH")]),
        end("port"),
    ];
    let (records, _) = parse_inventory(&events);
    assert_eq!(records[0].service_name, "OpenSSH");
}

#[test]
fn record_count_matches_port_end_markers() {
    let mut events = Vec::new();
    for i in 0..5u32 {
        events.push(start("port", vec![("portid", &i.to_string())]));
        events.push(start("state", vec![("state", "open")]));
        events.push(end("port"));
    }
    let (records, _) = parse_inventory(&events);
    assert_eq!(records.len(), 5);
    for (i, r) in records.iter().enumerate() {
        assert_eq!(r.port.num, i.to_string());
        assert_eq!(r.port.state, PortState::Open);
    }
}

#[test]
fn state_defaults_to_filtered_unless_open() {
    let events = vec![
        start("port", vec![("portid", "53")]),
        start("state", vec![("state", "open|filtered")]),
        end("port"),
    ];
    let (records, _) = parse_inventory(&events);
    assert_eq!(records[0].port.state, PortState::Filtered);
}

#[test]
fn record_without_state_marker_stays_unknown() {
    let events = vec![start("port", vec![("portid", "9")]), end("port")];
    let (records, _) = parse_inventory(&events);
    assert_eq!(records[0].port.state, PortState::Unknown);
}

#[test]
fn malformed_marker_is_counted_and_skipped() {
    let events = vec![
        start("port", vec![("portid", "80")]),
        start("state", vec![("state", "open")]),
        TagEvent::Malformed,
        end("port"),
    ];
    let (records, diagnostics) = parse_inventory(&events);
    assert_eq!(records.len(), 1);
    assert_eq!(diagnostics, 1);
    assert_eq!(records[0].port.num, "80");
    assert_eq!(records[0].port.state, PortState::Open);
}

#[test]
fn duplicate_port_markers_overwrite() {
    // A repeated port marker overwrites the number in place, it does not
    // append: the record carries the last value seen, never a concatenation.
    let events = vec![
        start("port", vec![("portid", "80")]),
        start("port", vec![("portid", "80")]),
        end("port"),
    ];
    let (records, _) = parse_inventory(&events);
    assert_eq!(records.len(), 1);
    assert_eq!(records[0].port.num, "80");
}

#[test]
fn duplicate_portid_attributes_last_wins() {
    let events = vec![
        start("port", vec![("portid", "8"), ("portid", "0")]),
        end("port"),
    ];
    let (records, _) = parse_inventory(&events);
    assert_eq!(records[0].port.num, "0");
}

#[test]
fn unreadable_output_is_empty_with_one_diagnostic() {
    let scan = NmapScan::new("/tmp/out".to_string(), "host".to_string());
    let (records, diagnostics) = scan.parse_output(None);
    assert!(records.is_empty());
    assert_eq!(diagnostics, 1);
}

#[test]
fn truncated_document_keeps_completed_records() {
    // The document breaks off after the first complete port element: that
    // record is kept and the broken tail costs one diagnostic.
    let xml = b"<?xml version=\"1.0\"?>\n<nmaprun><ports>\
<port portid=\"80\"><state state=\"open\"/></port><port portid=\"4";
    let scan = NmapScan::new("/tmp/out".to_string(), "host".to_string());
    let (records, diagnostics) = scan.parse_output(Some(&xml.to_vec()));
    assert_eq!(records.len(), 1);
    assert_eq!(records[0].port.num, "80");
    assert_eq!(records[0].port.state, PortState::Open);
    assert_eq!(diagnostics, 1);
}

#[test]
fn nmap_argument_list_is_deterministic() {
    let scan = NmapScan::new("/tmp/out".to_string(), "example.org".to_string());
    assert_eq!(scan.output_file, "/tmp/out/nmap_xml");
    assert_eq!(
        scan.scan_args,
        vec![
            "-sV".to_string(),
            "-sC".to_string(),
            "-oX".to_string(),
            "/tmp/out/nmap_xml".to_string(),
            "-oN".to_string(),
            "/tmp/out/nmap_raw".to_string(),
            "example.org".to_string(),
        ]
    );
}

#[test]
fn port_state_labels() {
    assert_eq!(PortState::Open.label(), "Open");
    assert_eq!(PortState::Filtered.label(), "Filtered");
    assert_eq!(PortState::Unknown.label(), "Unknown");
}
