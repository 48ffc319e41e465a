use tartaros::feroxbuster::{parse_web_output, web_finding_of_fields, FeroxbusterScan};
use tartaros::lines::split_lines;
use tartaros::nuclei::{
    default_finding_values, default_matcher_name, parse_vuln_output, NucleiScan, Severity,
};
use tartaros::scan::Scan;

#[test]
fn corrupt_middle_line_is_skipped() {
    // One malformed line costs exactly its own record and one diagnostic;
    // the lines before and after it decode unaffected.
    let bytes = b"{\"url\":\"/a\",\"status\":200,\"word_count\":12}\n\
not-json\n\
{\"url\":\"/b\",\"status\":301,\"word_count\":0}\n"
        .to_vec();
    let (records, diagnostics) = parse_web_output(Some(&bytes));
    assert_eq!(records.len(), 2);
    assert_eq!(diagnostics, 1);
    assert_eq!(records[0].url, "/a");
    assert_eq!(records[0].status, 200);
    assert_eq!(records[0].word_count, 12);
    assert_eq!(records[1].url, "/b");
    assert_eq!(records[1].status, 301);
    assert_eq!(records[1].word_count, 0);
}

#[test]
fn web_lines_with_extra_fields_still_decode() {
    let bytes = b"{\"url\":\"/x\",\"status\":404,\"word_count\":3,\"line_count\":1}\n".to_vec();
    let (records, diagnostics) = parse_web_output(Some(&bytes));
    assert_eq!(records.len(), 1);
    assert_eq!(diagnostics, 0);
    assert_eq!(records[0].url, "/x");
}

#[test]
fn web_line_missing_field_is_rejected() {
    let bytes = b"{\"url\":\"/x\",\"status\":404}\n".to_vec();
    let (records, diagnostics) = parse_web_output(Some(&bytes));
    assert!(records.is_empty());
    assert_eq!(diagnostics, 1);
}

#[test]
fn web_line_with_out_of_range_number_is_rejected() {
    let bytes = b"{\"url\":\"/x\",\"status\":4294967296,\"word_count\":1}\n".to_vec();
    let (records, diagnostics) = parse_web_output(Some(&bytes));
    assert!(records.is_empty());
    assert_eq!(diagnostics, 1);
}

#[test]
fn web_fields_combine_exactly() {
    let r = web_finding_of_fields(Some("/p".to_string()), Some(200), Some(7)).unwrap();
    assert_eq!(r.url, "/p");
    assert_eq!(r.status, 200);
    assert_eq!(r.word_count, 7);
    assert!(web_finding_of_fields(None, Some(200), Some(7)).is_none());
    assert!(web_finding_of_fields(Some("/p".to_string()), None, Some(7)).is_none());
    assert!(web_finding_of_fields(Some("/p".to_string()), Some(200), None).is_none());
    assert!(web_finding_of_fields(Some("/p".to_string()), Some(1u64 << 32), Some(7)).is_none());
}

#[test]
fn unreadable_web_output_is_empty_with_one_diagnostic() {
    let (records, diagnostics) = parse_web_output(None);
    assert!(records.is_empty());
    assert_eq!(diagnostics, 1);
}

#[test]
fn empty_web_output_is_empty_success() {
    let (records, diagnostics) = parse_web_output(Some(&Vec::new()));
    assert!(records.is_empty());
    assert_eq!(diagnostics, 0);
}

#[test]
fn blank_lines_are_not_diagnostics() {
    let bytes = b"\n\n{\"url\":\"/a\",\"status\":200,\"word_count\":1}\n\n".to_vec();
    let (records, diagnostics) = parse_web_output(Some(&bytes));
    assert_eq!(records.len(), 1);
    assert_eq!(diagnostics, 0);
}

#[test]
fn split_lines_matches_line_reading_conventions() {
    let lines = split_lines(&b"a\r\nb\nc".to_vec());
    assert_eq!(lines, vec![b"a".to_vec(), b"b".to_vec(), b"c".to_vec()]);
    let lines = split_lines(&b"a\n\nb\n".to_vec());
    assert_eq!(lines, vec![b"a".to_vec(), b"".to_vec(), b"b".to_vec()]);
    assert!(split_lines(&Vec::new()).is_empty());
}

#[test]
fn vuln_line_decodes_all_fields() {
    let bytes = b"{\"template-id\":\"tech-detect\",\"info\":{\"severity\":\"high\"},\
\"type\":\"http\",\"matched-at\":\"https://host/\",\"matcher-name\":\"nginx\",\
\"extracted-results\":[\"v1\",\"v2\"]}\n"
        .to_vec();
    let (records, diagnostics) = parse_vuln_output(Some(&bytes));
    assert_eq!(records.len(), 1);
    assert_eq!(diagnostics, 0);
    let r = &records[0];
    assert_eq!(r.severity, "high");
    assert_eq!(r.template_id, "tech-detect");
    assert_eq!(r.template_type, "http");
    assert_eq!(r.location, "https://host/");
    assert_eq!(r.matcher_name, "nginx");
    assert_eq!(r.finding_values, vec!["v1".to_string(), "v2".to_string()]);
    assert_eq!(r.display_id(), "tech-detect:nginx");
    assert_eq!(r.joined_values(), "v1,v2");
}

#[test]
fn vuln_optional_fields_default() {
    let bytes = b"{\"template-id\":\"hdr\",\"info\":{\"severity\":\"info\"},\
\"type\":\"http\",\"matched-at\":\"https://host/\"}\n"
        .to_vec();
    let (records, diagnostics) = parse_vuln_output(Some(&bytes));
    assert_eq!(records.len(), 1);
    assert_eq!(diagnostics, 0);
    assert_eq!(records[0].matcher_name, "");
    assert!(records[0].finding_values.is_empty());
    assert_eq!(records[0].display_id(), "hdr");
    assert_eq!(records[0].joined_values(), "");
}

#[test]
fn vuln_line_with_bad_extracted_results_is_rejected() {
    let bytes = b"{\"template-id\":\"hdr\",\"info\":{\"severity\":\"low\"},\
\"type\":\"http\",\"matched-at\":\"x\",\"extracted-results\":[\"ok\",5]}\n"
        .to_vec();
    let (records, diagnostics) = parse_vuln_output(Some(&bytes));
    assert!(records.is_empty());
    assert_eq!(diagnostics, 1);
}

#[test]
fn vuln_line_missing_severity_is_rejected() {
    let bytes = b"{\"template-id\":\"hdr\",\"info\":{},\"type\":\"http\",\"matched-at\":\"x\"}\n"
        .to_vec();
    let (records, diagnostics) = parse_vuln_output(Some(&bytes));
    assert!(records.is_empty());
    assert_eq!(diagnostics, 1);
}

#[test]
fn severity_words_classify() {
    assert_eq!(Severity::classify(&"info".to_string()), Severity::Info);
    assert_eq!(Severity::classify(&"low".to_string()), Severity::Low);
    assert_eq!(Severity::classify(&"medium".to_string()), Severity::Medium);
    assert_eq!(Severity::classify(&"high".to_string()), Severity::High);
    assert_eq!(Severity::classify(&"critical".to_string()), Severity::Critical);
    assert_eq!(Severity::classify(&"bogus".to_string()), Severity::Info);
    assert_eq!(Severity::classify(&"".to_string()), Severity::Info);
}

#[test]
fn feroxbuster_argument_list_is_deterministic() {
    let scan = FeroxbusterScan::new("/tmp/out".to_string(), "example.org".to_string(), 80);
    assert_eq!(scan.output_file, "/tmp/out/feroxbuster");
    assert_eq!(scan.port, 80);
    assert_eq!(
        scan.scan_args,
        vec![
            "-u".to_string(),
            "https://example.org".to_string(),
            "-w".to_string(),
            "/Users/mick/Workspace/Wordlists/common.txt".to_string(),
            "-o".to_string(),
            "/tmp/out/feroxbuster".to_string(),
            "--json".to_string(),
        ]
    );
}

#[test]
fn nuclei_argument_list_is_deterministic() {
    let scan = NucleiScan::new("/tmp/out".to_string(), "example.org".to_string());
    assert_eq!(scan.output_file, "/tmp/out/nuclei");
    assert_eq!(
        scan.scan_args,
        vec![
            "-u".to_string(),
            "example.org".to_string(),
            "-ni".to_string(),
            "-fr".to_string(),
            "-o".to_string(),
            "/tmp/out/nuclei".to_string(),
            "-json".to_string(),
        ]
    );
}

#[test]
fn scanner_names() {
    let f = FeroxbusterScan::new("/tmp".to_string(), "h".to_string(), 80);
    let n = NucleiScan::new("/tmp".to_string(), "h".to_string());
    assert_eq!(f.scanner_name(), "feroxbuster");
    assert_eq!(n.scanner_name(), "nuclei");
}

#[test]
fn absent_optional_fields_take_their_defaults() {
    assert_eq!(default_finding_values(None), Some(Vec::new()));
    assert_eq!(
        default_finding_values(Some(Some(vec!["v".to_string()]))),
        Some(vec!["v".to_string()])
    );
    assert_eq!(default_finding_values(Some(None)), None);
    assert_eq!(default_matcher_name(None), Some(String::new()));
    assert_eq!(default_matcher_name(Some(Some("m".to_string()))), Some("m".to_string()));
    assert_eq!(default_matcher_name(Some(None)), None);
}
