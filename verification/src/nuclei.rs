//! Template-based vulnerability scanner, run unconditionally at the start of
//! the pipeline.
//!
//! The external tool writes one JSON record per line; each line decodes
//! independently into a [`NucleiScanResult`], and a line that fails to
//! decode is counted and discarded without touching the rest (see
//! [`crate::lines`]). A record's severity word is classified into the fixed
//! [`Severity`] set for presentation; an unrecognized word counts as the
//! lowest severity, never as an error.

use vstd::prelude::*;

use crate::json::{json_as_array, json_as_str, json_get, json_parse};
use crate::lines::{count_nonempty, count_nones, lines_of, somes_of, split_lines};
use crate::scan::{join_sep, join_with, Scan};

verus! {

/// The fixed severity scale, lowest first. It orders and colors the report;
/// it never fails a record.
#[derive(Clone, Copy, PartialEq, Eq, Structural, Debug)]
pub enum Severity {
    Info,
    Low,
    Medium,
    High,
    Critical,
}

/// The class a severity word falls in: one of the four named levels, and
/// everything else — including the word `info` itself — is `Info`.
pub open spec fn severity_class(word: Seq<char>) -> Severity {
    if word == "low"@ {
        Severity::Low
    } else if word == "medium"@ {
        Severity::Medium
    } else if word == "high"@ {
        Severity::High
    } else if word == "critical"@ {
        Severity::Critical
    } else {
        Severity::Info
    }
}

impl Severity {
    /// Classifies a record's severity word; an unrecognized word is the
    /// lowest-priority default, never an error.
    pub fn classify(word: &String) -> (s: Severity)
        ensures
            s == severity_class(word@),
    {
        if *word == "low".to_owned() {
            Severity::Low
        } else if *word == "medium".to_owned() {
            Severity::Medium
        } else if *word == "high".to_owned() {
            Severity::High
        } else if *word == "critical".to_owned() {
            Severity::Critical
        } else {
            Severity::Info
        }
    }
}

/// One matched vulnerability template: what matched, where, and what values
/// were extracted.
pub struct NucleiScanResult {
    /// The severity word as the tool reported it.
    pub severity: String,
    pub template_id: String,
    pub template_type: String,
    /// The values the template extracted; empty when the record carried
    /// none.
    pub finding_values: Vec<String>,
    /// The matcher that fired; empty when the record carried none.
    pub matcher_name: String,
    /// Where the template matched.
    pub location: String,
}

/// The mathematical value of a [`NucleiScanResult`].
pub struct VulnModel {
    pub severity: Seq<char>,
    pub template_id: Seq<char>,
    pub template_type: Seq<char>,
    pub finding_values: Seq<Seq<char>>,
    pub matcher_name: Seq<char>,
    pub location: Seq<char>,
}

impl View for NucleiScanResult {
    type V = VulnModel;

    open spec fn view(&self) -> VulnModel {
        VulnModel {
            severity: self.severity@,
            template_id: self.template_id@,
            template_type: self.template_type@,
            finding_values: self.finding_values.deep_view(),
            matcher_name: self.matcher_name@,
            location: self.location@,
        }
    }
}

impl DeepView for NucleiScanResult {
    type V = VulnModel;

    open spec fn deep_view(&self) -> VulnModel {
        self@
    }
}

/// When the fields of one line make a record: every one present (a missing
/// optional field was already defaulted by the caller).
pub open spec fn vuln_fields_ok(
    severity: Option<String>,
    template_id: Option<String>,
    template_type: Option<String>,
    finding_values: Option<Vec<String>>,
    matcher_name: Option<String>,
    location: Option<String>,
) -> bool {
    &&& severity is Some
    &&& template_id is Some
    &&& template_type is Some
    &&& finding_values is Some
    &&& matcher_name is Some
    &&& location is Some
}

/// Builds one record from the fields read out of one line: a record exactly
/// when every field is present, with the fields carried over unchanged;
/// otherwise the line is rejected.
pub fn vuln_of_fields(
    severity: Option<String>,
    template_id: Option<String>,
    template_type: Option<String>,
    finding_values: Option<Vec<String>>,
    matcher_name: Option<String>,
    location: Option<String>,
) -> (r: Option<NucleiScanResult>)
    ensures
        r is Some <==> vuln_fields_ok(
            severity,
            template_id,
            template_type,
            finding_values,
            matcher_name,
            location,
        ),
        r matches Some(f) ==> {
            &&& severity matches Some(s) && f.severity@ == s@
            &&& template_id matches Some(t) && f.template_id@ == t@
            &&& template_type matches Some(t) && f.template_type@ == t@
            &&& finding_values matches Some(v) && f.finding_values.deep_view() == v.deep_view()
            &&& matcher_name matches Some(m) && f.matcher_name@ == m@
            &&& location matches Some(l) && f.location@ == l@
        },
{
    match (severity, template_id, template_type, finding_values, matcher_name, location) {
        (Some(severity), Some(template_id), Some(template_type), Some(finding_values), Some(
            matcher_name,
        ), Some(location)) => Some(
            NucleiScanResult {
                severity,
                template_id,
                template_type,
                finding_values,
                matcher_name,
                location,
            },
        ),
        _ => None,
    }
}

/// The defaulting rule for the extracted values: an absent field is no
/// values at all, while a present field stands or falls with its own
/// decode — a present but undecodable one still rejects the line.
pub fn default_finding_values(read: Option<Option<Vec<String>>>) -> (r: Option<Vec<String>>)
    ensures
        read is None ==> (r matches Some(v) && v@.len() == 0),
        read matches Some(x) ==> r == x,
{
    match read {
        None => Some(Vec::new()),
        Some(x) => x,
    }
}

/// The defaulting rule for the matcher name: an absent field is the empty
/// name, while a present field stands or falls with its own decode.
pub fn default_matcher_name(read: Option<Option<String>>) -> (r: Option<String>)
    ensures
        read is None ==> (r matches Some(s) && s@.len() == 0),
        read matches Some(x) ==> r == x,
{
    match read {
        None => Some(String::new()),
        Some(x) => x,
    }
}

/// Reads a JSON array out as strings: `None` as soon as one element is not
/// a string, as the whole line is then rejected.
fn values_to_strings(vals: &Vec<serde_json::Value>) -> Option<Vec<String>> {
    let mut out: Vec<String> = Vec::new();
    let mut i: usize = 0;
    while i < vals.len()
        decreases vals.len() - i,
    {
        match json_as_str(&vals[i]) {
            Some(s) => out.push(s),
            None => {
                return None;
            },
        }
        i += 1;
    }
    Some(out)
}

/// Decodes one output line: the line must be a JSON object carrying
/// `info.severity`, `template-id`, `type` and `matched-at` as strings;
/// `extracted-results` defaults to no values and `matcher-name` to the empty
/// string when absent, but when present they must be an array of strings and
/// a string. Everything else is rejected.
fn parse_vuln_line(line: &Vec<u8>) -> Option<NucleiScanResult> {
    match json_parse(line.as_slice()) {
        None => None,
        Some(v) => {
            let severity = match json_get(&v, "info") {
                Some(info) => match json_get(info, "severity") {
                    Some(x) => json_as_str(x),
                    None => None,
                },
                None => None,
            };
            let template_id = match json_get(&v, "template-id") {
                Some(x) => json_as_str(x),
                None => None,
            };
            let template_type = match json_get(&v, "type") {
                Some(x) => json_as_str(x),
                None => None,
            };
            let finding_values = default_finding_values(
                match json_get(&v, "extracted-results") {
                    None => None,
                    Some(x) => Some(
                        match json_as_array(x) {
                            Some(arr) => values_to_strings(arr),
                            None => None,
                        },
                    ),
                },
            );
            let matcher_name = default_matcher_name(
                match json_get(&v, "matcher-name") {
                    None => None,
                    Some(x) => Some(json_as_str(x)),
                },
            );
            let location = match json_get(&v, "matched-at") {
                Some(x) => json_as_str(x),
                None => None,
            };
            vuln_of_fields(
                severity,
                template_id,
                template_type,
                finding_values,
                matcher_name,
                location,
            )
        },
    }
}

/// Decodes the tool's line-oriented output with the skip discipline.
///
/// `None` stands for an output file that could not be read at all: an empty
/// result plus one diagnostic, less severe than a runtime failure of the
/// scan. Otherwise every non-empty line is decoded on its own: the records
/// are exactly the successful decodes in order, and the second component
/// counts the lines that were discarded.
pub fn parse_vuln_output(bytes: Option<&Vec<u8>>) -> (r: (Vec<NucleiScanResult>, usize))
    ensures
        bytes is None ==> r.0@ == Seq::<NucleiScanResult>::empty() && r.1 == 1usize,
        bytes matches Some(b) ==> exists|d: Seq<Option<NucleiScanResult>>|
            d.len() == count_nonempty(lines_of(b@)) && r.0@ == somes_of(d) && r.1 == count_nones(
                d,
            ),
{
    match bytes {
        None => (Vec::new(), 1),
        Some(b) => {
            let lines = split_lines(b);
            let mut out: Vec<NucleiScanResult> = Vec::new();
            let mut diag: usize = 0;
            let ghost mut d = Seq::<Option<NucleiScanResult>>::empty();
            let mut i: usize = 0;
            while i < lines.len()
                invariant
                    i <= lines.len(),
                    d.len() == count_nonempty(lines.deep_view().take(i as int)),
                    d.len() <= i,
                    out@ == somes_of(d),
                    diag == count_nones(d),
                    diag <= d.len(),
                decreases lines.len() - i,
            {
                assert(lines.deep_view().take(i + 1).drop_last() =~= lines.deep_view().take(
                    i as int,
                ));
                assert(lines.deep_view().take(i + 1).last() == lines.deep_view()[i as int]);
                if lines[i].len() > 0 {
                    let rec = parse_vuln_line(&lines[i]);
                    let ghost d0 = d;
                    proof {
                        d = d.push(rec);
                        assert(d.drop_last() =~= d0);
                    }
                    match rec {
                        Some(x) => {
                            out.push(x);
                            assert(out@ =~= somes_of(d));
                        },
                        None => {
                            diag += 1;
                        },
                    }
                }
                i += 1;
            }
            assert(lines.deep_view().take(lines.len() as int) =~= lines.deep_view());
            (out, diag)
        },
    }
}

impl NucleiScanResult {
    /// The identifier shown for this record: the template, and the matcher
    /// that fired appended after a colon when there is one.
    pub fn display_id(&self) -> (r: String)
        ensures
            self.matcher_name@.len() == 0 ==> r@ == self.template_id@,
            self.matcher_name@.len() > 0 ==> r@ == self.template_id@ + ":"@ + self.matcher_name@,
    {
        let mut r = self.template_id.clone();
        if !self.matcher_name.as_str().is_empty() {
            r.append(":");
            r.append(self.matcher_name.as_str());
        }
        r
    }

    /// The extracted values as one comma-separated string.
    pub fn joined_values(&self) -> (r: String)
        ensures
            r@ == join_sep(self.finding_values.deep_view(), ","@),
    {
        join_with(&self.finding_values, ",")
    }
}

/// The vulnerability scanner: the external tool's deterministic argument
/// list and where its line-oriented output lands.
pub struct NucleiScan {
    /// The file the tool is told to write one JSON record per line to.
    pub output_file: String,
    /// The fully-materialized argument list for the tool.
    pub scan_args: Vec<String>,
}

impl NucleiScan {
    /// Builds the invocation from the output directory and the target:
    /// out-of-band interaction testing off, redirects followed, and the
    /// output path namespaced by the scanner's name.
    pub fn new(output_dir: String, target: String) -> (r: NucleiScan)
        ensures
            r.output_file@ == output_dir@ + "/nuclei"@,
            r.scan_args.deep_view() =~= seq![
                "-u"@,
                target@,
                "-ni"@,
                "-fr"@,
                "-o"@,
                output_dir@ + "/nuclei"@,
                "-json"@,
            ],
    {
        let mut output_file = output_dir;
        output_file.append("/nuclei");
        let scan_args = vec![
            "-u".to_owned(),
            target,
            "-ni".to_owned(),
            "-fr".to_owned(),
            "-o".to_owned(),
            output_file.clone(),
            "-json".to_owned(),
        ];
        NucleiScan { output_file, scan_args }
    }
}

impl Scan for NucleiScan {
    type ScanResult = NucleiScanResult;

    open spec fn spec_name(&self) -> Seq<char> {
        "nuclei"@
    }

    open spec fn spec_args(&self) -> Seq<Seq<char>> {
        self.scan_args.deep_view()
    }

    open spec fn parse_ens(
        &self,
        output: Option<Seq<u8>>,
        records: Seq<NucleiScanResult>,
        diagnostics: nat,
    ) -> bool {
        match output {
            Option::None => records == Seq::<NucleiScanResult>::empty() && diagnostics == 1,
            Option::Some(b) => exists|d: Seq<Option<NucleiScanResult>>|
                d.len() == count_nonempty(lines_of(b)) && records == somes_of(d) && diagnostics
                    == count_nones(d),
        }
    }

    fn scanner_name(&self) -> (r: String) {
        "nuclei".to_owned()
    }

    fn command_args(&self) -> (r: &Vec<String>) {
        &self.scan_args
    }

    fn parse_output(&self, output: Option<&Vec<u8>>) -> (r: (Vec<NucleiScanResult>, usize)) {
        parse_vuln_output(output)
    }
}

} // verus!
