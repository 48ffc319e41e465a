//! Content-discovery scanner: probes the target's web tree for paths.
//!
//! The external tool writes one JSON record per line; each line decodes
//! independently into a [`FeroxbusterScanResult`], and a line that fails to
//! decode is counted and discarded without touching the rest (see
//! [`crate::lines`]).

use vstd::prelude::*;

use crate::json::{json_as_u64, json_as_str, json_get, json_parse};
use crate::lines::{count_nonempty, count_nones, lines_of, somes_of, split_lines};
use crate::scan::Scan;

verus! {

/// One discovered web path: its URL, the response status and the response's
/// word count.
pub struct FeroxbusterScanResult {
    pub url: String,
    pub status: u32,
    pub word_count: u32,
}

/// The mathematical value of a [`FeroxbusterScanResult`].
pub struct WebPathModel {
    pub url: Seq<char>,
    pub status: u32,
    pub word_count: u32,
}

impl View for FeroxbusterScanResult {
    type V = WebPathModel;

    open spec fn view(&self) -> WebPathModel {
        WebPathModel { url: self.url@, status: self.status, word_count: self.word_count }
    }
}

impl DeepView for FeroxbusterScanResult {
    type V = WebPathModel;

    open spec fn deep_view(&self) -> WebPathModel {
        self@
    }
}

/// When the three fields of one line make a record: all three present, the
/// numbers in range.
pub open spec fn web_fields_ok(
    url: Option<String>,
    status: Option<u64>,
    word_count: Option<u64>,
) -> bool {
    &&& url is Some
    &&& status matches Some(s) && s <= u32::MAX
    &&& word_count matches Some(w) && w <= u32::MAX
}

/// Builds one record from the fields read out of one line: a record exactly
/// when the URL is a string and both numbers are in-range integers, with the
/// fields carried over unchanged; otherwise the line is rejected.
pub fn web_finding_of_fields(
    url: Option<String>,
    status: Option<u64>,
    word_count: Option<u64>,
) -> (r: Option<FeroxbusterScanResult>)
    ensures
        r is Some <==> web_fields_ok(url, status, word_count),
        r matches Some(f) ==> {
            &&& url matches Some(u) && f.url@ == u@
            &&& status matches Some(s) && f.status == s
            &&& word_count matches Some(w) && f.word_count == w
        },
{
    match (url, status, word_count) {
        (Some(u), Some(s), Some(w)) => {
            if s <= u32::MAX as u64 && w <= u32::MAX as u64 {
                Some(
                    FeroxbusterScanResult {
                        url: u,
                        status: s as u32,
                        word_count: w as u32,
                    },
                )
            } else {
                None
            }
        },
        _ => None,
    }
}

/// Decodes one output line: the line must be a JSON object whose `url` field
/// is a string and whose `status` and `word_count` fields are in-range
/// integers; everything else is rejected.
fn parse_web_line(line: &Vec<u8>) -> Option<FeroxbusterScanResult> {
    match json_parse(line.as_slice()) {
        None => None,
        Some(v) => {
            let url = match json_get(&v, "url") {
                Some(x) => json_as_str(x),
                None => None,
            };
            let status = match json_get(&v, "status") {
                Some(x) => json_as_u64(x),
                None => None,
            };
            let word_count = match json_get(&v, "word_count") {
                Some(x) => json_as_u64(x),
                None => None,
            };
            web_finding_of_fields(url, status, word_count)
        },
    }
}

/// Decodes the tool's line-oriented output with the skip discipline.
///
/// `None` stands for an output file that could not be read at all: an empty
/// result plus one diagnostic, less severe than a runtime failure of the
/// scan. Otherwise every non-empty line is decoded on its own: the records
/// are exactly the successful decodes in order, and the second component
/// counts the lines that were discarded.
pub fn parse_web_output(bytes: Option<&Vec<u8>>) -> (r: (Vec<FeroxbusterScanResult>, usize))
    ensures
        bytes is None ==> r.0@ == Seq::<FeroxbusterScanResult>::empty() && r.1 == 1usize,
        bytes matches Some(b) ==> exists|d: Seq<Option<FeroxbusterScanResult>>|
            d.len() == count_nonempty(lines_of(b@)) && r.0@ == somes_of(d) && r.1 == count_nones(
                d,
            ),
{
    match bytes {
        None => (Vec::new(), 1),
        Some(b) => {
            let lines = split_lines(b);
            let mut out: Vec<FeroxbusterScanResult> = Vec::new();
            let mut diag: usize = 0;
            let ghost mut d = Seq::<Option<FeroxbusterScanResult>>::empty();
            let mut i: usize = 0;
            while i < lines.len()
                invariant
                    i <= lines.len(),
                    d.len() == count_nonempty(lines.deep_view().take(i as int)),
                    d.len() <= i,
                    out@ == somes_of(d),
                    diag == count_nones(d),
                    diag <= d.len(),
                decreases lines.len() - i,
            {
                assert(lines.deep_view().take(i + 1).drop_last() =~= lines.deep_view().take(
                    i as int,
                ));
                assert(lines.deep_view().take(i + 1).last() == lines.deep_view()[i as int]);
                if lines[i].len() > 0 {
                    let rec = parse_web_line(&lines[i]);
                    let ghost d0 = d;
                    proof {
                        d = d.push(rec);
                        assert(d.drop_last() =~= d0);
                    }
                    match rec {
                        Some(x) => {
                            out.push(x);
                            assert(out@ =~= somes_of(d));
                        },
                        None => {
                            diag += 1;
                        },
                    }
                }
                i += 1;
            }
            assert(lines.deep_view().take(lines.len() as int) =~= lines.deep_view());
            (out, diag)
        },
    }
}

/// The content-discovery scanner for one discovered port: the external
/// tool's deterministic argument list and where its line-oriented output
/// lands.
pub struct FeroxbusterScan {
    /// The file the tool is told to write one JSON record per line to.
    pub output_file: String,
    /// The fully-materialized argument list for the tool.
    pub scan_args: Vec<String>,
    /// The open port that triggered this scan.
    pub port: u16,
}

impl FeroxbusterScan {
    /// Builds the invocation from the output directory, the target and the
    /// triggering port: the target URL is the host with the web scheme
    /// prefixed, the wordlist location is fixed, and the output path is
    /// namespaced by the scanner's name.
    pub fn new(output_dir: String, target: String, port: u16) -> (r: FeroxbusterScan)
        ensures
            r.output_file@ == output_dir@ + "/feroxbuster"@,
            r.port == port,
            r.scan_args.deep_view() =~= seq![
                "-u"@,
                "https://"@ + target@,
                "-w"@,
                "/Users/mick/Workspace/Wordlists/common.txt"@,
                "-o"@,
                output_dir@ + "/feroxbuster"@,
                "--json"@,
            ],
    {
        let mut output_file = output_dir;
        output_file.append("/feroxbuster");
        let mut url = "https://".to_owned();
        url.append(target.as_str());
        let scan_args = vec![
            "-u".to_owned(),
            url,
            "-w".to_owned(),
            "/Users/mick/Workspace/Wordlists/common.txt".to_owned(),
            "-o".to_owned(),
            output_file.clone(),
            "--json".to_owned(),
        ];
        FeroxbusterScan { output_file, scan_args, port }
    }
}

impl Scan for FeroxbusterScan {
    type ScanResult = FeroxbusterScanResult;

    open spec fn spec_name(&self) -> Seq<char> {
        "feroxbuster"@
    }

    open spec fn spec_args(&self) -> Seq<Seq<char>> {
        self.scan_args.deep_view()
    }

    open spec fn parse_ens(
        &self,
        output: Option<Seq<u8>>,
        records: Seq<FeroxbusterScanResult>,
        diagnostics: nat,
    ) -> bool {
        match output {
            Option::None => records == Seq::<FeroxbusterScanResult>::empty() && diagnostics == 1,
            Option::Some(b) => exists|d: Seq<Option<FeroxbusterScanResult>>|
                d.len() == count_nonempty(lines_of(b)) && records == somes_of(d) && diagnostics
                    == count_nones(d),
        }
    }

    fn scanner_name(&self) -> (r: String) {
        "feroxbuster".to_owned()
    }

    fn command_args(&self) -> (r: &Vec<String>) {
        &self.scan_args
    }

    fn parse_output(&self, output: Option<&Vec<u8>>) -> (r: (Vec<FeroxbusterScanResult>, usize)) {
        parse_web_output(output)
    }
}

} // verus!
