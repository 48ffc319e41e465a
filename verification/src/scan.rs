//! The contract every scanner satisfies.
//!
//! A scanner names one external executable, derives a deterministic argument
//! list, and decodes the output file the tool was told to write. The caller
//! owns the side effects — the installation check, the spawn and the file
//! read — and [`run_outcome`] is the one decision they all share: absent
//! tool means `NotInstalled` and nothing is spawned, a failed spawn or an
//! abnormal exit means `Runtime`, and otherwise the decoded records are the
//! outcome, where an unreadable output file still counts as a success with
//! an empty result.

use vstd::prelude::*;

use crate::error::ScanError;

verus! {

/// The interface of one scanner: its executable's name, its argument list,
/// and its decoder for the tool's output.
///
/// `parse_ens` is what the decoder promises of its result; each scanner
/// states there how its records relate to the output bytes.
pub trait Scan: Sized {
    /// The record type this scanner's output decodes to.
    type ScanResult;

    /// The name of the external executable this scanner spawns.
    spec fn spec_name(&self) -> Seq<char>;

    /// The argument list the external tool is spawned with.
    spec fn spec_args(&self) -> Seq<Seq<char>>;

    /// What decoding an output file (`None`: it could not be read at all)
    /// promises of the records and the diagnostics count.
    spec fn parse_ens(
        &self,
        output: Option<Seq<u8>>,
        records: Seq<Self::ScanResult>,
        diagnostics: nat,
    ) -> bool;

    /// The executable's name, as a value.
    fn scanner_name(&self) -> (r: String)
        ensures
            r@ == self.spec_name(),
    ;

    /// The argument list, as values.
    fn command_args(&self) -> (r: &Vec<String>)
        ensures
            r.deep_view() == self.spec_args(),
    ;

    /// Decodes the output file's bytes into records plus a diagnostics
    /// count; `None` stands for an output file that could not be read.
    fn parse_output(&self, output: Option<&Vec<u8>>) -> (r: (Vec<Self::ScanResult>, usize))
        ensures
            self.parse_ens(
                match output {
                    Option::Some(b) => Option::Some(b@),
                    Option::None => Option::None,
                },
                r.0@,
                r.1 as nat,
            ),
    ;
}

/// The one decision every scanner run shares. `installed` is the
/// installation check's answer, `ran` whether the spawned tool was waited
/// for and exited normally, and `output` the bytes of its output file if
/// that could be read.
///
/// An absent tool is `NotInstalled`; a spawn or exit failure is `Runtime`;
/// otherwise the run succeeds with exactly what the scanner's decoder makes
/// of the output — an unreadable or empty output file is an empty result,
/// never a failure, since the tool itself already exited normally.
pub fn run_outcome<S: Scan>(scan: &S, installed: bool, ran: bool, output: Option<&Vec<u8>>) -> (r:
    Result<(Vec<S::ScanResult>, usize), ScanError>)
    ensures
        !installed ==> (r matches Err(ScanError::NotInstalled(n)) && n@ == scan.spec_name()),
        installed && !ran ==> (r matches Err(ScanError::Runtime(n)) && n@ == scan.spec_name()),
        installed && ran ==> (r matches Ok(v) && scan.parse_ens(
            match output {
                Option::Some(b) => Option::Some(b@),
                Option::None => Option::None,
            },
            v.0@,
            v.1 as nat,
        )),
{
    if !installed {
        Err(ScanError::NotInstalled(scan.scanner_name()))
    } else if !ran {
        Err(ScanError::Runtime(scan.scanner_name()))
    } else {
        Ok(scan.parse_output(output))
    }
}

/// Strings joined with the separator between each pair.
pub open spec fn join_sep(vals: Seq<Seq<char>>, sep: Seq<char>) -> Seq<char>
    decreases vals.len(),
{
    if vals.len() == 0 {
        Seq::<char>::empty()
    } else if vals.len() == 1 {
        vals[0]
    } else {
        join_sep(vals.drop_last(), sep) + sep + vals.last()
    }
}

/// Joins strings with a separator, exactly as [`join_sep`] says.
pub fn join_with(parts: &Vec<String>, sep: &str) -> (r: String)
    ensures
        r@ == join_sep(parts.deep_view(), sep@),
{
    let mut r = String::new();
    let mut i: usize = 0;
    while i < parts.len()
        invariant
            i <= parts.len(),
            r@ == join_sep(parts.deep_view().take(i as int), sep@),
        decreases parts.len() - i,
    {
        assert(parts.deep_view().take(i + 1).drop_last() =~= parts.deep_view().take(i as int));
        assert(parts.deep_view().take(i + 1).last() == parts.deep_view()[i as int]);
        if i > 0 {
            r.append(sep);
        }
        r.append(parts[i].as_str());
        i += 1;
    }
    assert(parts.deep_view().take(parts.len() as int) =~= parts.deep_view());
    r
}

/// The log line naming the exact command a scanner runs: the executable and
/// its arguments, space-separated.
pub fn command_message<S: Scan>(scan: &S) -> (r: String)
    ensures
        r@ == "Command used: "@ + scan.spec_name() + " "@ + join_sep(scan.spec_args(), " "@),
{
    let mut r = "Command used: ".to_owned();
    r.append(scan.scanner_name().as_str());
    r.append(" ");
    r.append(join_with(scan.command_args(), " ").as_str());
    r
}

} // verus!
