//! The regular-expression captures the detectors rely on.
//!
//! Each detector pattern is fixed, so what a capture returns is a function of
//! the log text alone; the result of each is given a name (an uninterpreted
//! spec function) and every contract downstream speaks of that name. The
//! verified logic that interprets a capture takes it as a plain argument.
use vstd::prelude::*;

verus! {

/// The option name captured by `Unrecognized VM option '(.+)'[\r\n]`, if the
/// log matches it.
pub uninterp spec fn vm_option_capture(log: Seq<char>) -> Option<Seq<char>>;

/// The option text captured by `Unrecognized option: (.+)[\r\n]`, if the log
/// matches it.
pub uninterp spec fn unrecognized_option_capture(log: Seq<char>) -> Option<Seq<char>>;

/// The first suggested-version line captured by the multi-line banner
/// `Please switch to one of the following Java versions for this instance:`,
/// if the log matches it.
pub uninterp spec fn switch_version_capture(log: Seq<char>) -> Option<Seq<char>>;

/// The dotted version captured from the `Prism Launcher version:` banner, if
/// the log matches it.
pub uninterp spec fn launcher_version_capture(log: Seq<char>) -> Option<Seq<char>>;

/// Relies on `regex::Regex::captures` with the fixed pattern
/// `Unrecognized VM option '(.+)'[\r\n]`: the first capture group depends on
/// the log text alone.
#[verifier::external_body]
pub(crate) fn capture_vm_option(log: &str) -> (r: Option<String>)
    ensures
        r.deep_view() == vm_option_capture(log@),
{
    let re = regex::Regex::new("Unrecognized VM option '(.+)'[\\r\\n]").unwrap();
    re.captures(log).map(|c| c[1].to_string())
}

/// Relies on `regex::Regex::captures` with the fixed pattern
/// `Unrecognized option: (.+)[\r\n]`: the first capture group depends on the
/// log text alone.
#[verifier::external_body]
pub(crate) fn capture_unrecognized_option(log: &str) -> (r: Option<String>)
    ensures
        r.deep_view() == unrecognized_option_capture(log@),
{
    let re = regex::Regex::new("Unrecognized option: (.+)[\\r\\n]").unwrap();
    re.captures(log).map(|c| c[1].to_string())
}

/// Relies on `regex::Regex::captures` with the fixed pattern
/// `(?m)Please switch to one of the following Java versions for this
/// instance:[\r\n]+(Java version [\d.]+)`: the first capture group depends on
/// the log text alone.
#[verifier::external_body]
pub(crate) fn capture_switch_version(log: &str) -> (r: Option<String>)
    ensures
        r.deep_view() == switch_version_capture(log@),
{
    let re = regex::Regex::new(
        "(?m)Please switch to one of the following Java versions for this instance:[\\r\\n]+(Java version [\\d.]+)",
    ).unwrap();
    re.captures(log).map(|c| c[1].to_string())
}

/// Relies on `regex::Regex::captures` with the fixed pattern
/// `Prism Launcher version: ((?:([0-9]+)\.)?([0-9]+)\.([0-9]+))`: the first
/// capture group (the full dotted version) depends on the log text alone.
#[verifier::external_body]
pub(crate) fn capture_launcher_version(log: &str) -> (r: Option<String>)
    ensures
        r.deep_view() == launcher_version_capture(log@),
{
    let re = regex::Regex::new(
        "Prism Launcher version: ((?:([0-9]+)\\.)?([0-9]+)\\.([0-9]+))",
    ).unwrap();
    re.captures(log).map(|c| c[1].to_string())
}

} // verus!
