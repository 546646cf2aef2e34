//! The pipeline driver: runs every static rule, appends the version
//! freshness checker's finding, and propagates the checker's hard error —
//! the only failure the whole analysis can surface. When it fails, no
//! issues at all are returned for that log.
use vstd::prelude::*;

use crate::rules::{
    count_triggered, lemma_one_issue_per_triggering_rule, lemma_single_triggering_rule,
    opt_issue_seq, push_issue, rule_results, spec_static_issues, static_issues, Issue, SpecIssue,
};
use crate::AnalysisError;

verus! {

/// What an analysis returns for a log, given the freshness checker's
/// outcome: its error verbatim if it failed, otherwise every static rule's
/// finding in declaration order with the freshness issue, if any, last.
pub open spec fn spec_find(
    log: Seq<char>,
    freshness: Result<Option<SpecIssue>, AnalysisError>,
) -> Result<Seq<SpecIssue>, AnalysisError> {
    match freshness {
        Ok(f) => Ok(spec_static_issues(log) + opt_issue_seq(f)),
        Err(e) => Err(e),
    }
}

/// Collects all issues for a log. The caller hands in the freshness
/// checker's outcome — produced by `freshness::extract_log_version`, the
/// resolution protocol and `freshness::outdated_launcher`, or `Ok(None)`
/// when the log embeds no version — and any hard error it carries fails the
/// whole analysis.
pub fn find(log: &str, freshness: Result<Issue, AnalysisError>) -> (r: Result<
    Vec<(String, String)>,
    AnalysisError,
>)
    ensures
        (match freshness {
            Ok(f) => r matches Ok(v) && v.deep_view() == spec_static_issues(log@)
                + opt_issue_seq(f.deep_view()),
            Err(e) => r == Err::<Vec<(String, String)>, AnalysisError>(e),
        }),
{
    match freshness {
        Ok(f) => {
            let mut res = static_issues(log);
            push_issue(&mut res, f);
            Ok(res)
        },
        Err(e) => Err(e),
    }
}

/// A successful analysis returns exactly one issue per triggering rule —
/// the static rules that matched plus the freshness issue, if any — and so
/// never more than twelve.
pub proof fn lemma_issue_count(log: Seq<char>, f: Option<SpecIssue>)
    ensures
        spec_find(log, Ok(f)) matches Ok(v) && v.len() == count_triggered(rule_results(log)) + (
        if f is Some {
            1int
        } else {
            0int
        }),
        spec_find(log, Ok(f)) matches Ok(v) && v.len() <= 12,
{
    lemma_one_issue_per_triggering_rule(rule_results(log));
    lemma_count_triggered_bounds(rule_results(log));
}

proof fn lemma_count_triggered_bounds(rs: Seq<Option<SpecIssue>>)
    ensures
        0 <= count_triggered(rs) <= rs.len(),
    decreases rs.len(),
{
    if rs.len() > 0 {
        lemma_count_triggered_bounds(rs.drop_last());
    }
}

/// A log that triggers exactly one static rule, and whose freshness check
/// reports nothing, is analyzed to exactly that rule's single issue.
pub proof fn lemma_single_rule_analysis(log: Seq<char>, k: int)
    requires
        0 <= k < rule_results(log).len(),
        rule_results(log)[k] is Some,
        forall|j: int| 0 <= j < rule_results(log).len() && j != k ==> rule_results(log)[j] is None,
    ensures
        spec_find(log, Ok(None)) == Ok::<Seq<SpecIssue>, AnalysisError>(
            seq![rule_results(log)[k]->Some_0],
        ),
{
    lemma_single_triggering_rule(rule_results(log), k);
    assert(spec_static_issues(log) + opt_issue_seq(None) =~= seq![rule_results(log)[k]->Some_0]);
}

/// The analysis is a function of the log text and the freshness outcome
/// alone: two runs over the same immutable log and the same resolved
/// external state yield identical issues, in the same order.
pub proof fn lemma_find_deterministic(
    log: Seq<char>,
    freshness: Result<Option<SpecIssue>, AnalysisError>,
    r1: Result<Seq<SpecIssue>, AnalysisError>,
    r2: Result<Seq<SpecIssue>, AnalysisError>,
)
    requires
        r1 == spec_find(log, freshness),
        r2 == spec_find(log, freshness),
    ensures
        r1 == r2,
{
}

} // verus!
