//! The version freshness checker: extracts the version embedded in the log,
//! has the caller obtain the latest known release version through a
//! cache-then-network protocol, and compares the two.
//!
//! The cache and network collaborators live outside this library and may
//! block on I/O, so resolution is driven event by event: the caller starts
//! the protocol, performs the action each state asks for, and feeds the
//! outcome back through `resolve_step` until the protocol is `Resolved` or
//! `Failed`. The decisions themselves — what to ask next, and what each
//! outcome means — are all taken here, and verified.
use vstd::prelude::*;

use crate::capture::{capture_launcher_version, launcher_version_capture};
use crate::rules::Issue;
use crate::semver::{is_outdated, semver_split, spec_outdated, version_parts};
use crate::AnalysisError;

verus! {

/// Pulls the dotted version out of the log's version banner, if the banner
/// is present; a log without one yields no issue and needs no resolution.
pub fn extract_log_version(log: &str) -> (r: Option<String>)
    ensures
        r.deep_view() == launcher_version_capture(log@),
{
    capture_launcher_version(log)
}

/// Where the latest-release resolution protocol stands, and what the caller
/// must do next.
pub enum ResolveState {
    /// Ask the cache collaborator for its stored latest version.
    CacheRead,
    /// Ask the network collaborator for the latest version. `write_back`
    /// records whether a cache collaborator is present to store the answer.
    Fetch { write_back: bool },
    /// Store the freshly fetched version in the cache collaborator.
    WriteBack { latest: String },
    /// The latest version is known; no further action is asked for.
    Resolved { latest: String },
    /// Resolution failed; the whole analysis fails with this error.
    Failed { error: AnalysisError },
}

/// The outcome of the action a state asked for.
pub enum ResolveEvent {
    CacheReadOk(String),
    CacheReadErr,
    FetchOk(String),
    FetchErr,
    WriteBackOk,
    WriteBackErr,
}

/// Which outcomes can answer which state: terminal states accept none.
pub open spec fn resolve_expects(s: ResolveState, e: ResolveEvent) -> bool {
    match (s, e) {
        (ResolveState::CacheRead, ResolveEvent::CacheReadOk(_)) => true,
        (ResolveState::CacheRead, ResolveEvent::CacheReadErr) => true,
        (ResolveState::Fetch { .. }, ResolveEvent::FetchOk(_)) => true,
        (ResolveState::Fetch { .. }, ResolveEvent::FetchErr) => true,
        (ResolveState::WriteBack { .. }, ResolveEvent::WriteBackOk) => true,
        (ResolveState::WriteBack { .. }, ResolveEvent::WriteBackErr) => true,
        _ => false,
    }
}

/// The resolution policy. A cache hit resolves immediately; a cache miss or
/// read failure falls back to the network; a fetched version is written back
/// exactly when a cache collaborator is present; a fetch failure or a
/// write-back failure fails resolution hard.
pub open spec fn spec_resolve_step(s: ResolveState, e: ResolveEvent) -> ResolveState {
    match (s, e) {
        (ResolveState::CacheRead, ResolveEvent::CacheReadOk(v)) => ResolveState::Resolved {
            latest: v,
        },
        (ResolveState::CacheRead, ResolveEvent::CacheReadErr) => ResolveState::Fetch {
            write_back: true,
        },
        (ResolveState::Fetch { write_back }, ResolveEvent::FetchOk(v)) => if write_back {
            ResolveState::WriteBack { latest: v }
        } else {
            ResolveState::Resolved { latest: v }
        },
        (ResolveState::Fetch { .. }, ResolveEvent::FetchErr) => ResolveState::Failed {
            error: AnalysisError::ResolutionFailure,
        },
        (ResolveState::WriteBack { latest }, ResolveEvent::WriteBackOk) => ResolveState::Resolved {
            latest,
        },
        (ResolveState::WriteBack { .. }, ResolveEvent::WriteBackErr) => ResolveState::Failed {
            error: AnalysisError::CacheWriteFailure,
        },
        (other, _) => other,
    }
}

/// Starts resolution: with a cache collaborator the cache is consulted
/// first; without one every lookup goes straight to the network and nothing
/// is cached.
pub open spec fn spec_resolve_start(cache_present: bool) -> ResolveState {
    if cache_present {
        ResolveState::CacheRead
    } else {
        ResolveState::Fetch { write_back: false }
    }
}

pub fn resolve_start(cache_present: bool) -> (s: ResolveState)
    ensures
        s == spec_resolve_start(cache_present),
{
    if cache_present {
        ResolveState::CacheRead
    } else {
        ResolveState::Fetch { write_back: false }
    }
}

/// Advances the protocol by one observed outcome.
pub fn resolve_step(s: ResolveState, e: ResolveEvent) -> (t: ResolveState)
    requires
        resolve_expects(s, e),
    ensures
        t == spec_resolve_step(s, e),
{
    match (s, e) {
        (ResolveState::CacheRead, ResolveEvent::CacheReadOk(v)) => ResolveState::Resolved {
            latest: v,
        },
        (ResolveState::CacheRead, ResolveEvent::CacheReadErr) => ResolveState::Fetch {
            write_back: true,
        },
        (ResolveState::Fetch { write_back }, ResolveEvent::FetchOk(v)) => if write_back {
            ResolveState::WriteBack { latest: v }
        } else {
            ResolveState::Resolved { latest: v }
        },
        (ResolveState::Fetch { .. }, ResolveEvent::FetchErr) => ResolveState::Failed {
            error: AnalysisError::ResolutionFailure,
        },
        (ResolveState::WriteBack { latest }, ResolveEvent::WriteBackOk) => ResolveState::Resolved {
            latest,
        },
        (ResolveState::WriteBack { .. }, ResolveEvent::WriteBackErr) => ResolveState::Failed {
            error: AnalysisError::CacheWriteFailure,
        },
        (other, _) => other,
    }
}

/// Every event of the trace is accepted by the state it meets.
pub open spec fn resolve_accepts(s: ResolveState, events: Seq<ResolveEvent>) -> bool
    decreases events.len(),
{
    events.len() == 0 || (resolve_expects(s, events[0]) && resolve_accepts(
        spec_resolve_step(s, events[0]),
        events.drop_first(),
    ))
}

/// The state the protocol reaches after the whole trace.
pub open spec fn resolve_run(s: ResolveState, events: Seq<ResolveEvent>) -> ResolveState
    decreases events.len(),
{
    if events.len() == 0 {
        s
    } else {
        resolve_run(spec_resolve_step(s, events[0]), events.drop_first())
    }
}

/// With a cache collaborator present, a resolution that succeeds either was
/// served from the cache — the network collaborator is never consulted —
/// or, after a cache miss, fetched from the network once and wrote the
/// answer back to the cache exactly once.
pub proof fn lemma_resolution_traces(events: Seq<ResolveEvent>)
    requires
        resolve_accepts(spec_resolve_start(true), events),
        resolve_run(spec_resolve_start(true), events) matches ResolveState::Resolved { .. },
    ensures
        (exists|v: String|
            events == seq![ResolveEvent::CacheReadOk(v)] && resolve_run(
                spec_resolve_start(true),
                events,
            ) == (ResolveState::Resolved { latest: v })) || (exists|v: String|
            events == seq![
                ResolveEvent::CacheReadErr,
                ResolveEvent::FetchOk(v),
                ResolveEvent::WriteBackOk,
            ] && resolve_run(spec_resolve_start(true), events) == (ResolveState::Resolved {
                latest: v,
            })),
{
    let s0 = spec_resolve_start(true);
    assert(events.len() > 0);
    match events[0] {
        ResolveEvent::CacheReadOk(v) => {
            let s1 = spec_resolve_step(s0, events[0]);
            lemma_terminal_run(s1, events.drop_first());
            assert(events =~= seq![ResolveEvent::CacheReadOk(v)]);
        },
        ResolveEvent::CacheReadErr => {
            let s1 = spec_resolve_step(s0, events[0]);
            let rest1 = events.drop_first();
            assert(resolve_accepts(s1, rest1));
            assert(resolve_run(s0, events) == resolve_run(s1, rest1));
            if rest1.len() == 0 {
                assert(resolve_run(s1, rest1) == s1);
                assert(false);
            }
            match rest1[0] {
                ResolveEvent::FetchOk(v) => {
                    let s2 = spec_resolve_step(s1, rest1[0]);
                    let rest2 = rest1.drop_first();
                    assert(s2 == (ResolveState::WriteBack { latest: v }));
                    assert(resolve_accepts(s2, rest2));
                    assert(resolve_run(s1, rest1) == resolve_run(s2, rest2));
                    if rest2.len() == 0 {
                        assert(resolve_run(s2, rest2) == s2);
                        assert(false);
                    }
                    match rest2[0] {
                        ResolveEvent::WriteBackOk => {
                            let s3 = spec_resolve_step(s2, rest2[0]);
                            assert(resolve_accepts(s3, rest2.drop_first()));
                            lemma_terminal_run(s3, rest2.drop_first());
                            assert(events =~= seq![
                                ResolveEvent::CacheReadErr,
                                ResolveEvent::FetchOk(v),
                                ResolveEvent::WriteBackOk,
                            ]);
                        },
                        ResolveEvent::WriteBackErr => {
                            let s3 = spec_resolve_step(s2, rest2[0]);
                            assert(resolve_accepts(s3, rest2.drop_first()));
                            lemma_terminal_run(s3, rest2.drop_first());
                        },
                        _ => {
                            assert(false);
                        },
                    }
                },
                ResolveEvent::FetchErr => {
                    let s2 = spec_resolve_step(s1, rest1[0]);
                    lemma_terminal_run(s2, rest1.drop_first());
                },
                _ => {
                    assert(false);
                },
            }
        },
        _ => {
            assert(false);
        },
    }
}

/// Without a cache collaborator, a resolution that succeeds is exactly one
/// network fetch, and nothing is ever written to a cache.
pub proof fn lemma_no_cache_resolution_traces(events: Seq<ResolveEvent>)
    requires
        resolve_accepts(spec_resolve_start(false), events),
        resolve_run(spec_resolve_start(false), events) matches ResolveState::Resolved { .. },
    ensures
        exists|v: String|
            events == seq![ResolveEvent::FetchOk(v)] && resolve_run(
                spec_resolve_start(false),
                events,
            ) == (ResolveState::Resolved { latest: v }),
{
    let s0 = spec_resolve_start(false);
    assert(events.len() > 0);
    match events[0] {
        ResolveEvent::FetchOk(v) => {
            let s1 = spec_resolve_step(s0, events[0]);
            assert(s1 == (ResolveState::Resolved { latest: v }));
            lemma_terminal_run(s1, events.drop_first());
            assert(events =~= seq![ResolveEvent::FetchOk(v)]);
        },
        ResolveEvent::FetchErr => {
            let s1 = spec_resolve_step(s0, events[0]);
            lemma_terminal_run(s1, events.drop_first());
        },
        _ => {
            assert(false);
        },
    }
}

/// A terminal state accepts no event, so the only accepted trace from it is
/// the empty one and the run stays put.
proof fn lemma_terminal_run(s: ResolveState, events: Seq<ResolveEvent>)
    requires
        s matches ResolveState::Resolved { .. } || s matches ResolveState::Failed { .. },
        resolve_accepts(s, events),
    ensures
        events.len() == 0,
        resolve_run(s, events) == s,
{
    if events.len() > 0 {
        assert(!resolve_expects(s, events[0]));
    }
}

/// What the freshness checker reports once both versions are in hand: an
/// issue naming both literal version strings when the log's version is
/// judged outdated, nothing otherwise.
pub open spec fn spec_outdated_launcher(log_version: Seq<char>, latest: Seq<char>) -> Option<
    (Seq<char>, Seq<char>),
> {
    if spec_outdated(version_parts(log_version), version_parts(latest)) {
        Some(
            (
                "Outdated Prism Launcher"@,
                "Your installed version is "@ + log_version + ", while the newest version is "@
                    + latest
                    + ".\nPlease update; for more info see https://prismlauncher.org/download/"@,
            ),
        )
    } else {
        None
    }
}

/// Compares the version extracted from the log against the resolved latest
/// release version. The resolved version must offer the two components the
/// comparison reads whenever the log version splits into exactly two; the
/// caller can check that with `semver_split`.
pub fn outdated_launcher(log_version: &str, latest_version: &str) -> (r: Issue)
    requires
        version_parts(log_version@).len() == 2 ==> version_parts(latest_version@).len() >= 2,
    ensures
        r.deep_view() == spec_outdated_launcher(log_version@, latest_version@),
{
    let log_parts = semver_split(log_version);
    let latest_parts = semver_split(latest_version);
    if is_outdated(&log_parts, &latest_parts) {
        let mut desc = String::from_str("Your installed version is ");
        desc.append(log_version);
        desc.append(", while the newest version is ");
        desc.append(latest_version);
        desc.append(".\nPlease update; for more info see https://prismlauncher.org/download/");
        Some((String::from_str("Outdated Prism Launcher"), desc))
    } else {
        None
    }
}

} // verus!
