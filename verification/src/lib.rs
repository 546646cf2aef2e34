//! Scans application crash/session logs for known problem signatures and
//! reports each as an issue: a title paired with a remedy description.
//!
//! The static rules are pure text scans; the one stateful rule compares the
//! version embedded in the log against the latest known release, obtained
//! through a cache-then-network resolution protocol that the caller drives.
use vstd::prelude::*;

pub mod capture;
pub mod freshness;
pub mod pipeline;
pub mod rules;
pub mod semver;
pub mod text;

verus! {

/// The only failures an analysis can surface: both come from the
/// latest-release resolution protocol.
#[derive(Clone, Copy, Debug, PartialEq, Eq, Structural)]
pub enum AnalysisError {
    /// Neither the cache nor the network produced a latest release version.
    ResolutionFailure,
    /// The freshly fetched version could not be written back to the cache.
    CacheWriteFailure,
}

} // verus!
