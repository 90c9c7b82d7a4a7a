//! Failure taxonomy of the resolution pipeline.
//!
//! Every failure surfaced to a caller is one of these inspectable kinds;
//! nothing is retried or swallowed inside the library.

use vstd::prelude::*;

verus! {

/// A distinct, inspectable failure kind.
#[derive(Debug, Clone, Copy, PartialEq, Eq, Structural)]
pub enum ApiError {
    /// The registry or origin reported that the requested thing does not exist.
    NotFoundUpstream,
    /// The upstream could not be reached or answered with a server failure.
    UpstreamUnavailable,
    /// Upstream bytes that should parse (JSON, TOML, archive) did not.
    MalformedUpstreamData,
    /// A file that every well-formed package carries was absent after a
    /// completed unpack: the upstream package itself is malformed.
    IntegrityViolation,
    /// A required credential or setting was absent from the process
    /// configuration.
    ConfigurationMissing,
    /// The manifest has no package section, so it denotes no concrete crate.
    UnsupportedManifestShape,
    /// A destructive operation was refused by deployment policy.
    PolicyRefusal,
    /// A lookup in a local store found nothing; distinct from an upstream
    /// not-found and from an integrity violation.
    NotFound,
}

/// Classifies an upstream HTTP answer: success passes, a missing resource
/// is a not-found, and every other non-success status counts as the
/// upstream being unavailable. Nothing is retried here; retry policy
/// belongs to the caller.
pub fn upstream_status_check(status: u16) -> (r: Result<(), ApiError>)
    ensures
        (200 <= status < 300) == (r is Ok),
        status == 404 ==> (r matches Err(e) && e == ApiError::NotFoundUpstream),
        (!(200 <= status < 300) && status != 404) ==> (r matches Err(e) && e
            == ApiError::UpstreamUnavailable),
{
    if 200 <= status && status < 300 {
        Ok(())
    } else if status == 404 {
        Err(ApiError::NotFoundUpstream)
    } else {
        Err(ApiError::UpstreamUnavailable)
    }
}

impl ApiError {
    /// A short stable description, usable where a display impl would be.
    pub fn message(&self) -> &'static str {
        match self {
            ApiError::NotFoundUpstream => "not found upstream",
            ApiError::UpstreamUnavailable => "upstream unavailable",
            ApiError::MalformedUpstreamData => "malformed upstream data",
            ApiError::IntegrityViolation => "required file absent after unpack",
            ApiError::ConfigurationMissing => "missing configuration",
            ApiError::UnsupportedManifestShape => "manifest has no package section",
            ApiError::PolicyRefusal => "refused by environment policy",
            ApiError::NotFound => "not found",
        }
    }
}

} // verus!
