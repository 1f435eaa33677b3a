//! The version-compatibility guard used by migration, resting on the
//! `semver` crate for parsing and ordering semantic version strings.

use vstd::prelude::*;

verus! {

/// Whether `s` parses as a semantic version (`semver::Version::from_str`
/// succeeds on it). The outcome depends on the characters of `s` alone.
pub uninterp spec fn sem_parse_ok(s: Seq<char>) -> bool;

/// Whether the semantic version written in `a` orders strictly above the
/// one written in `b`, by `semver::Version`'s total order. Meaningful only
/// where both strings parse; the outcome depends on the two strings alone.
pub uninterp spec fn sem_newer(a: Seq<char>, b: Seq<char>) -> bool;

/// Outcome of holding a recorded version string against this contract's
/// own version string.
pub enum VersionCheck {
    /// The recorded (old) string is not a semantic version.
    OldInvalid,
    /// The contract's own (new) string is not a semantic version.
    NewInvalid,
    /// Both parse; `downgrade` says whether old orders above new.
    Comparable { downgrade: bool },
}

/// Relies on `semver::Version`: `FromStr` parses a semantic version string
/// and `Ord` orders parsed versions; both are deterministic in the strings
/// alone, and parsing equal strings yields equal versions, so `>` on the
/// versions of two equal strings is false.
#[verifier::external_body]
pub(crate) fn check_versions(old: &str, new: &str) -> (r: VersionCheck)
    ensures
        r is OldInvalid <==> !sem_parse_ok(old@),
        r is NewInvalid <==> (sem_parse_ok(old@) && !sem_parse_ok(new@)),
        r is Comparable <==> (sem_parse_ok(old@) && sem_parse_ok(new@)),
        r is Comparable ==> r->downgrade == sem_newer(old@, new@),
        r is Comparable && old@ == new@ ==> !r->downgrade,
{
    match (old.parse::<semver::Version>(), new.parse::<semver::Version>()) {
        (Err(_), _) => VersionCheck::OldInvalid,
        (Ok(_), Err(_)) => VersionCheck::NewInvalid,
        (Ok(o), Ok(n)) => VersionCheck::Comparable { downgrade: o > n },
    }
}

} // verus!
