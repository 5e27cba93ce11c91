//! The version gate: a comparable tmux version tag together with the
//! alias-preference toggle, and the predicate deciding whether a flag or a
//! field is available under a given tool version.
//!
//! Gates are monotonic: a feature available since version `V` is available at
//! every version `>= V`, unless it was explicitly superseded, in which case it
//! is available only in a half-open window `[V, W)`.

use vstd::prelude::*;

verus! {

/// A tmux version, ordered lexicographically by `(major, minor)`.
#[derive(Clone, Copy, Debug, PartialEq, Eq, Structural)]
pub struct Version {
    pub major: u64,
    pub minor: u64,
}

/// `a` is at most `b` in the version order.
pub open spec fn version_le(a: Version, b: Version) -> bool {
    a.major < b.major || (a.major == b.major && a.minor <= b.minor)
}

/// `a` is strictly below `b` in the version order.
pub open spec fn version_lt(a: Version, b: Version) -> bool {
    a.major < b.major || (a.major == b.major && a.minor < b.minor)
}

impl Version {
    pub fn new(major: u64, minor: u64) -> (r: Version)
        ensures
            r.major == major,
            r.minor == minor,
    {
        Version { major, minor }
    }

    /// `self >= other` in the version order.
    pub fn at_least(&self, other: &Version) -> (r: bool)
        ensures
            r == version_le(*other, *self),
    {
        self.major > other.major || (self.major == other.major && self.minor >= other.minor)
    }

    /// `self < other` in the version order.
    pub fn below(&self, other: &Version) -> (r: bool)
        ensures
            r == version_lt(*self, *other),
    {
        self.major < other.major || (self.major == other.major && self.minor < other.minor)
    }
}

/// The availability window of one flag or field.
#[derive(Clone, Copy, Debug, PartialEq, Eq, Structural)]
pub enum Avail {
    /// Available from the named version onward.
    Since(Version),
    /// Available only in the half-open window `[since, until)`: the feature
    /// was superseded by a renamed or relocated equivalent at `until`.
    Between(Version, Version),
}

/// Whether the window `a` is open at version `v`.
pub open spec fn spec_available(a: Avail, v: Version) -> bool {
    match a {
        Avail::Since(since) => version_le(since, v),
        Avail::Between(since, until) => version_le(since, v) && version_lt(v, until),
    }
}

/// The invocation context every builder consults: the declared tool version,
/// and the single global alias-preference toggle that decides whether the
/// short alias or the canonical long name of a subcommand is emitted.
#[derive(Clone, Copy, Debug, PartialEq, Eq, Structural)]
pub struct VersionGate {
    pub version: Version,
    pub cmd_alias: bool,
}

impl VersionGate {
    /// A gate for the given version, preferring canonical long names.
    pub fn new(major: u64, minor: u64) -> (r: VersionGate)
        ensures
            r.version.major == major,
            r.version.minor == minor,
            !r.cmd_alias,
    {
        VersionGate { version: Version { major, minor }, cmd_alias: false }
    }

    /// The same gate with the alias preference switched as given.
    pub fn alias(self, cmd_alias: bool) -> (r: VersionGate)
        ensures
            r.version == self.version,
            r.cmd_alias == cmd_alias,
    {
        VersionGate { cmd_alias, ..self }
    }

    /// Is the flag or field with window `a` available under this gate?
    pub fn available(&self, a: &Avail) -> (r: bool)
        ensures
            r == spec_available(*a, self.version),
    {
        match a {
            Avail::Since(since) => self.version.at_least(since),
            Avail::Between(since, until) => self.version.at_least(since) && self.version.below(
                until,
            ),
        }
    }

    /// The subcommand token under this gate: the short alias when the alias
    /// preference is on, the canonical long name otherwise.
    pub fn subcmd<'a>(&self, long: &'a str, alias: &'a str) -> (r: &'a str)
        ensures
            r@ == spec_subcmd(*self, long@, alias@),
    {
        if self.cmd_alias {
            alias
        } else {
            long
        }
    }
}

/// The subcommand token chosen by the alias preference of `g`.
pub open spec fn spec_subcmd(g: VersionGate, long: Seq<char>, alias: Seq<char>) -> Seq<char> {
    if g.cmd_alias {
        alias
    } else {
        long
    }
}

/// Availability is monotonic in the version for `Since` windows: a feature
/// available since `v` stays available at every later version.
pub proof fn lemma_since_monotone(since: Version, v1: Version, v2: Version)
    requires
        spec_available(Avail::Since(since), v1),
        version_le(v1, v2),
    ensures
        spec_available(Avail::Since(since), v2),
{
}

/// The version order is total and transitive.
pub proof fn lemma_version_order(a: Version, b: Version, c: Version)
    ensures
        version_le(a, b) || version_le(b, a),
        version_le(a, b) && version_le(b, c) ==> version_le(a, c),
        version_lt(a, b) == (version_le(a, b) && a != b),
{
}

} // verus!
