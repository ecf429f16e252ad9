//! The per-package data model: semantic version, declared license, provenance
//! record, and the dependency aggregate with its two outcomes.

use vstd::prelude::*;

use crate::outcome::{combine_overall, Outcome, ScoreType};
use crate::text::{lex_lt, push_char, spec_dec, dec_string};

verus! {

/// A semantic version: the three numeric components, ordered
/// lexicographically.
#[derive(Clone, Copy, Debug, PartialEq, Eq, Structural)]
pub struct Version {
    pub major: u64,
    pub minor: u64,
    pub patch: u64,
}

/// Strict lexicographic order on versions.
pub open spec fn version_lt(a: Version, b: Version) -> bool {
    a.major < b.major || (a.major == b.major && (a.minor < b.minor || (a.minor == b.minor
        && a.patch < b.patch)))
}

impl Version {
    pub fn new(major: u64, minor: u64, patch: u64) -> (r: Version)
        ensures
            r == (Version { major, minor, patch }),
    {
        Version { major, minor, patch }
    }

    /// The `major.minor.patch` rendering.
    pub open spec fn spec_text(self) -> Seq<char> {
        spec_dec(self.major as nat) + seq!['.'] + spec_dec(self.minor as nat) + seq!['.']
            + spec_dec(self.patch as nat)
    }

    /// Renders the version as `major.minor.patch`.
    pub fn to_text(&self) -> (r: String)
        ensures
            r@ == self.spec_text(),
    {
        let mut s = dec_string(self.major);
        push_char(&mut s, '.');
        let minor = dec_string(self.minor);
        s.append(minor.as_str());
        push_char(&mut s, '.');
        let patch = dec_string(self.patch);
        s.append(patch.as_str());
        assert(s@ =~= self.spec_text());
        s
    }

    /// Compares two versions lexicographically.
    pub fn lt(&self, other: &Version) -> (r: bool)
        ensures
            r == version_lt(*self, *other),
    {
        self.major < other.major || (self.major == other.major && (self.minor < other.minor
            || (self.minor == other.minor && self.patch < other.patch)))
    }
}

/// An error surfaced by the license evaluation of one dependency.
#[derive(Clone, Debug)]
pub enum CheckError {
    /// No provenance record, or one without a declared license.
    MissingLicense,
    /// The declared license string did not parse as an SPDX expression under
    /// the active mode; the payload is the parser's message.
    Parse(String),
    /// The parsed expression is not satisfied under the OSI-approved
    /// predicate; the payload is the expression text.
    NotOsiApproved(String),
    /// The parsed expression is not satisfied by the approved-license set;
    /// the payload is the expression text.
    NotApproved(String),
}

/// The message text of an evaluation error.
pub open spec fn spec_message(e: CheckError) -> Seq<char> {
    match e {
        CheckError::MissingLicense => "Missing license information"@,
        CheckError::Parse(s) => s@,
        CheckError::NotOsiApproved(s) => s@ + " is not OSI approved"@,
        CheckError::NotApproved(s) => s@ + " is not an approved license"@,
    }
}

impl CheckError {
    /// Renders the error as one line of text.
    pub fn message(&self) -> (r: String)
        ensures
            r@ == spec_message(*self),
    {
        match self {
            CheckError::MissingLicense => String::from_str("Missing license information"),
            CheckError::Parse(s) => s.clone(),
            CheckError::NotOsiApproved(s) => s.clone().concat(" is not OSI approved"),
            CheckError::NotApproved(s) => s.clone().concat(" is not an approved license"),
        }
    }
}

/// A declared license exactly as the provenance service supplied it. Parsing
/// is deferred to evaluation time, because the same raw string is parsed under
/// a caller-chosen strictness mode.
#[derive(Clone, Debug)]
pub struct License {
    pub raw: String,
}

impl License {
    /// An exact copy, for use where a contract needs the value unchanged.
    pub fn duplicate(&self) -> (r: License)
        ensures
            r == *self,
    {
        License { raw: self.raw.clone() }
    }

    /// Wraps a raw declared-license string; never rejects it, since validity
    /// depends on the parse mode chosen later.
    pub fn new(expression: String) -> (r: Result<License, CheckError>)
        ensures
            r matches Ok(l) && l.raw@ == expression@,
    {
        Ok(License { raw: expression })
    }
}

/// The provenance record fetched for one dependency: the declared license, if
/// any, and the two quality scores.
#[derive(Clone, Debug)]
pub struct ClearlyDefined {
    pub declared_license: Option<License>,
    pub effective_score: u64,
    pub licensed_score: u64,
}

impl ClearlyDefined {
    /// An exact copy, for use where a contract needs the value unchanged.
    pub fn duplicate(&self) -> (r: ClearlyDefined)
        ensures
            r == *self,
    {
        ClearlyDefined {
            declared_license: match &self.declared_license {
                Some(l) => Some(l.duplicate()),
                None => None,
            },
            effective_score: self.effective_score,
            licensed_score: self.licensed_score,
        }
    }

    pub fn new(declared_license: Option<License>, effective_score: u64, licensed_score: u64) -> (r:
        ClearlyDefined)
        ensures
            r.declared_license == declared_license,
            r.effective_score == effective_score,
            r.licensed_score == licensed_score,
    {
        ClearlyDefined { declared_license, effective_score, licensed_score }
    }

    /// Selects the score a threshold is checked against.
    pub fn score(&self, score_type: ScoreType) -> (r: u64)
        ensures
            r == (match score_type {
                ScoreType::Effective => self.effective_score,
                ScoreType::Licensed => self.licensed_score,
            }),
    {
        match score_type {
            ScoreType::Effective => self.effective_score,
            ScoreType::Licensed => self.licensed_score,
        }
    }
}

/// One resolved package: its identity, the provenance fetched for it, and the
/// two outcomes computed by the evaluator. Both outcomes are `Ignore` until
/// the evaluator has run.
#[derive(Clone, Debug)]
pub struct Dependency {
    pub name: String,
    pub version: Version,
    pub clearly_defined: Option<ClearlyDefined>,
    pub passed_license: Outcome,
    pub passed_score: Outcome,
}

/// Order of dependencies in a report: by name, then by version, ascending.
pub open spec fn dep_le(a: Dependency, b: Dependency) -> bool {
    lex_lt(a.name@, b.name@) || (a.name@ == b.name@ && (version_lt(a.version, b.version)
        || a.version == b.version))
}

impl Dependency {
    /// An exact copy, for use where a contract needs the value unchanged.
    pub fn duplicate(&self) -> (r: Dependency)
        ensures
            r == *self,
    {
        Dependency {
            name: self.name.clone(),
            version: self.version,
            clearly_defined: match &self.clearly_defined {
                Some(cd) => Some(cd.duplicate()),
                None => None,
            },
            passed_license: self.passed_license,
            passed_score: self.passed_score,
        }
    }

    pub fn new(name: String, version: Version) -> (r: Dependency)
        ensures
            r.name == name,
            r.version == version,
            r.clearly_defined is None,
            r.passed_license is Ignore,
            r.passed_score is Ignore,
    {
        Dependency {
            name,
            version,
            clearly_defined: None,
            passed_license: Outcome::Ignore,
            passed_score: Outcome::Ignore,
        }
    }

    /// Whether the dependency passed overall: neither outcome is `Fail`.
    pub fn passed(&self) -> (r: bool)
        ensures
            r == !(self.passed_score is Fail || self.passed_license is Fail),
    {
        combine_overall(self.passed_score, self.passed_license)
    }
}

impl PartialEq for Dependency {
    /// Two records are equal when they describe the same package and version;
    /// provenance and outcomes are excluded.
    fn eq(&self, other: &Self) -> (r: bool) {
        self.name == other.name && self.version.major == other.version.major
            && self.version.minor == other.version.minor && self.version.patch
            == other.version.patch
    }
}

impl vstd::std_specs::cmp::PartialEqSpecImpl for Dependency {
    open spec fn obeys_eq_spec() -> bool {
        true
    }

    open spec fn eq_spec(&self, other: &Self) -> bool {
        self.name@ == other.name@ && self.version == other.version
    }
}

} // verus!
