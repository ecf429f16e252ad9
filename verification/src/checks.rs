//! License policy checks over SPDX expressions. Parsing and evaluating the
//! boolean expressions is the spdx crate's work, reached through the trusted
//! wrappers at the top; everything downstream of those calls is verified.

use vstd::prelude::*;

use crate::data::{CheckError, Dependency, License};

verus! {

/// Whether the spdx crate parses `raw` as a license expression under the
/// given mode (lax or strict). Parsing is a pure function of the string and
/// the mode.
pub uninterp spec fn spdx_parse_ok(raw: Seq<char>, lax: bool) -> bool;

/// The message that the spdx parser reports when `raw` does not parse under
/// the given mode. Meaningful only when `spdx_parse_ok` is false.
pub uninterp spec fn spdx_parse_err(raw: Seq<char>, lax: bool) -> Seq<char>;

/// Whether the expression parsed from `raw` is satisfied when exactly the
/// OSI-approved catalog licenses are acceptable. Meaningful only when
/// `spdx_parse_ok` holds.
pub uninterp spec fn spdx_osi_ok(raw: Seq<char>, lax: bool) -> bool;

/// Whether the expression parsed from `raw` is satisfied when exactly the
/// catalog licenses whose canonical names are listed in `allowed` are
/// acceptable. Meaningful only when `spdx_parse_ok` holds.
pub uninterp spec fn spdx_any_approved(raw: Seq<char>, lax: bool, allowed: Seq<Seq<char>>) -> bool;

/// Whether `s` names a license of the SPDX catalog (a trailing `+` is
/// disregarded).
pub uninterp spec fn spdx_known_license(s: Seq<char>) -> bool;

/// The canonical catalog name of the license that `s` names. Meaningful only
/// when `spdx_known_license` holds.
pub uninterp spec fn spdx_canonical_name(s: Seq<char>) -> Seq<char>;

/// Relies on `spdx::Expression::parse_mode` and the `Display` impls of
/// `Expression` and `ParseError`: an `Expression` displays as the exact
/// original input, and the error text is a pure function of the input and the
/// mode.
#[verifier::external_body]
pub(crate) fn parse_license(raw: &str, lax: bool) -> (r: Result<String, String>)
    ensures
        (r is Ok) == spdx_parse_ok(raw@, lax),
        r matches Ok(t) ==> t@ == raw@,
        r matches Err(m) ==> m@ == spdx_parse_err(raw@, lax),
{
    let mode = if lax {
        spdx::ParseMode::LAX
    } else {
        spdx::ParseMode::STRICT
    };
    match spdx::Expression::parse_mode(raw, mode) {
        Ok(e) => Ok(e.to_string()),
        Err(e) => Err(e.to_string()),
    }
}

/// Relies on `spdx::Expression::parse_mode` and `Expression::evaluate`: the
/// evaluation walks the parsed expression and accepts exactly the leaves that
/// are catalog licenses marked OSI-approved, so the result is a pure function
/// of the input string and the mode.
#[verifier::external_body]
pub(crate) fn eval_osi(raw: &str, lax: bool) -> (r: Option<bool>)
    ensures
        (r is Some) == spdx_parse_ok(raw@, lax),
        r matches Some(b) ==> b == spdx_osi_ok(raw@, lax),
{
    let mode = if lax {
        spdx::ParseMode::LAX
    } else {
        spdx::ParseMode::STRICT
    };
    let expression = spdx::Expression::parse_mode(raw, mode).ok()?;
    Some(expression.evaluate(|req| match &req.license {
        spdx::LicenseItem::Spdx { id, .. } => id.is_osi_approved(),
        spdx::LicenseItem::Other { .. } => false,
    }))
}

/// Relies on `spdx::Expression::parse_mode` and `Expression::evaluate`: the
/// evaluation accepts exactly the leaves that are catalog licenses whose
/// canonical name stands in `allowed` (catalog names are unique), so the
/// result is a pure function of the input string, the mode and the list.
#[verifier::external_body]
pub(crate) fn eval_approved(raw: &str, lax: bool, allowed: &Vec<String>) -> (r: Option<bool>)
    ensures
        (r is Some) == spdx_parse_ok(raw@, lax),
        r matches Some(b) ==> b == spdx_any_approved(raw@, lax, crate::text::str_views(allowed@)),
{
    let mode = if lax {
        spdx::ParseMode::LAX
    } else {
        spdx::ParseMode::STRICT
    };
    let expression = spdx::Expression::parse_mode(raw, mode).ok()?;
    Some(expression.evaluate(|req| match &req.license {
        spdx::LicenseItem::Spdx { id, .. } => crate::text::contains_str(allowed, id.name),
        spdx::LicenseItem::Other { .. } => false,
    }))
}

/// Relies on `spdx::license_id` and the catalog's `name` field: the lookup is
/// a pure search of the built-in license list by name, with a trailing `+`
/// disregarded, and each catalog entry carries its unique canonical name.
#[verifier::external_body]
pub(crate) fn lookup_license_id(s: &str) -> (r: Option<String>)
    ensures
        (r is Some) == spdx_known_license(s@),
        r matches Some(n) ==> n@ == spdx_canonical_name(s@),
{
    spdx::license_id(s).map(|id| id.name.to_owned())
}

/// A validated license identifier: the canonical catalog name of a license
/// the caller approved.
#[derive(Clone, Debug)]
pub struct LicenseName(pub String);

impl LicenseName {
    /// Accepts a string only when it names a catalog license; the accepted
    /// value holds the canonical name.
    pub fn parse(s: &str) -> (r: Result<LicenseName, CheckError>)
        ensures
            (r is Ok) == spdx_known_license(s@),
            r matches Ok(n) ==> n.0@ == spdx_canonical_name(s@),
            r matches Err(e) ==> e matches CheckError::NotApproved(m) && m@ == s@,
    {
        match lookup_license_id(s) {
            Some(name) => Ok(LicenseName(name)),
            None => Err(CheckError::NotApproved(s.to_owned())),
        }
    }
}

impl License {
    /// Parses the raw declared-license string under the given mode. On
    /// success the returned text is the expression exactly as declared; on
    /// failure the error carries the parser's message.
    pub fn expression(&self, lax: bool) -> (r: Result<String, CheckError>)
        ensures
            (r is Ok) == spdx_parse_ok(self.raw@, lax),
            r matches Ok(t) ==> t@ == self.raw@,
            r matches Err(e) ==> e matches CheckError::Parse(m) && m@ == spdx_parse_err(
                self.raw@,
                lax,
            ),
    {
        match parse_license(self.raw.as_str(), lax) {
            Ok(t) => Ok(t),
            Err(m) => Err(CheckError::Parse(m)),
        }
    }
}

/// The OSI-approved policy: a dependency passes when its license expression
/// is satisfied by OSI-approved licenses alone.
pub struct OsiApproved;

impl OsiApproved {
    pub fn check(&self, raw: &str, lax: bool) -> (r: Result<(), CheckError>)
        requires
            spdx_parse_ok(raw@, lax),
        ensures
            (r is Ok) == spdx_osi_ok(raw@, lax),
            r matches Err(e) ==> e matches CheckError::NotOsiApproved(m) && m@ == raw@,
    {
        match eval_osi(raw, lax) {
            Some(true) => Ok(()),
            Some(false) => Err(CheckError::NotOsiApproved(raw.to_owned())),
            None => {
                assert(false);
                Err(CheckError::MissingLicense)
            },
        }
    }
}

/// The allow-list policy: a dependency passes when its license expression is
/// satisfied by the caller-approved licenses alone. The list holds canonical
/// catalog names.
pub struct ApprovedLicenses {
    pub licenses: Vec<String>,
}

impl ApprovedLicenses {
    pub fn check(&self, raw: &str, lax: bool) -> (r: Result<(), CheckError>)
        requires
            spdx_parse_ok(raw@, lax),
        ensures
            (r is Ok) == spdx_any_approved(raw@, lax, crate::text::str_views(self.licenses@)),
            r matches Err(e) ==> e matches CheckError::NotApproved(m) && m@ == raw@,
    {
        match eval_approved(raw, lax, &self.licenses) {
            Some(true) => Ok(()),
            Some(false) => Err(CheckError::NotApproved(raw.to_owned())),
            None => {
                assert(false);
                Err(CheckError::MissingLicense)
            },
        }
    }
}

/// One registered license policy: the closed set of built-in predicates.
pub enum LicenseCheck {
    Osi(OsiApproved),
    Approved(ApprovedLicenses),
}

/// Whether one registered check rejects the expression parsed from `raw`.
pub open spec fn check_fails(c: LicenseCheck, raw: Seq<char>, lax: bool) -> bool {
    match c {
        LicenseCheck::Osi(_) => !spdx_osi_ok(raw, lax),
        LicenseCheck::Approved(a) => !spdx_any_approved(raw, lax, crate::text::str_views(a.licenses@)),
    }
}

/// The registered checks that reject the expression parsed from `raw`, in
/// registration order.
pub open spec fn failed_checks(checks: Seq<LicenseCheck>, raw: Seq<char>, lax: bool) -> Seq<
    LicenseCheck,
>
    decreases checks.len(),
{
    if checks.len() == 0 {
        Seq::empty()
    } else {
        let init = failed_checks(checks.drop_last(), raw, lax);
        if check_fails(checks.last(), raw, lax) {
            init.push(checks.last())
        } else {
            init
        }
    }
}

/// Whether `e` is the error that the failing check `c` reports for the
/// expression text `raw`.
pub open spec fn check_error_for(c: LicenseCheck, e: CheckError, raw: Seq<char>) -> bool {
    match c {
        LicenseCheck::Osi(_) => e matches CheckError::NotOsiApproved(m) && m@ == raw,
        LicenseCheck::Approved(_) => e matches CheckError::NotApproved(m) && m@ == raw,
    }
}

impl LicenseCheck {
    pub fn check(&self, raw: &str, lax: bool) -> (r: Result<(), CheckError>)
        requires
            spdx_parse_ok(raw@, lax),
        ensures
            (r is Ok) == !check_fails(*self, raw@, lax),
            r matches Err(e) ==> check_error_for(*self, e, raw@),
    {
        match self {
            LicenseCheck::Osi(c) => c.check(raw, lax),
            LicenseCheck::Approved(c) => c.check(raw, lax),
        }
    }
}

/// The raw declared-license text of a dependency, when its provenance record
/// is present and carries one.
pub open spec fn declared_raw(dep: Dependency) -> Option<Seq<char>> {
    match dep.clearly_defined {
        Some(cd) => match cd.declared_license {
            Some(l) => Some(l.raw@),
            None => None,
        },
        None => None,
    }
}

impl Dependency {
    /// Runs every registered license check against the dependency's declared
    /// license. A missing record or a failed parse short-circuits with a
    /// single error; otherwise every failing check contributes one error, in
    /// registration order, and the result is `Ok` exactly when none failed.
    pub fn test_license(&self, lax: bool, checks: &Vec<LicenseCheck>) -> (r: Result<
        (),
        Vec<CheckError>,
    >)
        ensures
            declared_raw(*self) is None ==> (r matches Err(es) && es@.len() == 1 && es@[0]
                is MissingLicense),
            declared_raw(*self) matches Some(raw) ==> {
                &&& !spdx_parse_ok(raw, lax) ==> (r matches Err(es) && es@.len() == 1 && (es@[0]
                    matches CheckError::Parse(m) && m@ == spdx_parse_err(raw, lax)))
                &&& spdx_parse_ok(raw, lax) ==> {
                    let failed = failed_checks(checks@, raw, lax);
                    &&& (r is Ok) == (failed.len() == 0)
                    &&& (r matches Err(es) ==> es@.len() == failed.len() && (forall|i: int|
                        0 <= i < failed.len() ==> check_error_for(
                            failed[i],
                            #[trigger] es@[i],
                            raw,
                        )))
                }
            },
    {
        let license = match &self.clearly_defined {
            Some(cd) => match &cd.declared_license {
                Some(license) => license,
                None => {
                    let mut es: Vec<CheckError> = Vec::new();
                    es.push(CheckError::MissingLicense);
                    return Err(es);
                },
            },
            None => {
                let mut es: Vec<CheckError> = Vec::new();
                es.push(CheckError::MissingLicense);
                return Err(es);
            },
        };
        let raw = license.raw.as_str();
        match parse_license(raw, lax) {
            Err(m) => {
                let mut es: Vec<CheckError> = Vec::new();
                es.push(CheckError::Parse(m));
                Err(es)
            },
            Ok(_) => {
                let mut es: Vec<CheckError> = Vec::new();
                let mut i: usize = 0;
                while i < checks.len()
                    invariant
                        i <= checks.len(),
                        spdx_parse_ok(raw@, lax),
                        es@.len() == failed_checks(checks@.take(i as int), raw@, lax).len(),
                        forall|j: int|
                            0 <= j < es@.len() ==> check_error_for(
                                failed_checks(checks@.take(i as int), raw@, lax)[j],
                                #[trigger] es@[j],
                                raw@,
                            ),
                    decreases checks.len() - i,
                {
                    let ghost prefix = checks@.take(i as int);
                    assert(checks@.take(i + 1).drop_last() =~= prefix);
                    assert(checks@.take(i + 1).last() == checks@[i as int]);
                    match checks[i].check(raw, lax) {
                        Ok(_) => {
                            assert(!check_fails(checks@[i as int], raw@, lax));
                        },
                        Err(e) => {
                            assert(check_fails(checks@[i as int], raw@, lax));
                            es.push(e);
                        },
                    }
                    i = i + 1;
                }
                assert(checks@.take(checks@.len() as int) =~= checks@);
                if es.len() == 0 {
                    Ok(())
                } else {
                    Err(es)
                }
            },
        }
    }
}

} // verus!
