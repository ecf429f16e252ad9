//! The evaluator: applies the score threshold and the registered license
//! policies to each dependency independently, honouring the resolution order
//! of the policy (ignore-list first, then the no-checks rule, then
//! approve-all, then the checks themselves).

use vstd::prelude::*;

use crate::checks::{declared_raw, failed_checks, spdx_parse_ok, LicenseCheck};
use crate::data::{Dependency, Version};
use crate::outcome::{outcome_of, Outcome, ScoreType};
use crate::text::{contains_str, str_views};

verus! {

/// The caller-supplied policy configuration for one evaluation run.
pub struct Policy {
    /// The score a dependency must reach; zero disables the score-check
    /// column but not the score computation.
    pub required_score: u64,
    /// Which of the two provenance scores the threshold is applied to.
    pub score_type: ScoreType,
    /// Names of dependencies exempted from judgment.
    pub ignore: Vec<String>,
    /// Approve every license without running the checks.
    pub approve_all: bool,
    /// Parse SPDX expressions in lax mode.
    pub lax: bool,
    /// The registered license checks.
    pub checks: Vec<LicenseCheck>,
}

/// The score of a dependency under the chosen kind: the provenance record's
/// figure, or zero when the record is absent.
pub open spec fn spec_score(dep: Dependency, score_type: ScoreType) -> u64 {
    match dep.clearly_defined {
        Some(cd) => match score_type {
            ScoreType::Effective => cd.effective_score,
            ScoreType::Licensed => cd.licensed_score,
        },
        None => 0,
    }
}

/// Whether the dependency is on the ignore-list.
pub open spec fn is_ignored(dep: Dependency, ignore: Seq<String>) -> bool {
    str_views(ignore).contains(dep.name@)
}

/// Whether the declared license passes every registered check: a license must
/// be present, parse under the active mode, and satisfy each check.
pub open spec fn spec_license_ok(dep: Dependency, lax: bool, checks: Seq<LicenseCheck>) -> bool {
    match declared_raw(dep) {
        Some(raw) => spdx_parse_ok(raw, lax) && failed_checks(checks, raw, lax).len() == 0,
        None => false,
    }
}

/// The license outcome of a non-ignored dependency, in resolution order: no
/// registered checks fails unconditionally, approve-all passes
/// unconditionally, and otherwise the checks decide.
pub open spec fn spec_license_outcome(dep: Dependency, p: Policy) -> Outcome {
    if p.checks@.len() == 0 {
        Outcome::Fail
    } else if p.approve_all {
        Outcome::Pass
    } else {
        outcome_of(spec_license_ok(dep, p.lax, p.checks@))
    }
}

/// The evaluation of one dependency: an ignored dependency has both outcomes
/// `Ignore`; any other gets the score verdict and the license verdict.
/// Identity and provenance are never touched.
pub open spec fn spec_eval_dep(dep: Dependency, p: Policy) -> Dependency {
    if is_ignored(dep, p.ignore@) {
        Dependency { passed_score: Outcome::Ignore, passed_license: Outcome::Ignore, ..dep }
    } else {
        Dependency {
            passed_score: outcome_of(spec_score(dep, p.score_type) >= p.required_score),
            passed_license: spec_license_outcome(dep, p),
            ..dep
        }
    }
}

/// Evaluates one dependency under the policy.
pub fn evaluate_dep(dep: &Dependency, p: &Policy) -> (r: Dependency)
    ensures
        r == spec_eval_dep(*dep, *p),
{
    let mut out = dep.duplicate();
    if contains_str(&p.ignore, dep.name.as_str()) {
        out.passed_score = Outcome::Ignore;
        out.passed_license = Outcome::Ignore;
    } else {
        let score = match &dep.clearly_defined {
            Some(cd) => cd.score(p.score_type),
            None => 0,
        };
        out.passed_score = Outcome::from_bool(score >= p.required_score);
        if p.checks.len() == 0 {
            out.passed_license = Outcome::Fail;
        } else if p.approve_all {
            out.passed_license = Outcome::Pass;
        } else {
            let ok = dep.test_license(p.lax, &p.checks).is_ok();
            out.passed_license = Outcome::from_bool(ok);
        }
    }
    out
}

/// Evaluates the whole collection, each dependency independently.
pub fn evaluate(deps: &Vec<Dependency>, p: &Policy) -> (r: Vec<Dependency>)
    ensures
        r@.len() == deps@.len(),
        forall|i: int| 0 <= i < deps@.len() ==> r@[i] == spec_eval_dep(deps@[i], *p),
{
    let mut out: Vec<Dependency> = Vec::new();
    let mut i: usize = 0;
    while i < deps.len()
        invariant
            i <= deps.len(),
            out@.len() == i,
            forall|j: int| 0 <= j < i ==> out@[j] == spec_eval_dep(deps@[j], *p),
        decreases deps.len() - i,
    {
        out.push(evaluate_dep(&deps[i], p));
        i = i + 1;
    }
    out
}

/// A dependency on the ignore-list always has both outcomes `Ignore` after
/// evaluation, regardless of its score or license content.
pub proof fn lemma_ignored_dep(dep: Dependency, p: Policy)
    requires
        is_ignored(dep, p.ignore@),
    ensures
        spec_eval_dep(dep, p).passed_license is Ignore,
        spec_eval_dep(dep, p).passed_score is Ignore,
{
}

/// With zero license checks registered and approve-all unset, every
/// non-ignored dependency fails the license test.
pub proof fn lemma_no_checks_fails(dep: Dependency, p: Policy)
    requires
        !is_ignored(dep, p.ignore@),
        p.checks@.len() == 0,
        !p.approve_all,
    ensures
        spec_eval_dep(dep, p).passed_license is Fail,
{
}

/// With approve-all set and at least one check registered, every non-ignored
/// dependency passes the license test, whatever its declared license holds
/// and whether or not it parses. (With zero checks registered the no-checks
/// rule takes precedence and the outcome is `Fail`.)
pub proof fn lemma_approve_all_passes(dep: Dependency, p: Policy)
    requires
        !is_ignored(dep, p.ignore@),
        p.approve_all,
        p.checks@.len() > 0,
    ensures
        spec_eval_dep(dep, p).passed_license is Pass,
{
}

/// The score outcome of a non-ignored dependency is `Pass` exactly when its
/// score reaches the required score; the boundary case of equality passes.
pub proof fn lemma_score_threshold(dep: Dependency, p: Policy)
    requires
        !is_ignored(dep, p.ignore@),
    ensures
        spec_eval_dep(dep, p).passed_score is Pass <==> spec_score(dep, p.score_type)
            >= p.required_score,
        spec_score(dep, p.score_type) == p.required_score ==> spec_eval_dep(
            dep,
            p,
        ).passed_score is Pass,
{
}

/// Whether a dependency failed at least one of its two checks.
pub open spec fn spec_failed(dep: Dependency) -> bool {
    dep.passed_score is Fail || dep.passed_license is Fail
}

/// The dependencies that failed, in collection order.
pub open spec fn spec_failed_deps(deps: Seq<Dependency>) -> Seq<Dependency>
    decreases deps.len(),
{
    if deps.len() == 0 {
        Seq::empty()
    } else {
        let init = spec_failed_deps(deps.drop_last());
        if spec_failed(deps.last()) {
            init.push(deps.last())
        } else {
            init
        }
    }
}

/// Keeps only the dependencies that failed at least one check, in order.
pub fn failed_deps(deps: &Vec<Dependency>) -> (r: Vec<Dependency>)
    ensures
        r@ == spec_failed_deps(deps@),
{
    let mut out: Vec<Dependency> = Vec::new();
    let mut i: usize = 0;
    while i < deps.len()
        invariant
            i <= deps.len(),
            out@ == spec_failed_deps(deps@.take(i as int)),
        decreases deps.len() - i,
    {
        assert(deps@.take(i + 1).drop_last() =~= deps@.take(i as int));
        assert(deps@.take(i + 1).last() == deps@[i as int]);
        if !deps[i].passed() {
            out.push(deps[i].duplicate());
        }
        i = i + 1;
    }
    assert(deps@.take(deps@.len() as int) =~= deps@);
    out
}

/// Counts the dependencies that failed at least one check.
pub fn count_failed(deps: &Vec<Dependency>) -> (r: usize)
    ensures
        r == spec_failed_deps(deps@).len(),
{
    let failed = failed_deps(deps);
    failed.len()
}

/// The process-level success signal: true exactly when no dependency failed.
pub fn all_passed(deps: &Vec<Dependency>) -> (r: bool)
    ensures
        r == (spec_failed_deps(deps@).len() == 0),
{
    count_failed(deps) == 0
}

/// The failure list is empty exactly when no dependency in the collection
/// failed either of its checks.
pub proof fn lemma_no_failures(deps: Seq<Dependency>)
    ensures
        (spec_failed_deps(deps).len() == 0) <==> (forall|i: int|
            0 <= i < deps.len() ==> !spec_failed(#[trigger] deps[i])),
    decreases deps.len(),
{
    if deps.len() > 0 {
        lemma_no_failures(deps.drop_last());
        assert(forall|i: int|
            0 <= i < deps.len() - 1 ==> deps.drop_last()[i] == #[trigger] deps[i]);
        assert(deps.last() == deps[deps.len() - 1]);
    }
}

/// The dependencies made from the resolved `(name, version)` pairs, skipping
/// the excluded names, each with no provenance and both outcomes `Ignore`.
pub open spec fn spec_make_deps(pairs: Seq<(String, Version)>, exclude: Seq<String>) -> Seq<
    Dependency,
>
    decreases pairs.len(),
{
    if pairs.len() == 0 {
        Seq::empty()
    } else {
        let init = spec_make_deps(pairs.drop_last(), exclude);
        if str_views(exclude).contains(pairs.last().0@) {
            init
        } else {
            init.push(
                Dependency {
                    name: pairs.last().0,
                    version: pairs.last().1,
                    clearly_defined: None,
                    passed_license: Outcome::Ignore,
                    passed_score: Outcome::Ignore,
                },
            )
        }
    }
}

/// Builds the initial dependency collection from resolved `(name, version)`
/// pairs, dropping the excluded names.
pub fn make_dependencies(pairs: Vec<(String, Version)>, exclude: &Vec<String>) -> (r: Vec<
    Dependency,
>)
    ensures
        r@ == spec_make_deps(pairs@, exclude@),
{
    let mut out: Vec<Dependency> = Vec::new();
    let mut i: usize = 0;
    while i < pairs.len()
        invariant
            i <= pairs.len(),
            out@ == spec_make_deps(pairs@.take(i as int), exclude@),
        decreases pairs.len() - i,
    {
        assert(pairs@.take(i + 1).drop_last() =~= pairs@.take(i as int));
        assert(pairs@.take(i + 1).last() == pairs@[i as int]);
        let (name, version) = (pairs[i].0.clone(), pairs[i].1);
        if !contains_str(exclude, name.as_str()) {
            assert(name@ == pairs@[i as int].0@);
            out.push(Dependency::new(name, version));
        }
        i = i + 1;
    }
    assert(pairs@.take(pairs@.len() as int) =~= pairs@);
    out
}

} // verus!
