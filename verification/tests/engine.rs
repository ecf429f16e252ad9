use cargo_clearlydefined::checks::{ApprovedLicenses, LicenseCheck, LicenseName, OsiApproved};
use cargo_clearlydefined::data::{CheckError, ClearlyDefined, Dependency, License, Version};
use cargo_clearlydefined::eval::{all_passed, count_failed, evaluate, failed_deps, make_dependencies, Policy};
use cargo_clearlydefined::outcome::{combine_overall, verbosity, LogLevel, Outcome, ScoreType};
use cargo_clearlydefined::sort::sort_dependencies;

fn dep(name: &str, version: Version, license: Option<&str>, effective: u64, licensed: u64) -> Dependency {
    let mut d = Dependency::new(name.to_string(), version);
    d.clearly_defined = Some(ClearlyDefined::new(
        license.map(|l| License::new(l.to_string()).unwrap()),
        effective,
        licensed,
    ));
    d
}

fn osi_policy(required_score: u64) -> Policy {
    Policy {
        required_score,
        score_type: ScoreType::Effective,
        ignore: vec![],
        approve_all: false,
        lax: false,
        checks: vec![LicenseCheck::Osi(OsiApproved)],
    }
}

#[test]
fn combine_overall_false_iff_any_fail() {
    let all = [Outcome::Pass, Outcome::Fail, Outcome::Ignore];
    for &a in &all {
        for &b in &all {
            let expected = !(matches!(a, Outcome::Fail) || matches!(b, Outcome::Fail));
            assert_eq!(combine_overall(a, b), expected);
        }
    }
    assert!(combine_overall(Outcome::Pass, Outcome::Pass));
    assert!(combine_overall(Outcome::Pass, Outcome::Ignore));
    assert!(combine_overall(Outcome::Ignore, Outcome::Ignore));
    assert!(combine_overall(Outcome::Ignore, Outcome::Pass));
}

#[test]
fn ignored_dependency_keeps_both_outcomes_ignore() {
    let d = dep("leftpad", Version::new(1, 0, 0), Some("GPL-3.0-only AND"), 1, 1);
    let mut policy = osi_policy(80);
    policy.ignore = vec!["leftpad".to_string()];
    let out = evaluate(&vec![d], &policy);
    assert!(matches!(out[0].passed_license, Outcome::Ignore));
    assert!(matches!(out[0].passed_score, Outcome::Ignore));
    assert!(out[0].passed());
}

#[test]
fn no_checks_registered_fails_license() {
    let d = dep("leftpad", Version::new(1, 0, 0), Some("MIT"), 100, 100);
    let policy = Policy {
        required_score: 0,
        score_type: ScoreType::Effective,
        ignore: vec![],
        approve_all: false,
        lax: false,
        checks: vec![],
    };
    let out = evaluate(&vec![d], &policy);
    assert!(matches!(out[0].passed_license, Outcome::Fail));
    assert!(matches!(out[0].passed_score, Outcome::Pass));
}

#[test]
fn approve_all_passes_license_whatever_it_holds() {
    for raw in [Some("MIT OR"), Some("not a license"), None] {
        let d = dep("leftpad", Version::new(1, 0, 0), raw, 0, 0);
        let mut policy = osi_policy(80);
        policy.approve_all = true;
        let out = evaluate(&vec![d], &policy);
        assert!(matches!(out[0].passed_license, Outcome::Pass));
    }
}

#[test]
fn score_boundary_passes_at_equality() {
    let at = dep("a", Version::new(1, 0, 0), Some("MIT"), 80, 0);
    let below = dep("a", Version::new(1, 0, 0), Some("MIT"), 79, 0);
    let policy = osi_policy(80);
    let out = evaluate(&vec![at, below], &policy);
    assert!(matches!(out[0].passed_score, Outcome::Pass));
    assert!(matches!(out[1].passed_score, Outcome::Fail));
}

#[test]
fn licensed_score_type_reads_other_field() {
    let d = dep("a", Version::new(1, 0, 0), Some("MIT"), 10, 95);
    let mut policy = osi_policy(80);
    policy.score_type = ScoreType::Licensed;
    let out = evaluate(&vec![d], &policy);
    assert!(matches!(out[0].passed_score, Outcome::Pass));
    let cd = out[0].clearly_defined.as_ref().unwrap();
    assert_eq!(cd.score(ScoreType::Effective), 10);
    assert_eq!(cd.score(ScoreType::Licensed), 95);
}

#[test]
fn sort_is_deterministic_for_names_and_versions() {
    let a1 = dep("A", Version::new(1, 0, 0), None, 0, 0);
    let a2 = dep("A", Version::new(2, 0, 0), None, 0, 0);
    let b1 = dep("B", Version::new(1, 0, 0), None, 0, 0);
    let shuffles = [
        vec![b1.clone(), a2.clone(), a1.clone()],
        vec![a2.clone(), a1.clone(), b1.clone()],
        vec![a1.clone(), a2.clone(), b1.clone()],
    ];
    for input in shuffles {
        let out = sort_dependencies(&input);
        assert_eq!(out.len(), 3);
        assert_eq!(out[0].name, "A");
        assert_eq!(out[0].version, Version::new(1, 0, 0));
        assert_eq!(out[1].name, "A");
        assert_eq!(out[1].version, Version::new(2, 0, 0));
        assert_eq!(out[2].name, "B");
        assert_eq!(out[2].version, Version::new(1, 0, 0));
    }
}

#[test]
fn sort_is_stable_for_equal_keys() {
    let mut first = dep("same", Version::new(1, 0, 0), None, 1, 0);
    first.passed_score = Outcome::Pass;
    let mut second = dep("same", Version::new(1, 0, 0), None, 2, 0);
    second.passed_score = Outcome::Fail;
    let out = sort_dependencies(&vec![first, second]);
    assert!(matches!(out[0].passed_score, Outcome::Pass));
    assert!(matches!(out[1].passed_score, Outcome::Fail));
}

#[test]
fn scenario_osi_approved_and_high_score_passes() {
    let d = dep("leftpad", Version::new(1, 0, 0), Some("MIT"), 90, 0);
    let out = evaluate(&vec![d], &osi_policy(80));
    assert!(matches!(out[0].passed_score, Outcome::Pass));
    assert!(matches!(out[0].passed_license, Outcome::Pass));
    assert!(out[0].passed());
    assert!(all_passed(&out));
}

#[test]
fn scenario_low_score_fails_overall_despite_license() {
    let d = dep("leftpad", Version::new(1, 0, 0), Some("MIT"), 70, 0);
    let out = evaluate(&vec![d], &osi_policy(80));
    assert!(matches!(out[0].passed_score, Outcome::Fail));
    assert!(matches!(out[0].passed_license, Outcome::Pass));
    assert!(!out[0].passed());
    assert!(!all_passed(&out));
    assert_eq!(count_failed(&out), 1);
}

#[test]
fn scenario_missing_provenance_fails_both() {
    let d = Dependency::new("ghost".to_string(), Version::new(0, 1, 0));
    let out = evaluate(&vec![d.clone()], &osi_policy(80));
    assert!(matches!(out[0].passed_license, Outcome::Fail));
    assert!(matches!(out[0].passed_score, Outcome::Fail));
    // with no required score, the defaulted score of zero still passes
    let out0 = evaluate(&vec![d], &osi_policy(0));
    assert!(matches!(out0[0].passed_score, Outcome::Pass));
    assert!(matches!(out0[0].passed_license, Outcome::Fail));
}

#[test]
fn scenario_missing_declared_license_reports_missing_information() {
    let d = dep("nolicense", Version::new(1, 0, 0), None, 90, 90);
    let errors = d
        .test_license(false, &vec![LicenseCheck::Osi(OsiApproved)])
        .unwrap_err();
    assert_eq!(errors.len(), 1);
    assert_eq!(errors[0].message(), "Missing license information");
}

#[test]
fn scenario_malformed_expression_fails_with_parse_error() {
    let d = dep("leftpad", Version::new(1, 0, 0), Some("MIT OR"), 90, 0);
    let out = evaluate(&vec![d.clone()], &osi_policy(80));
    assert!(matches!(out[0].passed_license, Outcome::Fail));
    let errors = d
        .test_license(false, &vec![LicenseCheck::Osi(OsiApproved)])
        .unwrap_err();
    assert_eq!(errors.len(), 1);
    assert!(matches!(errors[0], CheckError::Parse(_)));
}

#[test]
fn osi_check_rejects_non_osi_license() {
    let d = dep("cc", Version::new(1, 0, 0), Some("CC-BY-NC-4.0"), 100, 100);
    let out = evaluate(&vec![d.clone()], &osi_policy(0));
    assert!(matches!(out[0].passed_license, Outcome::Fail));
    let errors = d
        .test_license(false, &vec![LicenseCheck::Osi(OsiApproved)])
        .unwrap_err();
    assert_eq!(errors.len(), 1);
    assert_eq!(errors[0].message(), "CC-BY-NC-4.0 is not OSI approved");
}

#[test]
fn approved_list_accepts_member_and_rejects_other() {
    let allow = LicenseCheck::Approved(ApprovedLicenses { licenses: vec!["MIT".to_string()] });
    let mit = dep("m", Version::new(1, 0, 0), Some("MIT"), 0, 0);
    let apache = dep("a", Version::new(1, 0, 0), Some("Apache-2.0"), 0, 0);
    assert!(mit.test_license(false, &vec![allow]).is_ok());
    let allow = LicenseCheck::Approved(ApprovedLicenses { licenses: vec!["MIT".to_string()] });
    let errors = apache.test_license(false, &vec![allow]).unwrap_err();
    assert_eq!(errors.len(), 1);
    assert_eq!(errors[0].message(), "Apache-2.0 is not an approved license");
}

#[test]
fn or_expression_passes_when_one_branch_is_approved() {
    let d = dep("d", Version::new(1, 0, 0), Some("MIT OR CC-BY-NC-4.0"), 0, 0);
    assert!(d.test_license(false, &vec![LicenseCheck::Osi(OsiApproved)]).is_ok());
    let d2 = dep("d", Version::new(1, 0, 0), Some("MIT AND CC-BY-NC-4.0"), 0, 0);
    assert!(d2.test_license(false, &vec![LicenseCheck::Osi(OsiApproved)]).is_err());
}

#[test]
fn all_failing_checks_are_collected() {
    let d = dep("d", Version::new(1, 0, 0), Some("CC-BY-NC-4.0"), 0, 0);
    let checks = vec![
        LicenseCheck::Osi(OsiApproved),
        LicenseCheck::Approved(ApprovedLicenses { licenses: vec!["MIT".to_string()] }),
    ];
    let errors = d.test_license(false, &checks).unwrap_err();
    assert_eq!(errors.len(), 2);
    assert_eq!(errors[0].message(), "CC-BY-NC-4.0 is not OSI approved");
    assert_eq!(errors[1].message(), "CC-BY-NC-4.0 is not an approved license");
}

#[test]
fn license_name_canonicalizes_and_rejects_unknown() {
    assert_eq!(LicenseName::parse("MIT").unwrap().0, "MIT");
    assert_eq!(LicenseName::parse("BitTorrent-1.1+").unwrap().0, "BitTorrent-1.1");
    assert!(LicenseName::parse("TotallyNotALicense").is_err());
    assert!(LicenseName::parse("mit").is_err());
}

#[test]
fn expression_returns_declared_text_unchanged() {
    let l = License::new("MIT OR Apache-2.0".to_string()).unwrap();
    assert_eq!(l.expression(false).unwrap(), "MIT OR Apache-2.0");
    let bad = License::new("MIT OR".to_string()).unwrap();
    assert!(bad.expression(false).is_err());
}

#[test]
fn make_dependencies_excludes_names() {
    let pairs = vec![
        ("keep".to_string(), Version::new(1, 2, 3)),
        ("drop".to_string(), Version::new(2, 0, 0)),
    ];
    let out = make_dependencies(pairs, &vec!["drop".to_string()]);
    assert_eq!(out.len(), 1);
    assert_eq!(out[0].name, "keep");
    assert!(out[0].clearly_defined.is_none());
    assert!(matches!(out[0].passed_license, Outcome::Ignore));
    assert!(matches!(out[0].passed_score, Outcome::Ignore));
}

#[test]
fn failed_deps_keeps_only_failures_in_order() {
    let mut pass = dep("a", Version::new(1, 0, 0), None, 0, 0);
    pass.passed_score = Outcome::Pass;
    pass.passed_license = Outcome::Pass;
    let mut fail1 = dep("b", Version::new(1, 0, 0), None, 0, 0);
    fail1.passed_score = Outcome::Fail;
    let mut fail2 = dep("c", Version::new(1, 0, 0), None, 0, 0);
    fail2.passed_license = Outcome::Fail;
    let out = failed_deps(&vec![pass, fail1, fail2]);
    assert_eq!(out.len(), 2);
    assert_eq!(out[0].name, "b");
    assert_eq!(out[1].name, "c");
}

#[test]
fn dependency_equality_ignores_provenance_and_outcomes() {
    let mut a = dep("same", Version::new(1, 0, 0), Some("MIT"), 50, 0);
    a.passed_score = Outcome::Fail;
    let b = Dependency::new("same".to_string(), Version::new(1, 0, 0));
    assert!(a == b);
    let c = Dependency::new("same".to_string(), Version::new(1, 0, 1));
    assert!(a != c);
}

#[test]
fn verbosity_maps_count_to_level() {
    assert!(matches!(verbosity(0), LogLevel::Warn));
    assert!(matches!(verbosity(1), LogLevel::Info));
    assert!(matches!(verbosity(2), LogLevel::Debug));
    assert!(matches!(verbosity(3), LogLevel::Trace));
    assert!(matches!(verbosity(4), LogLevel::Off));
}
