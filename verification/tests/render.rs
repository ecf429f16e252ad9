use cargo_clearlydefined::data::{ClearlyDefined, Dependency, License, Version};
use cargo_clearlydefined::outcome::{Outcome, OutputFormat, ScoreType};
use cargo_clearlydefined::report::{
    api_url, clearly_link, csv, emoji, format_error, markdown_image_link, shield_escape,
    shield_score, show, summary_line, RenderOptions,
};
use cargo_clearlydefined::text::dec_string;

fn sample(name: &str, license: Option<&str>, effective: u64) -> Dependency {
    let mut d = Dependency::new(name.to_string(), Version::new(1, 0, 0));
    d.clearly_defined = Some(ClearlyDefined::new(
        license.map(|l| License::new(l.to_string()).unwrap()),
        effective,
        0,
    ));
    d
}

fn options(link: bool) -> RenderOptions {
    RenderOptions { score_type: ScoreType::Effective, lax: false, link }
}

#[test]
fn decimal_rendering_is_exact() {
    assert_eq!(dec_string(0), "0");
    assert_eq!(dec_string(7), "7");
    assert_eq!(dec_string(10), "10");
    assert_eq!(dec_string(12345), "12345");
    assert_eq!(dec_string(u64::MAX), "18446744073709551615");
}

#[test]
fn version_renders_dotted() {
    assert_eq!(Version::new(1, 0, 0).to_text(), "1.0.0");
    assert_eq!(Version::new(12, 34, 56).to_text(), "12.34.56");
}

#[test]
fn emoji_and_csv_marks_per_outcome() {
    assert_eq!(emoji(Outcome::Pass), "\u{2705}");
    assert_eq!(emoji(Outcome::Fail), "\u{274c}");
    assert_eq!(emoji(Outcome::Ignore), "\u{1f648}");
    assert_eq!(csv(Outcome::Pass), "+");
    assert_eq!(csv(Outcome::Fail), "-");
    assert_eq!(csv(Outcome::Ignore), "");
}

#[test]
fn shield_escape_doubles_dash_and_underscore() {
    assert_eq!(shield_escape(&"left-pad_rs".to_string()), "left--pad__rs");
    assert_eq!(shield_escape(&"plain".to_string()), "plain");
    assert_eq!(shield_escape(&"".to_string()), "");
}

#[test]
fn links_use_the_provenance_page_template() {
    let d = sample("leftpad", Some("MIT"), 90);
    assert_eq!(
        clearly_link(&d),
        "https://clearlydefined.io/definitions/crate/cratesio/-/leftpad/1.0.0"
    );
    assert_eq!(
        api_url(&"leftpad".to_string(), &Version::new(1, 0, 0)),
        "https://api.clearlydefined.io/definitions/crate/cratesio/-/leftpad/1.0.0"
    );
}

#[test]
fn shield_score_encodes_escapes_and_color() {
    let mut d = sample("left-pad", Some("MIT"), 90);
    d.passed_score = Outcome::Pass;
    assert_eq!(
        shield_score(&d, &"90".to_string()),
        "https://img.shields.io/badge/left--pad_1.0.0-90-success"
    );
    d.passed_score = Outcome::Fail;
    assert_eq!(
        shield_score(&d, &"90".to_string()),
        "https://img.shields.io/badge/left--pad_1.0.0-90-critical"
    );
    d.passed_score = Outcome::Ignore;
    assert_eq!(
        shield_score(&d, &"90".to_string()),
        "https://img.shields.io/badge/left--pad_1.0.0-90-inactive"
    );
}

#[test]
fn markdown_image_link_wraps_image_in_link() {
    assert_eq!(
        markdown_image_link(&"IMG".to_string(), &"LINK".to_string(), &"ALT".to_string()),
        "[![ALT](IMG)](LINK)"
    );
}

#[test]
fn format_error_marks_every_text_line() {
    assert_eq!(
        format_error(OutputFormat::Text, &"one\ntwo".to_string()),
        "ERR: one\nERR: two"
    );
    assert_eq!(
        format_error(OutputFormat::Markdown, &"oops".to_string()),
        "<b>ERR:</b> <i>oops</i>"
    );
    assert_eq!(format_error(OutputFormat::CSV, &"oops".to_string()), "ERR: oops");
}

#[test]
fn summary_line_counts_dependencies() {
    assert_eq!(summary_line(3), "3 dependencies processed");
    assert_eq!(summary_line(0), "0 dependencies processed");
}

#[test]
fn csv_row_width_equals_header_width() {
    let mut pass = sample("leftpad", Some("MIT"), 90);
    pass.passed_score = Outcome::Pass;
    pass.passed_license = Outcome::Pass;
    let missing = sample("ghost", None, 5);
    let deps = vec![pass, missing, Dependency::new("bare".to_string(), Version::new(0, 1, 2))];
    for ssc in [false, true] {
        for slc in [false, true] {
            for link in [false, true] {
                let r = show(OutputFormat::CSV, &options(link), ssc, slc, &deps);
                assert_eq!(r.rows.len(), deps.len());
                for row in &r.rows {
                    assert_eq!(row.len(), r.titles.len());
                }
            }
        }
    }
}

#[test]
fn csv_report_cells_are_exact() {
    let mut d = sample("leftpad", Some("MIT"), 90);
    d.passed_score = Outcome::Pass;
    d.passed_license = Outcome::Pass;
    let r = show(OutputFormat::CSV, &options(false), true, true, &vec![d]);
    assert_eq!(
        r.titles,
        vec!["Name", "Version", "Declared license", "License", "Score", "Score check"]
    );
    assert_eq!(r.rows[0], vec!["leftpad", "1.0.0", "MIT", "+", "90", "+"]);
}

#[test]
fn text_report_shows_glyphs_and_optional_link() {
    let mut d = sample("leftpad", Some("MIT"), 90);
    d.passed_score = Outcome::Pass;
    d.passed_license = Outcome::Fail;
    let r = show(OutputFormat::Text, &options(false), true, true, &vec![d.clone()]);
    assert_eq!(r.titles, vec!["Name", "Version", "Declared license", "License", "Score"]);
    assert_eq!(
        r.rows[0],
        vec!["leftpad", "1.0.0", "MIT", "\u{274c}", "\u{2705} 90"]
    );
    let linked = show(OutputFormat::Text, &options(true), true, false, &vec![d]);
    assert_eq!(
        linked.rows[0][3],
        "\u{2705} 90 (https://clearlydefined.io/definitions/crate/cratesio/-/leftpad/1.0.0)"
    );
}

#[test]
fn markdown_report_links_and_badges() {
    let mut d = sample("leftpad", Some("MIT"), 90);
    d.passed_score = Outcome::Pass;
    d.passed_license = Outcome::Pass;
    let plain_link = show(OutputFormat::Markdown, &options(true), false, false, &vec![d.clone()]);
    assert_eq!(
        plain_link.rows[0][3],
        "[90](https://clearlydefined.io/definitions/crate/cratesio/-/leftpad/1.0.0)"
    );
    let badge = show(OutputFormat::Markdown, &options(true), true, false, &vec![d.clone()]);
    assert_eq!(
        badge.rows[0][3],
        "[![90](https://img.shields.io/badge/leftpad_1.0.0-90-success)](https://clearlydefined.io/definitions/crate/cratesio/-/leftpad/1.0.0)"
    );
    let glyph = show(OutputFormat::Markdown, &options(false), true, false, &vec![d.clone()]);
    assert_eq!(glyph.rows[0][3], "\u{2705} 90");
    let bare = show(OutputFormat::Markdown, &options(false), false, false, &vec![d]);
    assert_eq!(bare.rows[0][3], "90");
}

#[test]
fn parse_error_surfaces_in_the_license_cell() {
    let d = sample("broken", Some("MIT OR"), 90);
    let r = show(OutputFormat::CSV, &options(false), false, false, &vec![d.clone()]);
    assert!(r.rows[0][2].starts_with("ERR: "));
    let md = show(OutputFormat::Markdown, &options(false), false, false, &vec![d.clone()]);
    assert!(md.rows[0][2].starts_with("<b>ERR:</b> <i>"));
    let text = show(OutputFormat::Text, &options(false), false, false, &vec![d]);
    assert!(text.rows[0][2].starts_with("ERR: "));
    for line in text.rows[0][2].split('\n') {
        assert!(line.starts_with("ERR: "));
    }
}

#[test]
fn missing_provenance_renders_empty_cells() {
    let d = Dependency::new("ghost".to_string(), Version::new(1, 0, 0));
    let r = show(OutputFormat::CSV, &options(false), false, false, &vec![d]);
    assert_eq!(r.rows[0], vec!["ghost", "1.0.0", "", ""]);
    let no_license = sample("quiet", None, 42);
    let r2 = show(OutputFormat::CSV, &options(false), false, false, &vec![no_license]);
    assert_eq!(r2.rows[0], vec!["quiet", "1.0.0", "", "42"]);
}
