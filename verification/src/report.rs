//! The reporter: computes the exact header and cell text of the Text, CSV or
//! Markdown report for an evaluated dependency collection. Writing the table
//! out is the caller's concern; every cell is pinned here.

use vstd::prelude::*;

use crate::checks::{spdx_parse_err, spdx_parse_ok};
use crate::data::{CheckError, Dependency, Version};
use crate::outcome::{Outcome, OutputFormat, ScoreType};
use crate::text::{dec_string, push_char, spec_dec, str_views};

verus! {

/// The glyph a Text or Markdown report shows for an outcome.
pub open spec fn spec_emoji(o: Outcome) -> Seq<char> {
    match o {
        Outcome::Pass => "\u{2705}"@,
        Outcome::Fail => "\u{274c}"@,
        Outcome::Ignore => "\u{1f648}"@,
    }
}

/// The glyph a report shows for an outcome in Text or Markdown.
pub fn emoji(outcome: Outcome) -> (r: &'static str)
    ensures
        r@ == spec_emoji(outcome),
{
    match outcome {
        Outcome::Pass => "\u{2705}",
        Outcome::Fail => "\u{274c}",
        Outcome::Ignore => "\u{1f648}",
    }
}

/// The mark a CSV report shows for an outcome: `+`, `-`, or nothing.
pub open spec fn spec_csv_mark(o: Outcome) -> Seq<char> {
    match o {
        Outcome::Pass => "+"@,
        Outcome::Fail => "-"@,
        Outcome::Ignore => ""@,
    }
}

/// The mark a CSV report shows for an outcome.
pub fn csv(outcome: Outcome) -> (r: &'static str)
    ensures
        r@ == spec_csv_mark(outcome),
{
    match outcome {
        Outcome::Pass => "+",
        Outcome::Fail => "-",
        Outcome::Ignore => "",
    }
}

/// The badge color keyed to an outcome.
pub open spec fn spec_outcome_color(o: Outcome) -> Seq<char> {
    match o {
        Outcome::Pass => "success"@,
        Outcome::Fail => "critical"@,
        Outcome::Ignore => "inactive"@,
    }
}

/// The badge color keyed to an outcome.
pub fn outcome_color(outcome: Outcome) -> (r: &'static str)
    ensures
        r@ == spec_outcome_color(outcome),
{
    match outcome {
        Outcome::Pass => "success",
        Outcome::Fail => "critical",
        Outcome::Ignore => "inactive",
    }
}

/// The shields.io escaping of one character: `-` doubles, `_` doubles,
/// everything else stands.
pub open spec fn spec_shield_escape_char(c: char) -> Seq<char> {
    if c == '-' {
        seq!['-', '-']
    } else if c == '_' {
        seq!['_', '_']
    } else {
        seq![c]
    }
}

/// The shields.io escaping of a text, character by character.
pub open spec fn spec_shield_escape(s: Seq<char>) -> Seq<char>
    decreases s.len(),
{
    if s.len() == 0 {
        Seq::empty()
    } else {
        spec_shield_escape_char(s[0]) + spec_shield_escape(s.drop_first())
    }
}

proof fn lemma_shield_escape_concat(a: Seq<char>, b: Seq<char>)
    ensures
        spec_shield_escape(a + b) == spec_shield_escape(a) + spec_shield_escape(b),
    decreases a.len(),
{
    if a.len() == 0 {
        assert(a + b =~= b);
        assert(spec_shield_escape(a) + spec_shield_escape(b) =~= spec_shield_escape(b));
    } else {
        assert((a + b).drop_first() =~= a.drop_first() + b);
        assert((a + b)[0] == a[0]);
        lemma_shield_escape_concat(a.drop_first(), b);
        assert(spec_shield_escape_char(a[0]) + (spec_shield_escape(a.drop_first())
            + spec_shield_escape(b)) =~= spec_shield_escape(a) + spec_shield_escape(b));
    }
}

/// Escapes a text for a shields.io badge path segment.
pub fn shield_escape(input: &String) -> (r: String)
    ensures
        r@ == spec_shield_escape(input@),
{
    let s = input.as_str();
    let n = s.unicode_len();
    let mut out = String::new();
    let mut i: usize = 0;
    while i < n
        invariant
            i <= n,
            n == s@.len(),
            s@ == input@,
            out@ == spec_shield_escape(s@.take(i as int)),
        decreases n - i,
    {
        let c = s.get_char(i);
        proof {
            assert(s@.take(i + 1) =~= s@.take(i as int) + seq![s@[i as int]]);
            lemma_shield_escape_concat(s@.take(i as int), seq![s@[i as int]]);
            let ghost one = seq![s@[i as int]];
            assert(one.len() == 1 && one[0] == s@[i as int]);
            assert(one.drop_first() =~= Seq::<char>::empty());
            assert(spec_shield_escape(Seq::<char>::empty()) == Seq::<char>::empty());
            assert(spec_shield_escape(one) == spec_shield_escape_char(one[0]) + spec_shield_escape(
                one.drop_first(),
            ));
            assert(spec_shield_escape(one) =~= spec_shield_escape_char(s@[i as int]));
        }
        if c == '-' {
            push_char(&mut out, '-');
            push_char(&mut out, '-');
        } else if c == '_' {
            push_char(&mut out, '_');
            push_char(&mut out, '_');
        } else {
            push_char(&mut out, c);
        }
        assert(out@ =~= spec_shield_escape(s@.take(i + 1)));
        i = i + 1;
    }
    assert(s@.take(n as int) =~= s@);
    out
}

/// The error-marker rewriting of one character of a Text report: a line
/// break restarts the `ERR: ` marker, everything else stands.
pub open spec fn spec_err_nl_char(c: char) -> Seq<char> {
    if c == '\n' {
        "\nERR: "@
    } else {
        seq![c]
    }
}

/// The error-marker rewriting of a message for a Text report.
pub open spec fn spec_err_nl(s: Seq<char>) -> Seq<char>
    decreases s.len(),
{
    if s.len() == 0 {
        Seq::empty()
    } else {
        spec_err_nl_char(s[0]) + spec_err_nl(s.drop_first())
    }
}

proof fn lemma_err_nl_concat(a: Seq<char>, b: Seq<char>)
    ensures
        spec_err_nl(a + b) == spec_err_nl(a) + spec_err_nl(b),
    decreases a.len(),
{
    if a.len() == 0 {
        assert(a + b =~= b);
        assert(spec_err_nl(a) + spec_err_nl(b) =~= spec_err_nl(b));
    } else {
        assert((a + b).drop_first() =~= a.drop_first() + b);
        assert((a + b)[0] == a[0]);
        lemma_err_nl_concat(a.drop_first(), b);
        assert(spec_err_nl_char(a[0]) + (spec_err_nl(a.drop_first()) + spec_err_nl(b))
            =~= spec_err_nl(a) + spec_err_nl(b));
    }
}

/// The cell content of an error under a format: a Text report prefixes every
/// line with `ERR: `, a Markdown report wraps the message in bold/italic
/// markers, and a CSV report prefixes it once.
pub open spec fn spec_format_error(format: OutputFormat, e: Seq<char>) -> Seq<char> {
    match format {
        OutputFormat::Text => "ERR: "@ + spec_err_nl(e),
        OutputFormat::Markdown => "<b>ERR:</b> <i>"@ + e + "</i>"@,
        OutputFormat::CSV => "ERR: "@ + e,
    }
}

/// Renders an error message as the cell content for the given format.
pub fn format_error(format: OutputFormat, err: &String) -> (r: String)
    ensures
        r@ == spec_format_error(format, err@),
{
    match format {
        OutputFormat::Text => {
            let s = err.as_str();
            let n = s.unicode_len();
            let mut out = String::from_str("ERR: ");
            let mut i: usize = 0;
            while i < n
                invariant
                    i <= n,
                    n == s@.len(),
                    s@ == err@,
                    out@ == "ERR: "@ + spec_err_nl(s@.take(i as int)),
                decreases n - i,
            {
                let c = s.get_char(i);
                proof {
                    assert(s@.take(i + 1) =~= s@.take(i as int) + seq![s@[i as int]]);
                    lemma_err_nl_concat(s@.take(i as int), seq![s@[i as int]]);
                    let ghost one = seq![s@[i as int]];
                    assert(one.len() == 1 && one[0] == s@[i as int]);
                    assert(one.drop_first() =~= Seq::<char>::empty());
                    assert(spec_err_nl(Seq::<char>::empty()) == Seq::<char>::empty());
                    assert(spec_err_nl(one) == spec_err_nl_char(one[0]) + spec_err_nl(
                        one.drop_first(),
                    ));
                    assert(spec_err_nl(one) =~= spec_err_nl_char(s@[i as int]));
                }
                if c == '\n' {
                    out.append("\nERR: ");
                } else {
                    push_char(&mut out, c);
                }
                assert(out@ =~= "ERR: "@ + spec_err_nl(s@.take(i + 1)));
                i = i + 1;
            }
            assert(s@.take(n as int) =~= s@);
            out
        },
        OutputFormat::Markdown => {
            let mut out = String::from_str("<b>ERR:</b> <i>");
            out.append(err.as_str());
            out.append("</i>");
            assert(out@ =~= spec_format_error(format, err@));
            out
        },
        OutputFormat::CSV => {
            let mut out = String::from_str("ERR: ");
            out.append(err.as_str());
            assert(out@ =~= spec_format_error(format, err@));
            out
        },
    }
}

/// The provenance page for a package on the provenance service.
pub open spec fn spec_clearly_link(name: Seq<char>, v: Version) -> Seq<char> {
    "https://clearlydefined.io/definitions/crate/cratesio/-/"@ + name + "/"@ + v.spec_text()
}

/// Builds the provenance page link of a dependency.
pub fn clearly_link(dep: &Dependency) -> (r: String)
    ensures
        r@ == spec_clearly_link(dep.name@, dep.version),
{
    let mut out = String::from_str("https://clearlydefined.io/definitions/crate/cratesio/-/");
    out.append(dep.name.as_str());
    out.append("/");
    let v = dep.version.to_text();
    out.append(v.as_str());
    assert(out@ =~= spec_clearly_link(dep.name@, dep.version));
    out
}

/// The provenance service's definition endpoint for a package.
pub open spec fn spec_api_url(name: Seq<char>, v: Version) -> Seq<char> {
    "https://api.clearlydefined.io/definitions/crate/cratesio/-/"@ + name + "/"@ + v.spec_text()
}

/// Builds the definition-endpoint address for a package.
pub fn api_url(name: &String, version: &Version) -> (r: String)
    ensures
        r@ == spec_api_url(name@, *version),
{
    let mut out = String::from_str("https://api.clearlydefined.io/definitions/crate/cratesio/-/");
    out.append(name.as_str());
    out.append("/");
    let v = version.to_text();
    out.append(v.as_str());
    assert(out@ =~= spec_api_url(name@, *version));
    out
}

/// The shields.io badge for a score: escaped name and version, the score
/// text, and a color keyed to the score outcome.
pub open spec fn spec_shield_score(dep: Dependency, score: Seq<char>) -> Seq<char> {
    "https://img.shields.io/badge/"@ + spec_shield_escape(dep.name@) + "_"@ + spec_shield_escape(
        dep.version.spec_text(),
    ) + "-"@ + score + "-"@ + spec_outcome_color(dep.passed_score)
}

/// Builds the badge address for a dependency's score.
pub fn shield_score(dep: &Dependency, score: &String) -> (r: String)
    ensures
        r@ == spec_shield_score(*dep, score@),
{
    let name = shield_escape(&dep.name);
    let vtext = dep.version.to_text();
    let version = shield_escape(&vtext);
    let mut out = String::from_str("https://img.shields.io/badge/");
    out.append(name.as_str());
    out.append("_");
    out.append(version.as_str());
    out.append("-");
    out.append(score.as_str());
    out.append("-");
    out.append(outcome_color(dep.passed_score));
    assert(out@ =~= spec_shield_score(*dep, score@));
    out
}

/// A Markdown image wrapped in a hyperlink.
pub open spec fn spec_markdown_image_link(img: Seq<char>, link: Seq<char>, alt: Seq<char>) -> Seq<
    char,
> {
    "[!["@ + alt + "]("@ + img + ")]("@ + link + ")"@
}

/// Builds a Markdown image wrapped in a hyperlink.
pub fn markdown_image_link(img: &String, link: &String, alt: &String) -> (r: String)
    ensures
        r@ == spec_markdown_image_link(img@, link@, alt@),
{
    let mut out = String::from_str("[![");
    out.append(alt.as_str());
    out.append("](");
    out.append(img.as_str());
    out.append(")](");
    out.append(link.as_str());
    out.append(")");
    assert(out@ =~= spec_markdown_image_link(img@, link@, alt@));
    out
}

/// The score text of a dependency: the chosen score in decimal when a
/// provenance record is present, and nothing otherwise.
pub open spec fn spec_score_str(dep: Dependency, score_type: ScoreType) -> Seq<char> {
    match dep.clearly_defined {
        Some(cd) => spec_dec(
            (match score_type {
                ScoreType::Effective => cd.effective_score,
                ScoreType::Licensed => cd.licensed_score,
            }) as nat,
        ),
        None => Seq::empty(),
    }
}

/// The declared-license cell: the expression exactly as declared when it
/// parses under the active mode, the formatted parse error when it does not,
/// and nothing when no license was declared.
pub open spec fn spec_license_cell(dep: Dependency, lax: bool, format: OutputFormat) -> Seq<char> {
    match dep.clearly_defined {
        Some(cd) => match cd.declared_license {
            Some(l) => if spdx_parse_ok(l.raw@, lax) {
                l.raw@
            } else {
                spec_format_error(format, spdx_parse_err(l.raw@, lax))
            },
            None => Seq::empty(),
        },
        None => Seq::empty(),
    }
}

/// The score cell under the format and flag matrix: a Markdown link or badge
/// when linking is on, an outcome glyph when the score check is shown without
/// a badge, the link in parentheses for a linked Text report, and the bare
/// score everywhere else.
pub open spec fn spec_score_cell(
    format: OutputFormat,
    link: bool,
    show_score_check: bool,
    dep: Dependency,
    score: Seq<char>,
) -> Seq<char> {
    match format {
        OutputFormat::Markdown => {
            if link && !show_score_check {
                "["@ + score + "]("@ + spec_clearly_link(dep.name@, dep.version) + ")"@
            } else if link && show_score_check {
                spec_markdown_image_link(
                    spec_shield_score(dep, score),
                    spec_clearly_link(dep.name@, dep.version),
                    score,
                )
            } else if show_score_check {
                spec_emoji(dep.passed_score) + " "@ + score
            } else {
                score
            }
        },
        OutputFormat::Text => {
            if show_score_check && !link {
                spec_emoji(dep.passed_score) + " "@ + score
            } else if show_score_check && link {
                spec_emoji(dep.passed_score) + " "@ + score + " ("@ + spec_clearly_link(
                    dep.name@,
                    dep.version,
                ) + ")"@
            } else {
                score
            }
        },
        OutputFormat::CSV => score,
    }
}

/// Builds the score cell of one dependency.
pub fn score_cell(
    format: OutputFormat,
    link: bool,
    show_score_check: bool,
    dep: &Dependency,
    score: &String,
) -> (r: String)
    ensures
        r@ == spec_score_cell(format, link, show_score_check, *dep, score@),
{
    match format {
        OutputFormat::Markdown => {
            if link && !show_score_check {
                let mut out = String::from_str("[");
                out.append(score.as_str());
                out.append("](");
                let l = clearly_link(dep);
                out.append(l.as_str());
                out.append(")");
                assert(out@ =~= spec_score_cell(format, link, show_score_check, *dep, score@));
                out
            } else if link && show_score_check {
                let img = shield_score(dep, score);
                let l = clearly_link(dep);
                markdown_image_link(&img, &l, score)
            } else if show_score_check {
                let mut out = String::from_str(emoji(dep.passed_score));
                out.append(" ");
                out.append(score.as_str());
                assert(out@ =~= spec_score_cell(format, link, show_score_check, *dep, score@));
                out
            } else {
                score.clone()
            }
        },
        OutputFormat::Text => {
            if show_score_check && !link {
                let mut out = String::from_str(emoji(dep.passed_score));
                out.append(" ");
                out.append(score.as_str());
                assert(out@ =~= spec_score_cell(format, link, show_score_check, *dep, score@));
                out
            } else if show_score_check && link {
                let mut out = String::from_str(emoji(dep.passed_score));
                out.append(" ");
                out.append(score.as_str());
                out.append(" (");
                let l = clearly_link(dep);
                out.append(l.as_str());
                out.append(")");
                assert(out@ =~= spec_score_cell(format, link, show_score_check, *dep, score@));
                out
            } else {
                score.clone()
            }
        },
        OutputFormat::CSV => score.clone(),
    }
}

/// The rendering options the caller controls besides the format.
#[derive(Clone, Copy, Debug)]
pub struct RenderOptions {
    /// Which provenance score the report shows.
    pub score_type: ScoreType,
    /// Parse SPDX expressions in lax mode.
    pub lax: bool,
    /// Decorate the score with a link to the provenance page.
    pub link: bool,
}

/// The header row of the report: the three fixed columns, the license-check
/// column when it is shown, the score, and for CSV the score-check column
/// when it is shown.
pub open spec fn spec_titles(
    format: OutputFormat,
    show_score_check: bool,
    show_license_check: bool,
) -> Seq<Seq<char>> {
    let base = seq!["Name"@, "Version"@, "Declared license"@];
    let with_license = if show_license_check {
        base.push("License"@)
    } else {
        base
    };
    let with_score = with_license.push("Score"@);
    if format is CSV && show_score_check {
        with_score.push("Score check"@)
    } else {
        with_score
    }
}

/// The license-check cell: the CSV mark for a CSV report, the glyph
/// otherwise.
pub open spec fn spec_license_check_cell(format: OutputFormat, o: Outcome) -> Seq<char> {
    match format {
        OutputFormat::CSV => spec_csv_mark(o),
        OutputFormat::Text => spec_emoji(o),
        OutputFormat::Markdown => spec_emoji(o),
    }
}

/// One body row of the report for one dependency, under the same column set
/// as the header.
pub open spec fn spec_row(
    format: OutputFormat,
    opts: RenderOptions,
    show_score_check: bool,
    show_license_check: bool,
    dep: Dependency,
) -> Seq<Seq<char>> {
    let base = seq![
        dep.name@,
        dep.version.spec_text(),
        spec_license_cell(dep, opts.lax, format),
    ];
    let with_license = if show_license_check {
        base.push(spec_license_check_cell(format, dep.passed_license))
    } else {
        base
    };
    let with_score = with_license.push(
        spec_score_cell(format, opts.link, show_score_check, dep, spec_score_str(
            dep,
            opts.score_type,
        )),
    );
    if format is CSV && show_score_check {
        with_score.push(spec_csv_mark(dep.passed_score))
    } else {
        with_score
    }
}

/// Every body row is as wide as the header row, for every format and flag
/// combination.
pub proof fn lemma_row_width(
    format: OutputFormat,
    opts: RenderOptions,
    show_score_check: bool,
    show_license_check: bool,
    dep: Dependency,
)
    ensures
        spec_row(format, opts, show_score_check, show_license_check, dep).len() == spec_titles(
            format,
            show_score_check,
            show_license_check,
        ).len(),
{
}

/// The computed report: the header row and one row per dependency, in the
/// collection's order.
pub struct Report {
    pub titles: Vec<String>,
    pub rows: Vec<Vec<String>>,
}

/// Builds the license cell of one dependency.
fn license_cell(dep: &Dependency, lax: bool, format: OutputFormat) -> (r: String)
    ensures
        r@ == spec_license_cell(*dep, lax, format),
{
    match &dep.clearly_defined {
        Some(cd) => match &cd.declared_license {
            Some(l) => match l.expression(lax) {
                Ok(t) => t,
                Err(e) => match e {
                    CheckError::Parse(m) => format_error(format, &m),
                    _ => {
                        assert(false);
                        String::new()
                    },
                },
            },
            None => String::new(),
        },
        None => String::new(),
    }
}

/// Computes the full report for an evaluated collection: the header and the
/// cells of every row, exactly as the format and the flags dictate.
pub fn show(
    format: OutputFormat,
    opts: &RenderOptions,
    show_score_check: bool,
    show_license_check: bool,
    dependencies: &Vec<Dependency>,
) -> (r: Report)
    ensures
        str_views(r.titles@) == spec_titles(format, show_score_check, show_license_check),
        r.rows@.len() == dependencies@.len(),
        forall|i: int|
            0 <= i < dependencies@.len() ==> str_views(#[trigger] r.rows@[i]@) == spec_row(
                format,
                *opts,
                show_score_check,
                show_license_check,
                dependencies@[i],
            ),
{
    let mut titles: Vec<String> = Vec::new();
    titles.push(String::from_str("Name"));
    titles.push(String::from_str("Version"));
    titles.push(String::from_str("Declared license"));
    if show_license_check {
        titles.push(String::from_str("License"));
    }
    titles.push(String::from_str("Score"));
    if matches!(format, OutputFormat::CSV) && show_score_check {
        titles.push(String::from_str("Score check"));
    }
    assert(str_views(titles@) =~= spec_titles(format, show_score_check, show_license_check));

    let mut rows: Vec<Vec<String>> = Vec::new();
    let mut i: usize = 0;
    while i < dependencies.len()
        invariant
            i <= dependencies.len(),
            rows@.len() == i,
            forall|j: int|
                0 <= j < i ==> str_views(#[trigger] rows@[j]@) == spec_row(
                    format,
                    *opts,
                    show_score_check,
                    show_license_check,
                    dependencies@[j],
                ),
        decreases dependencies.len() - i,
    {
        let dep = &dependencies[i];
        let score_str = match &dep.clearly_defined {
            Some(cd) => dec_string(cd.score(opts.score_type)),
            None => String::new(),
        };
        assert(score_str@ == spec_score_str(dependencies@[i as int], opts.score_type));
        let mut row: Vec<String> = Vec::new();
        row.push(dep.name.clone());
        row.push(dep.version.to_text());
        row.push(license_cell(dep, opts.lax, format));
        if show_license_check {
            match format {
                OutputFormat::CSV => row.push(String::from_str(csv(dep.passed_license))),
                _ => row.push(String::from_str(emoji(dep.passed_license))),
            }
        }
        row.push(score_cell(format, opts.link, show_score_check, dep, &score_str));
        if matches!(format, OutputFormat::CSV) && show_score_check {
            row.push(String::from_str(csv(dep.passed_score)));
        }
        assert(str_views(row@) =~= spec_row(
            format,
            *opts,
            show_score_check,
            show_license_check,
            dependencies@[i as int],
        ));
        rows.push(row);
        i = i + 1;
    }
    Report { titles, rows }
}

/// The trailing summary line of a Text report.
pub open spec fn spec_summary_line(n: nat) -> Seq<char> {
    spec_dec(n) + " dependencies processed"@
}

/// Builds the trailing summary line of a Text report.
pub fn summary_line(count: usize) -> (r: String)
    ensures
        r@ == spec_summary_line(count as nat),
{
    let mut out = dec_string(count as u64);
    out.append(" dependencies processed");
    assert(out@ =~= spec_summary_line(count as nat));
    out
}

} // verus!
