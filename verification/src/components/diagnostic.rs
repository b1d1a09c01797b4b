use std::cmp::Ordering;
use vstd::multiset::Multiset;
use vstd::prelude::*;

use crate::message::{Diagnostic, DiagnosticLevel, DiagnosticModel, SpanModel};
use crate::style::{decimal, push_decimal, Color, StyledLine};

verus! {

/// Where a level of diagnostic goes when diagnostics are listed: errors
/// first, then warnings, then all the rest.
pub open spec fn severity_rank(level: DiagnosticLevel) -> nat {
    match level {
        DiagnosticLevel::Error => 0,
        DiagnosticLevel::Warning => 1,
        _ => 2,
    }
}

/// How two levels compare when diagnostics are listed: equal when they are
/// the same level, else the lower severity rank first. Two different levels
/// of the same rank (say a note and a help) compare as greater both ways.
pub open spec fn level_order(a: DiagnosticLevel, b: DiagnosticLevel) -> Ordering {
    if a == b {
        Ordering::Equal
    } else if severity_rank(a) < severity_rank(b) {
        Ordering::Less
    } else {
        Ordering::Greater
    }
}

/// Compares two diagnostics by their level: errors before warnings before
/// the rest.
pub fn dia_sort(a: &Diagnostic, b: &Diagnostic) -> (res: Ordering)
    ensures
        res == level_order(a.level, b.level),
{
    let a = a.level;
    let b = b.level;
    if a == b {
        return Ordering::Equal;
    }
    match (a, b) {
        (DiagnosticLevel::Warning, DiagnosticLevel::Error) => Ordering::Greater,
        (DiagnosticLevel::Warning, _) | (DiagnosticLevel::Error, _) => Ordering::Less,
        _ => Ordering::Greater,
    }
}

/// The diagnostics of `s` whose level has rank `rank`, in their order in `s`.
pub open spec fn of_rank(s: Seq<DiagnosticModel>, rank: nat) -> Seq<DiagnosticModel>
    decreases s.len(),
{
    if s.len() == 0 {
        Seq::empty()
    } else if severity_rank(s.last().level) == rank {
        of_rank(s.drop_last(), rank).push(s.last())
    } else {
        of_rank(s.drop_last(), rank)
    }
}

/// `s` ordered by severity: its errors, then its warnings, then the rest,
/// each group in the order of `s`.
pub open spec fn by_severity(s: Seq<DiagnosticModel>) -> Seq<DiagnosticModel> {
    of_rank(s, 0) + of_rank(s, 1) + of_rank(s, 2)
}

/// Every diagnostic that `of_rank(s, rank)` keeps has rank `rank`.
pub proof fn lemma_of_rank_has_rank(s: Seq<DiagnosticModel>, rank: nat)
    ensures
        forall|i: int|
            0 <= i < of_rank(s, rank).len() ==> severity_rank(#[trigger] of_rank(s, rank)[i].level)
                == rank,
    decreases s.len(),
{
    if s.len() > 0 {
        lemma_of_rank_has_rank(s.drop_last(), rank);
    }
}

/// The three groups of `s` together hold what `s` holds.
pub proof fn lemma_ranks_partition(s: Seq<DiagnosticModel>)
    ensures
        of_rank(s, 0).to_multiset().add(of_rank(s, 1).to_multiset()).add(of_rank(s, 2).to_multiset())
            == s.to_multiset(),
    decreases s.len(),
{
    broadcast use vstd::seq_lib::group_to_multiset_ensures;
    broadcast use vstd::multiset::group_multiset_axioms;

    if s.len() == 0 {
        assert(of_rank(s, 0).to_multiset() =~= Multiset::empty());
        assert(of_rank(s, 1).to_multiset() =~= Multiset::empty());
        assert(of_rank(s, 2).to_multiset() =~= Multiset::empty());
        assert(s.to_multiset() =~= Multiset::empty());
    } else {
        let rest = s.drop_last();
        lemma_ranks_partition(rest);
        assert(s =~= rest.push(s.last()));
        let m0 = of_rank(rest, 0).to_multiset();
        let m1 = of_rank(rest, 1).to_multiset();
        let m2 = of_rank(rest, 2).to_multiset();
        assert(s.to_multiset() =~= rest.to_multiset().insert(s.last()));
        assert(of_rank(s, 0).to_multiset().add(of_rank(s, 1).to_multiset()).add(
            of_rank(s, 2).to_multiset(),
        ) =~= m0.add(m1).add(m2).insert(s.last()));
    }
}

/// Ordering by severity neither loses nor adds a diagnostic.
pub proof fn lemma_by_severity_permutes(s: Seq<DiagnosticModel>)
    ensures
        by_severity(s).to_multiset() == s.to_multiset(),
{
    broadcast use vstd::seq_lib::lemma_multiset_commutative;

    lemma_ranks_partition(s);
    assert(by_severity(s).to_multiset() =~= of_rank(s, 0).to_multiset().add(
        of_rank(s, 1).to_multiset(),
    ).add(of_rank(s, 2).to_multiset()));
}

/// After ordering by severity no diagnostic has a lower rank than one
/// before it: errors come first, then warnings, then the rest.
pub proof fn lemma_by_severity_sorted(s: Seq<DiagnosticModel>)
    ensures
        forall|i: int, j: int|
            0 <= i < j < by_severity(s).len() ==> severity_rank(#[trigger] by_severity(s)[i].level)
                <= severity_rank(#[trigger] by_severity(s)[j].level),
{
    lemma_of_rank_has_rank(s, 0);
    lemma_of_rank_has_rank(s, 1);
    lemma_of_rank_has_rank(s, 2);
    let e = of_rank(s, 0);
    let w = of_rank(s, 1);
    let o = of_rank(s, 2);
    let out = by_severity(s);
    assert forall|i: int| 0 <= i < out.len() implies severity_rank(#[trigger] out[i].level) == (
    if i < e.len() {
        0nat
    } else if i < e.len() + w.len() {
        1nat
    } else {
        2nat
    }) by {
        if i < e.len() {
            assert(out[i] == e[i]);
        } else if i < e.len() + w.len() {
            assert(out[i] == w[i - e.len()]);
        } else {
            assert(out[i] == o[i - e.len() - w.len()]);
        }
    }
}

/// After ordering by severity, `dia_sort` puts no diagnostic before one
/// that comes earlier in the list.
pub proof fn lemma_by_severity_agrees_with_dia_sort(s: Seq<DiagnosticModel>)
    ensures
        forall|i: int, j: int|
            0 <= i < j < by_severity(s).len() ==> level_order(
                #[trigger] by_severity(s)[j].level,
                #[trigger] by_severity(s)[i].level,
            ) != Ordering::Less,
{
    lemma_by_severity_sorted(s);
}

/// `dia_sort` calls two diagnostics equal when they have the same level;
/// otherwise an error comes before anything else, a warning before anything
/// but an error, and any other level (internal error, failure note, note,
/// help) comes before nothing.
pub proof fn lemma_dia_sort_by_level(a: DiagnosticLevel, b: DiagnosticLevel)
    ensures
        level_order(a, b) == (if a == b {
            Ordering::Equal
        } else if a == DiagnosticLevel::Error || (a == DiagnosticLevel::Warning && b
            != DiagnosticLevel::Error) {
            Ordering::Less
        } else {
            Ordering::Greater
        }),
{
}

proof fn lemma_of_rank_is_filter(
    s: Seq<DiagnosticModel>,
    rank: nat,
    pred: spec_fn(DiagnosticModel) -> bool,
)
    requires
        forall|d: DiagnosticModel| #[trigger] pred(d) == (severity_rank(d.level) == rank),
    ensures
        of_rank(s, rank) == s.filter(pred),
    decreases s.len(),
{
    reveal(Seq::filter);
    if s.len() > 0 {
        lemma_of_rank_is_filter(s.drop_last(), rank, pred);
        assert(pred(s.last()) == (severity_rank(s.last().level) == rank));
    }
}

/// Ordering by severity lists the errors of `s`, then its warnings, then
/// all its other diagnostics, each group in the order of `s`.
pub proof fn lemma_by_severity_groups(s: Seq<DiagnosticModel>)
    ensures
        by_severity(s) == s.filter(|d: DiagnosticModel| d.level == DiagnosticLevel::Error) + s.filter(
            |d: DiagnosticModel| d.level == DiagnosticLevel::Warning,
        ) + s.filter(
            |d: DiagnosticModel|
                d.level != DiagnosticLevel::Error && d.level != DiagnosticLevel::Warning,
        ),
{
    let p0 = |d: DiagnosticModel| d.level == DiagnosticLevel::Error;
    let p1 = |d: DiagnosticModel| d.level == DiagnosticLevel::Warning;
    let p2 = |d: DiagnosticModel|
        d.level != DiagnosticLevel::Error && d.level != DiagnosticLevel::Warning;
    assert forall|d: DiagnosticModel| #[trigger] p0(d) == (severity_rank(d.level) == 0) by {}
    assert forall|d: DiagnosticModel| #[trigger] p1(d) == (severity_rank(d.level) == 1) by {}
    assert forall|d: DiagnosticModel| #[trigger] p2(d) == (severity_rank(d.level) == 2) by {}
    lemma_of_rank_is_filter(s, 0, p0);
    lemma_of_rank_is_filter(s, 1, p1);
    lemma_of_rank_is_filter(s, 2, p2);
}

/// After ordering by severity no error comes after a diagnostic that is
/// not an error, and no warning comes after a diagnostic that is neither an
/// error nor a warning.
pub proof fn lemma_by_severity_level_order(s: Seq<DiagnosticModel>)
    ensures
        forall|i: int, j: int|
            0 <= i < j < by_severity(s).len() ==> {
                &&& #[trigger] by_severity(s)[j].level == DiagnosticLevel::Error
                    ==> by_severity(s)[i].level == DiagnosticLevel::Error
                &&& by_severity(s)[j].level == DiagnosticLevel::Warning ==> (#[trigger] by_severity(
                    s,
                )[i].level == DiagnosticLevel::Error || by_severity(s)[i].level
                    == DiagnosticLevel::Warning)
            },
{
    lemma_by_severity_sorted(s);
}

fn rank_of(level: DiagnosticLevel) -> (r: u8)
    ensures
        r == severity_rank(level),
{
    match level {
        DiagnosticLevel::Error => 0,
        DiagnosticLevel::Warning => 1,
        _ => 2,
    }
}

/// Orders diagnostics by severity; diagnostics of one rank keep their order.
pub fn sort_by_severity(values: Vec<Diagnostic>) -> (res: Vec<Diagnostic>)
    ensures
        res.deep_view() == by_severity(values.deep_view()),
{
    let ghost orig = values.deep_view();
    let mut rest_in = values;
    let mut errors: Vec<Diagnostic> = Vec::new();
    let mut warnings: Vec<Diagnostic> = Vec::new();
    let mut others: Vec<Diagnostic> = Vec::new();
    let ghost mut i: int = 0;
    while rest_in.len() > 0
        invariant
            0 <= i <= orig.len(),
            rest_in.deep_view() == orig.skip(i),
            errors.deep_view() == of_rank(orig.take(i), 0),
            warnings.deep_view() == of_rank(orig.take(i), 1),
            others.deep_view() == of_rank(orig.take(i), 2),
        decreases rest_in.len(),
    {
        let ghost before = rest_in.deep_view();
        let ghost before_v = rest_in@;
        assert(before.len() == rest_in@.len());
        assert(i < orig.len());
        let d = rest_in.remove(0);
        proof {
            assert(d@ == before[0]);
            assert(before[0] == orig[i]);
            assert(orig.take(i + 1).drop_last() =~= orig.take(i));
            assert(orig.take(i + 1).last() == orig[i]);
            assert(rest_in.deep_view() =~= orig.skip(i + 1)) by {
                assert forall|k: int| 0 <= k < rest_in@.len() implies rest_in.deep_view()[k]
                    == orig.skip(i + 1)[k] by {
                    assert(rest_in@[k] == before_v[k + 1]);
                    assert(before[k + 1] == before_v[k + 1]@);
                }
            }
            i = i + 1;
        }
        let r = rank_of(d.level);
        let ghost dv = d@;
        if r == 0 {
            let ghost prev = errors.deep_view();
            errors.push(d);
            assert(errors.deep_view() =~= prev.push(dv));
        } else if r == 1 {
            let ghost prev = warnings.deep_view();
            warnings.push(d);
            assert(warnings.deep_view() =~= prev.push(dv));
        } else {
            let ghost prev = others.deep_view();
            others.push(d);
            assert(others.deep_view() =~= prev.push(dv));
        }
    }
    proof {
        assert(orig.take(i) =~= orig);
    }
    let ghost e = errors.deep_view();
    let ghost w = warnings.deep_view();
    let ghost o = others.deep_view();
    errors.append(&mut warnings);
    errors.append(&mut others);
    assert(errors.deep_view() =~= e + w + o);
    errors
}

/// The word that introduces a diagnostic of `level` in the list.
pub open spec fn level_label(level: DiagnosticLevel) -> Seq<char> {
    match level {
        DiagnosticLevel::Error => "error"@,
        DiagnosticLevel::Warning => "warning"@,
        _ => "info"@,
    }
}

/// The color of the heading of a diagnostic of `level`.
pub open spec fn level_color(level: DiagnosticLevel) -> Color {
    match level {
        DiagnosticLevel::Error => Color::Red,
        DiagnosticLevel::Warning => Color::Yellow,
        _ => Color::White,
    }
}

/// The heading line of a diagnostic: `<level>: <message>`, bold, in the
/// color of its level.
pub open spec fn heading_line(d: DiagnosticModel) -> (Seq<char>, Option<Color>, bool) {
    (level_label(d.level) + ": "@ + d.message, Some(level_color(d.level)), true)
}

/// The line that shows where a span points: `  --> <file>:<line>:<column>`
/// and a line break, in the terminal's own style.
pub open spec fn span_line(span: SpanModel) -> (Seq<char>, Option<Color>, bool) {
    (
        "  --> "@ + span.file_name + ":"@ + decimal(span.line_start as nat) + ":"@ + decimal(
            span.column_start as nat,
        ) + "\n"@,
        None,
        false,
    )
}

/// The lines of one diagnostic: its heading, then one line per span.
pub open spec fn diagnostic_lines(d: DiagnosticModel) -> Seq<(Seq<char>, Option<Color>, bool)> {
    seq![heading_line(d)] + d.spans.map_values(|span: SpanModel| span_line(span))
}

/// The lines of the diagnostics of `s`, one after the other, in the order of `s`.
pub open spec fn lines_of(s: Seq<DiagnosticModel>) -> Seq<(Seq<char>, Option<Color>, bool)>
    decreases s.len(),
{
    if s.len() == 0 {
        Seq::empty()
    } else {
        lines_of(s.drop_last()) + diagnostic_lines(s.last())
    }
}

/// What the diagnostics panel shows: `waiting...` while cargo has not
/// answered, else the diagnostics ordered by severity.
pub open spec fn panel_lines(values: Option<Seq<DiagnosticModel>>) -> Seq<(Seq<char>, Option<Color>, bool)> {
    match values {
        None => seq![("waiting..."@, None, false)],
        Some(v) => lines_of(by_severity(v)),
    }
}

/// A diagnostic shows as exactly `1 + spans` lines: first its heading,
/// `error: `, `warning: ` or `info: ` and its message, bold, in red, yellow
/// or white; then, for each of its spans in order, `  --> file:line:column`
/// and a line break, unstyled.
pub proof fn lemma_diagnostic_lines_shape(d: DiagnosticModel)
    ensures
        diagnostic_lines(d).len() == d.spans.len() + 1,
        diagnostic_lines(d)[0] == (
            (if d.level == DiagnosticLevel::Error {
                "error"@
            } else if d.level == DiagnosticLevel::Warning {
                "warning"@
            } else {
                "info"@
            }) + ": "@ + d.message,
            Some(
                if d.level == DiagnosticLevel::Error {
                    Color::Red
                } else if d.level == DiagnosticLevel::Warning {
                    Color::Yellow
                } else {
                    Color::White
                },
            ),
            true,
        ),
        forall|k: int|
            0 <= k < d.spans.len() ==> #[trigger] diagnostic_lines(d)[k + 1] == (
                "  --> "@ + d.spans[k].file_name + ":"@ + decimal(d.spans[k].line_start as nat)
                    + ":"@ + decimal(d.spans[k].column_start as nat) + "\n"@,
                None::<Color>,
                false,
            ),
{
}

/// The lines of two runs of diagnostics, one after the other, are the
/// lines of the first run followed by the lines of the second; one
/// diagnostic alone shows as its own lines.
pub proof fn lemma_lines_of_concat(a: Seq<DiagnosticModel>, b: Seq<DiagnosticModel>)
    ensures
        lines_of(a + b) == lines_of(a) + lines_of(b),
        forall|d: DiagnosticModel| #[trigger] lines_of(seq![d]) == diagnostic_lines(d),
    decreases b.len(),
{
    assert forall|d: DiagnosticModel| #[trigger] lines_of(seq![d]) == diagnostic_lines(d) by {
        let e = seq![d];
        assert(e.len() == 1);
        assert(e.last() == d);
        assert(e.drop_last() =~= Seq::<DiagnosticModel>::empty());
        assert(lines_of(Seq::<DiagnosticModel>::empty()) =~= Seq::empty());
        assert(lines_of(e.drop_last()) =~= Seq::empty());
        assert(Seq::<(Seq<char>, Option<Color>, bool)>::empty() + diagnostic_lines(d)
            =~= diagnostic_lines(d));
    }
    if b.len() == 0 {
        assert(a + b =~= a);
        assert(lines_of(a) + lines_of(b) =~= lines_of(a));
    } else {
        lemma_lines_of_concat(a, b.drop_last());
        assert((a + b).drop_last() =~= a + b.drop_last());
        assert((a + b).last() == b.last());
        assert(lines_of(a + b) =~= lines_of(a) + lines_of(b));
    }
}

/// Before cargo answers the panel is the one line `waiting...`; after it
/// answers, the panel is the lines of its diagnostics ordered by severity.
pub proof fn lemma_panel_lines(values: Option<Seq<DiagnosticModel>>)
    ensures
        values is None ==> panel_lines(values) == seq![("waiting..."@, None::<Color>, false)],
        values matches Some(v) ==> panel_lines(values) == lines_of(by_severity(v)),
{
}

/// The views of a sequence of lines.
pub open spec fn line_views(lines: Seq<StyledLine>) -> Seq<(Seq<char>, Option<Color>, bool)> {
    lines.map_values(|l: StyledLine| l@)
}

/// The text of the diagnostics panel, line by line.
pub struct DiagParagraph(pub Vec<StyledLine>);

impl DiagParagraph {
    /// The panel for the diagnostics of the last `cargo check`, or for no
    /// answer yet.
    pub fn from(values: Option<Vec<Diagnostic>>) -> (res: Self)
        ensures
            line_views(res.0@) == panel_lines(
                match values {
                    Some(v) => Some(v.deep_view()),
                    None => None,
                },
            ),
    {
        let values = match values {
            None => {
                proof {
                    reveal_strlit("waiting...");
                }
                let line = StyledLine { text: String::from_str("waiting..."), color: None, bold: false };
                let mut lines: Vec<StyledLine> = Vec::new();
                lines.push(line);
                proof {
                    assert(line_views(lines@) =~= seq![("waiting..."@, None, false)]);
                }
                return DiagParagraph(lines);
            },
            Some(values) => values,
        };
        let sorted = sort_by_severity(values);
        let mut lines: Vec<StyledLine> = Vec::new();
        let mut i: usize = 0;
        while i < sorted.len()
            invariant
                i <= sorted@.len(),
                line_views(lines@) == lines_of(sorted.deep_view().take(i as int)),
            decreases sorted@.len() - i,
        {
            let d = &sorted[i];
            push_diagnostic_lines(&mut lines, d);
            proof {
                assert(sorted.deep_view().take(i + 1).drop_last() =~= sorted.deep_view().take(i as int));
                assert(sorted.deep_view().take(i + 1).last() == sorted@[i as int]@);
            }
            i = i + 1;
        }
        proof {
            assert(sorted.deep_view().take(i as int) =~= sorted.deep_view());
        }
        DiagParagraph(lines)
    }
}

fn push_diagnostic_lines(lines: &mut Vec<StyledLine>, d: &Diagnostic)
    ensures
        line_views(final(lines)@) == line_views(old(lines)@) + diagnostic_lines(d@),
{
    proof {
        reveal_strlit("error");
        reveal_strlit("warning");
        reveal_strlit("info");
    }
    let (label, color) = match d.level {
        DiagnosticLevel::Error => ("error", Color::Red),
        DiagnosticLevel::Warning => ("warning", Color::Yellow),
        _ => ("info", Color::White),
    };
    let mut heading = String::from_str(label);
    heading.append(": ");
    heading.append(d.message.as_str());
    let ghost before = lines@;
    lines.push(StyledLine { text: heading, color: Some(color), bold: true });
    proof {
        assert(line_views(lines@) =~= line_views(before) + seq![heading_line(d@)]);
    }
    let mut j: usize = 0;
    while j < d.spans.len()
        invariant
            j <= d.spans@.len(),
            line_views(lines@) == line_views(before) + seq![heading_line(d@)] + d@.spans.take(
                j as int,
            ).map_values(|span: SpanModel| span_line(span)),
        decreases d.spans@.len() - j,
    {
        let span = &d.spans[j];
        let mut text = String::from_str("  --> ");
        text.append(span.file_name.as_str());
        text.append(":");
        push_decimal(&mut text, span.line_start);
        text.append(":");
        push_decimal(&mut text, span.column_start);
        text.append("\n");
        let ghost prev = lines@;
        lines.push(StyledLine { text, color: None, bold: false });
        proof {
            assert(line_views(lines@) =~= line_views(prev).push(span_line(span@)));
            assert(d@.spans.take(j + 1).map_values(|span: SpanModel| span_line(span))
                =~= d@.spans.take(j as int).map_values(|span: SpanModel| span_line(span)).push(span_line(span@)));
        }
        j = j + 1;
    }
    proof {
        assert(d@.spans.take(j as int) =~= d@.spans);
    }
}

} // verus!
