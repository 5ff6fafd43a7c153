//! What holds of every report, stated over the layouts and proved.

use vstd::prelude::*;
use vstd::std_specs::convert::FromSpec;
use crate::failure::Failure;
use crate::indent::{indented, margin};
use crate::layout::{cause_lines, heading, joined_causes, multi_line, single_line};
use crate::numeral::{cause_prefix, decimal};
use crate::report::Report;

verus! {

/// Text without a line break is left as it is by the indentation.
pub proof fn lemma_indented_without_line_break(text: Seq<char>)
    requires
        !text.contains('\n'),
    ensures
        indented(text) == text,
    decreases text.len(),
{
    if text.len() > 0 {
        let front = text.drop_last();
        assert forall|c: char| front.contains(c) implies text.contains(c) by {
            let i = choose|i: int| 0 <= i < front.len() && front[i] == c;
            assert(text[i] == c);
        }
        assert(text[text.len() - 1] == text.last());
        lemma_indented_without_line_break(front);
        assert(front.push(text.last()) =~= text);
    }
}

/// The indentation of two texts in a row is the two indentations in a row:
/// text that is written piece by piece is indented as if written at once.
pub proof fn lemma_indented_in_pieces(first: Seq<char>, second: Seq<char>)
    ensures
        indented(first + second) == indented(first) + indented(second),
    decreases second.len(),
{
    if second.len() == 0 {
        assert(first + second =~= first);
        assert(indented(first) + indented(second) =~= indented(first));
    } else {
        let whole = first + second;
        assert(whole.drop_last() =~= first + second.drop_last());
        assert(whole.last() == second.last());
        lemma_indented_in_pieces(first, second.drop_last());
        assert(indented(whole) =~= indented(first) + indented(second));
    }
}

/// A report of an error that nothing caused is the error's own text, in
/// either layout.
pub proof fn lemma_report_without_cause(error: Failure, pretty: bool)
    requires
        error.source is None,
    ensures
        Report::from_spec(error).display_text() == error.text(),
        Report::from_spec(error).spec_pretty(pretty).display_text() == error.text(),
{
    assert(error.chain() =~= seq![error.text()]);
    assert(error.chain().drop_first() =~= Seq::<Seq<char>>::empty());
    assert(error.text() + joined_causes(Seq::<Seq<char>>::empty()) =~= error.text());
}

/// A report of an error with exactly one cause: on a single line the two
/// texts with the separator between them; over several lines the error, the
/// heading, and the cause's text behind the margin, without a number. A cause
/// of one line stands there as it is.
pub proof fn lemma_report_with_one_cause(error: Failure, cause: Failure)
    requires
        error.source == Some(Box::new(cause)),
        cause.source is None,
    ensures
        Report::from_spec(error).display_text() == error.text() + ": "@ + cause.text(),
        Report::from_spec(error).spec_pretty(true).display_text() == error.text()
            + "\n\nCaused by:\n      "@ + indented(cause.text()),
        !cause.text().contains('\n') ==> Report::from_spec(error).spec_pretty(
            true,
        ).display_text() == error.text() + "\n\nCaused by:\n      "@ + cause.text(),
{
    let causes = seq![cause.text()];
    assert(cause.chain() =~= causes);
    assert(error.chain() =~= seq![error.text(), cause.text()]);
    assert(error.chain().drop_first() =~= causes);
    assert(causes.drop_last() =~= Seq::<Seq<char>>::empty());
    assert(joined_causes(Seq::<Seq<char>>::empty()) =~= Seq::<char>::empty());
    assert(cause_lines(Seq::<Seq<char>>::empty(), false) =~= Seq::<char>::empty());
    assert(joined_causes(causes) =~= ": "@ + cause.text());
    assert(single_line(error.chain()) =~= error.text() + ": "@ + cause.text());
    assert(cause_lines(causes, false) =~= seq!['\n'] + margin() + indented(cause.text()));
    reveal_strlit("\n\nCaused by:\n      ");
    reveal_strlit("\n\nCaused by:");
    reveal_strlit("      ");
    assert("\n\nCaused by:\n      "@ =~= heading() + seq!['\n'] + margin());
    assert(multi_line(error.chain()) =~= error.text() + "\n\nCaused by:\n      "@ + indented(
        cause.text(),
    ));
    if !cause.text().contains('\n') {
        lemma_indented_without_line_break(cause.text());
    }
}

/// A report of an error with exactly two causes, over several lines: the
/// error, the heading, and the causes on a line each, numbered from zero, the
/// immediate cause first. Causes of one line stand there as they are.
pub proof fn lemma_report_with_two_causes(error: Failure, first: Failure, second: Failure)
    requires
        error.source == Some(Box::new(first)),
        first.source == Some(Box::new(second)),
        second.source is None,
    ensures
        Report::from_spec(error).display_text() == error.text() + ": "@ + first.text() + ": "@
            + second.text(),
        Report::from_spec(error).spec_pretty(true).display_text() == error.text()
            + "\n\nCaused by:\n   0: "@ + indented(first.text()) + "\n   1: "@ + indented(
            second.text(),
        ),
        !first.text().contains('\n') && !second.text().contains('\n')
            ==> Report::from_spec(error).spec_pretty(true).display_text() == error.text()
            + "\n\nCaused by:\n   0: "@ + first.text() + "\n   1: "@ + second.text(),
{
    let one = seq![first.text()];
    let two = seq![first.text(), second.text()];
    assert(second.chain() =~= seq![second.text()]);
    assert(first.chain() =~= two);
    assert(error.chain() =~= seq![error.text(), first.text(), second.text()]);
    assert(error.chain().drop_first() =~= two);
    assert(two.drop_last() =~= one);
    assert(one.drop_last() =~= Seq::<Seq<char>>::empty());
    assert(joined_causes(Seq::<Seq<char>>::empty()) =~= Seq::<char>::empty());
    assert(cause_lines(Seq::<Seq<char>>::empty(), true) =~= Seq::<char>::empty());
    assert(joined_causes(one) =~= ": "@ + first.text());
    assert(joined_causes(two) =~= ": "@ + first.text() + ": "@ + second.text());
    assert(single_line(error.chain()) =~= error.text() + ": "@ + first.text() + ": "@
        + second.text());
    reveal_strlit("\n\nCaused by:\n   0: ");
    reveal_strlit("\n\nCaused by:");
    reveal_strlit("\n   1: ");
    reveal_strlit(": ");
    assert(decimal(0) =~= seq!['0']);
    assert(decimal(1) =~= seq!['1']);
    assert(cause_prefix(0, true) =~= seq![' ', ' ', ' ', '0', ':', ' ']);
    assert(cause_prefix(1, true) =~= seq![' ', ' ', ' ', '1', ':', ' ']);
    assert("\n\nCaused by:\n   0: "@ =~= heading() + seq!['\n'] + cause_prefix(0, true));
    assert("\n   1: "@ =~= seq!['\n'] + cause_prefix(1, true));
    assert(cause_lines(one, true) =~= seq!['\n'] + cause_prefix(0, true) + indented(
        first.text(),
    ));
    assert(cause_lines(two, true) =~= seq!['\n'] + cause_prefix(0, true) + indented(
        first.text(),
    ) + seq!['\n'] + cause_prefix(1, true) + indented(second.text()));
    assert(multi_line(error.chain()) =~= error.text() + "\n\nCaused by:\n   0: "@ + indented(
        first.text(),
    ) + "\n   1: "@ + indented(second.text()));
    if !first.text().contains('\n') && !second.text().contains('\n') {
        lemma_indented_without_line_break(first.text());
        lemma_indented_without_line_break(second.text());
    }
}

/// Asked for as a debugging aid or for display, a report has the same text.
pub proof fn lemma_debug_text_is_display_text(report: Report)
    ensures
        report.debug_text() == report.display_text(),
{
}

/// The text of a report depends on nothing but the texts of its chain and its
/// mode: reports that agree in both have the same text, and so has one report
/// each time it is rendered.
pub proof fn lemma_text_is_determined(one: Report, other: Report)
    requires
        one.error.chain() == other.error.chain(),
        one.pretty == other.pretty,
    ensures
        one.display_text() == other.display_text(),
        one.debug_text() == other.debug_text(),
{
}

/// Setting a report to several lines and back to one gives the single-line
/// text of the report it started from.
pub proof fn lemma_pretty_switched_off_again(report: Report)
    ensures
        report.spec_pretty(true).spec_pretty(false).display_text() == single_line(
            report.error.chain(),
        ),
        !report.pretty ==> report.spec_pretty(true).spec_pretty(false) == report,
        Report::from_spec(report.error).spec_pretty(true).spec_pretty(false).display_text()
            == Report::from_spec(report.error).display_text(),
{
}

} // verus!
