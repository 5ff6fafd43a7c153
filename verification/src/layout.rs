//! What a report looks like: the two layouts, as functions from the chain's
//! displayed texts to the text of the report.

use vstd::prelude::*;
use crate::indent::indented;
use crate::numeral::cause_prefix;

verus! {

/// What stands between two errors on a single line.
pub open spec fn separator() -> Seq<char> {
    ": "@
}

/// What stands between the error and the lines of its causes: the end of the
/// error's line, an empty line, and the heading.
pub open spec fn heading() -> Seq<char> {
    "\n\nCaused by:"@
}

/// The causes one after the other, each behind a separator.
pub open spec fn joined_causes(causes: Seq<Seq<char>>) -> Seq<char>
    decreases causes.len(),
{
    if causes.len() == 0 {
        Seq::<char>::empty()
    } else {
        joined_causes(causes.drop_last()) + separator() + causes.last()
    }
}

/// The single-line layout of a chain: the error, then each cause behind a
/// separator, the immediate cause first.
pub open spec fn single_line(chain: Seq<Seq<char>>) -> Seq<char>
    recommends
        chain.len() >= 1,
{
    chain[0] + joined_causes(chain.drop_first())
}

/// One line for each cause: a line break, the cause's prefix, and its text
/// with the lines after the first indented. A cause's number is its place
/// among the causes, counted from zero.
pub open spec fn cause_lines(causes: Seq<Seq<char>>, numbered: bool) -> Seq<char>
    decreases causes.len(),
{
    if causes.len() == 0 {
        Seq::<char>::empty()
    } else {
        cause_lines(causes.drop_last(), numbered).push('\n') + cause_prefix(
            (causes.len() - 1) as nat,
            numbered,
        ) + indented(causes.last())
    }
}

/// The multi-line layout of a chain: the error alone where nothing caused it;
/// else the error, the heading, and a line for each cause, numbered where
/// there are two causes or more.
pub open spec fn multi_line(chain: Seq<Seq<char>>) -> Seq<char>
    recommends
        chain.len() >= 1,
{
    if chain.len() <= 1 {
        chain[0]
    } else {
        chain[0] + heading() + cause_lines(chain.drop_first(), chain.len() > 2)
    }
}

/// Taking one cause more into a single line appends a separator and the
/// cause's text.
pub proof fn lemma_joined_causes_step(causes: Seq<Seq<char>>, count: int)
    requires
        0 <= count < causes.len(),
    ensures
        joined_causes(causes.take(count + 1)) == joined_causes(causes.take(count)) + separator()
            + causes[count],
{
    assert(causes.take(count + 1).drop_last() =~= causes.take(count));
}

/// Taking one cause more into the lines of the causes appends that cause's
/// line, under the number that is its place.
pub proof fn lemma_cause_lines_step(causes: Seq<Seq<char>>, numbered: bool, count: int)
    requires
        0 <= count < causes.len(),
    ensures
        cause_lines(causes.take(count + 1), numbered) == cause_lines(
            causes.take(count),
            numbered,
        ).push('\n') + cause_prefix(count as nat, numbered) + indented(causes[count]),
{
    assert(causes.take(count + 1).drop_last() =~= causes.take(count));
}

/// The layout of a chain in the given mode.
pub open spec fn rendered(chain: Seq<Seq<char>>, pretty: bool) -> Seq<char>
    recommends
        chain.len() >= 1,
{
    if pretty {
        multi_line(chain)
    } else {
        single_line(chain)
    }
}

} // verus!
