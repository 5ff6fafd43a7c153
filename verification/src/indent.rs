//! Indentation of a cause's text: every line break inside it is followed by
//! the margin, so that text of several lines stays under its first line.

use vstd::prelude::*;
use vstd::string::StringExecFns;

verus! {

/// The six spaces that stand before every line of a cause.
pub open spec fn margin() -> Seq<char> {
    "      "@
}

/// `text` with the margin put behind each of its line breaks.
pub open spec fn indented(text: Seq<char>) -> Seq<char>
    decreases text.len(),
{
    if text.len() == 0 {
        Seq::<char>::empty()
    } else if text.last() == '\n' {
        indented(text.drop_last()).push('\n') + margin()
    } else {
        indented(text.drop_last()).push(text.last())
    }
}

/// A writer that passes what it is given on to `inner`, indenting each line
/// but the first.
pub struct Indented<'a> {
    /// The string that is written to.
    pub inner: &'a mut String,
}

impl<'a> Indented<'a> {
    /// Appends `s` to the inner string, with the margin behind each line break.
    /// The writer goes on writing to the string that it was made for.
    pub fn write_str(&mut self, s: &str)
        ensures
            final(self).inner@ == old(self).inner@ + indented(s@),
            *final(final(self).inner) == *final(old(self).inner),
    {
        let ghost before = self.inner@;
        for c in it: s.chars()
            invariant
                it.seq() == s@,
                *final(self.inner) == *final(old(self).inner),
                self.inner@ == before + indented(s@.take(it.index())),
        {
            proof {
                let upto = s@.take(it.index() + 1);
                assert(upto.drop_last() =~= s@.take(it.index() as int));
                assert(upto.last() == c);
            }
            self.inner.push(c);
            if c == '\n' {
                self.inner.append("      ");
            }
            assert(self.inner@ =~= before + indented(s@.take(it.index() + 1)));
        }
        assert(s@.take(s@.len() as int) =~= s@);
    }
}

} // verus!
