//! Decimal numerals, as they number the causes of a report, and a counter
//! that holds its count as a numeral and so has no largest value.

use vstd::prelude::*;
use vstd::string::StringExecFns;
use crate::indent::margin;

verus! {

/// The character of the decimal digit `d`: `'0'` for 0, up to `'9'` for 9.
pub open spec fn digit(d: nat) -> char
    recommends
        d < 10,
{
    (48 + d) as u8 as char
}

/// The decimal numeral of `n`, without leading zeros.
pub open spec fn decimal(n: nat) -> Seq<char>
    decreases n,
{
    if n < 10 {
        seq![digit(n)]
    } else {
        decimal(n / 10).push(digit(n % 10))
    }
}

/// Whether `c` is one of the ten decimal digits.
pub open spec fn is_digit(c: char) -> bool {
    '0' <= c <= '9'
}

/// Whether `text` holds decimal digits only.
pub open spec fn all_digits(text: Seq<char>) -> bool {
    forall|i: int| 0 <= i < text.len() ==> is_digit(#[trigger] text[i])
}

/// The numeral that follows `numeral` in counting: the last digit goes up by
/// one, and a nine turns to zero and carries to the digits before it.
pub open spec fn successor(numeral: Seq<char>) -> Seq<char>
    decreases numeral.len(),
{
    if numeral.len() == 0 {
        seq!['1']
    } else if numeral.last() == '9' {
        successor(numeral.drop_last()).push('0')
    } else {
        numeral.drop_last().push((numeral.last() as u8 + 1) as u8 as char)
    }
}

/// `count` spaces.
pub open spec fn spaces(count: nat) -> Seq<char> {
    Seq::new(count, |i: int| ' ')
}

/// `text` behind as many spaces as bring it to `width` characters; a longer
/// text is left as it is.
pub open spec fn right_aligned(text: Seq<char>, width: nat) -> Seq<char> {
    if text.len() >= width {
        text
    } else {
        spaces((width - text.len()) as nat) + text
    }
}

/// What stands before a cause's text on its line: its number in a field of
/// four characters and a colon where the causes are numbered, else the margin.
pub open spec fn cause_prefix(index: nat, numbered: bool) -> Seq<char> {
    if numbered {
        right_aligned(decimal(index), 4) + ": "@
    } else {
        margin()
    }
}

/// A numeral is made of digits, and of one at least.
pub proof fn lemma_decimal_digits(n: nat)
    ensures
        all_digits(decimal(n)),
        decimal(n).len() >= 1,
    decreases n,
{
    if n >= 10 {
        lemma_decimal_digits(n / 10);
    }
}

/// Counting on by one takes the numeral of a number to that of the next.
pub proof fn lemma_successor_of_decimal(n: nat)
    ensures
        successor(decimal(n)) == decimal(n + 1),
    decreases n,
{
    let numeral = decimal(n);
    if n < 10 {
        assert(numeral.drop_last() =~= Seq::<char>::empty());
        if n == 9 {
            assert(successor(Seq::<char>::empty()) =~= seq!['1']);
            assert(decimal(1) =~= seq!['1']);
            assert(decimal(10) =~= seq!['1', '0']);
            assert(successor(numeral) =~= seq!['1', '0']);
        } else {
            assert(successor(numeral) =~= seq![digit(n + 1)]);
        }
    } else {
        assert(numeral.drop_last() =~= decimal(n / 10));
        assert(numeral.last() == digit(n % 10));
        if n % 10 == 9 {
            lemma_successor_of_decimal(n / 10);
            assert((n + 1) / 10 == n / 10 + 1);
            assert((n + 1) % 10 == 0);
        } else {
            assert((n + 1) / 10 == n / 10);
            assert((n + 1) % 10 == n % 10 + 1);
        }
    }
}

/// Replaces the numeral in `digits` by the one that follows it.
fn count_on(digits: &mut Vec<char>)
    requires
        all_digits(old(digits)@),
    ensures
        final(digits)@ == successor(old(digits)@),
    decreases old(digits)@.len(),
{
    match digits.pop() {
        None => {
            digits.push('1');
        },
        Some(last) => {
            if last == '9' {
                count_on(digits);
                digits.push('0');
            } else {
                digits.push((last as u8 + 1) as char);
            }
        },
    }
    assert(digits@ =~= successor(old(digits)@));
}

/// A count of things, kept as its decimal numeral: it can always be counted
/// on, whatever the machine's word holds.
pub struct Counter {
    digits: Vec<char>,
    count: Ghost<nat>,
}

impl Counter {
    /// The number that has been counted up to.
    pub closed spec fn count(&self) -> nat {
        self.count@
    }

    /// The counter holds the numeral of its count.
    pub closed spec fn wf(&self) -> bool {
        self.digits@ == decimal(self.count@)
    }

    /// A counter at zero.
    pub fn new() -> (counter: Counter)
        ensures
            counter.wf(),
            counter.count() == 0,
    {
        let mut digits: Vec<char> = Vec::new();
        digits.push('0');
        assert(digits@ =~= decimal(0));
        Counter { digits, count: Ghost(0) }
    }

    /// Counts on by one.
    pub fn increment(&mut self)
        requires
            old(self).wf(),
        ensures
            final(self).wf(),
            final(self).count() == old(self).count() + 1,
    {
        proof {
            lemma_decimal_digits(self.count@);
            lemma_successor_of_decimal(self.count@);
        }
        count_on(&mut self.digits);
        self.count = Ghost((self.count@ + 1) as nat);
    }

    /// Appends the numeral of the count to `sink`.
    pub fn write_to(&self, sink: &mut String)
        requires
            self.wf(),
        ensures
            final(sink)@ == old(sink)@ + decimal(self.count()),
    {
        let mut i: usize = 0;
        while i < self.digits.len()
            invariant
                i <= self.digits@.len(),
                sink@ == old(sink)@ + self.digits@.take(i as int),
            decreases self.digits@.len() - i,
        {
            sink.push(self.digits[i]);
            assert(self.digits@.take(i + 1) =~= self.digits@.take(i as int).push(
                self.digits@[i as int],
            ));
            i = i + 1;
        }
        assert(self.digits@.take(i as int) =~= self.digits@);
    }

    /// Appends to `sink` what stands before the text of the cause whose number
    /// is the count.
    pub fn write_cause_prefix(&self, sink: &mut String, numbered: bool)
        requires
            self.wf(),
        ensures
            final(sink)@ == old(sink)@ + cause_prefix(self.count(), numbered),
    {
        if numbered {
            proof {
                reveal_strlit("   ");
                reveal_strlit("  ");
                reveal_strlit(" ");
            }
            let width = self.digits.len();
            if width == 1 {
                sink.append("   ");
                assert("   "@ =~= spaces(3));
            } else if width == 2 {
                sink.append("  ");
                assert("  "@ =~= spaces(2));
            } else if width == 3 {
                sink.append(" ");
                assert(" "@ =~= spaces(1));
            }
            proof {
                lemma_decimal_digits(self.count@);
            }
            self.write_to(sink);
            sink.append(": ");
            assert(sink@ =~= old(sink)@ + cause_prefix(self.count(), numbered));
        } else {
            sink.append("      ");
        }
    }
}

} // verus!
