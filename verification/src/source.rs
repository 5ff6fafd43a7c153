//! The walk along a causal chain, one error at a time.

use vstd::prelude::*;
use crate::failure::Failure;

verus! {

/// A walk over an error and its causes, from the error it was started at to
/// the last one of the chain.
#[derive(Clone, Copy, Debug)]
pub struct Source<'a> {
    /// The error that the next step hands out.
    pub current: Option<&'a Failure>,
}

impl<'a> Source<'a> {
    /// The displayed texts of the errors that are still to come, in order.
    pub open spec fn remaining(&self) -> Seq<Seq<char>> {
        match self.current {
            None => Seq::<Seq<char>>::empty(),
            Some(error) => error.chain(),
        }
    }

    /// A walk that starts at `error` itself.
    pub fn new(error: &'a Failure) -> (walk: Self)
        ensures
            walk.current == Some(error),
            walk.remaining() == error.chain(),
    {
        Source { current: Some(error) }
    }

    /// Hands out the current error and moves on to its cause; at the end of
    /// the chain it hands out nothing and stays there.
    pub fn next(&mut self) -> (error: Option<&'a Failure>)
        ensures
            error == old(self).current,
            final(self).current == match old(self).current {
                None => None,
                Some(e) => match e.source {
                    None => None,
                    Some(cause) => Some(&*cause),
                },
            },
            error is None <==> old(self).remaining().len() == 0,
            error matches Some(e) ==> e.text() == old(self).remaining()[0],
            final(self).remaining() == if old(self).remaining().len() == 0 {
                Seq::<Seq<char>>::empty()
            } else {
                old(self).remaining().drop_first()
            },
    {
        let current = self.current;
        match current {
            None => {},
            Some(e) => {
                proof {
                    e.lemma_chain_shape();
                }
                self.current = e.source();
                assert(self.remaining() =~= e.causes());
            },
        }
        current
    }
}

} // verus!
