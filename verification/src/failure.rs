//! The error value that a report is made of: a message and, optionally, the
//! error that caused it.

use vstd::prelude::*;
use vstd::string::StringExecFns;

verus! {

/// An error with the text it displays and the error it reports as its cause.
///
/// Following `source` from one failure to the next walks the causal chain,
/// which ends at the first failure without a source.
#[derive(Debug)]
pub struct Failure {
    /// What the error displays.
    pub message: String,
    /// The error that caused this one, if any.
    pub source: Option<Box<Failure>>,
}

impl Failure {
    /// The text that the error displays.
    pub open spec fn text(&self) -> Seq<char> {
        self.message@
    }

    /// The displayed texts of this error and of all its causes, this error's first.
    pub open spec fn chain(&self) -> Seq<Seq<char>>
        decreases self,
    {
        match self.source {
            None => seq![self.message@],
            Some(cause) => seq![self.message@] + cause.chain(),
        }
    }

    /// The displayed texts of the causes alone, the immediate cause first.
    pub open spec fn causes(&self) -> Seq<Seq<char>> {
        self.chain().drop_first()
    }

    /// An error without a cause.
    pub fn new(message: &str) -> (failure: Failure)
        ensures
            failure.message@ == message@,
            failure.source is None,
    {
        Failure { message: String::from_str(message), source: None }
    }

    /// An error that `cause` has caused.
    pub fn caused_by(message: &str, cause: Failure) -> (failure: Failure)
        ensures
            failure.message@ == message@,
            failure.source == Some(Box::new(cause)),
    {
        Failure { message: String::from_str(message), source: Some(Box::new(cause)) }
    }

    /// The text that the error displays.
    pub fn display(&self) -> (text: &str)
        ensures
            text@ == self.text(),
    {
        self.message.as_str()
    }

    /// The error that caused this one, if any.
    pub fn source(&self) -> (cause: Option<&Failure>)
        ensures
            match cause {
                None => self.source is None,
                Some(c) => self.source == Some(Box::new(*c)),
            },
    {
        match &self.source {
            None => None,
            Some(cause) => Some(&**cause),
        }
    }

    /// The chain always holds the error itself, and the causes follow it.
    pub proof fn lemma_chain_shape(&self)
        ensures
            self.chain().len() >= 1,
            self.chain()[0] == self.text(),
            self.causes().len() == self.chain().len() - 1,
            self.source is None ==> self.causes() =~= Seq::<Seq<char>>::empty(),
            self.source matches Some(cause) ==> self.causes() == cause.chain(),
        decreases self,
    {
        match self.source {
            None => {},
            Some(cause) => {
                cause.lemma_chain_shape();
                assert((seq![self.message@] + cause.chain()).drop_first() =~= cause.chain());
            },
        }
    }
}

} // verus!
