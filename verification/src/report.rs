//! The report: an error, and the choice between the two layouts.

use vstd::prelude::*;
use vstd::string::StringExecFns;
use vstd::std_specs::convert::FromSpecImpl;
use crate::failure::Failure;
use crate::indent::Indented;
use crate::layout::{
    cause_lines, heading, joined_causes, lemma_cause_lines_step, lemma_joined_causes_step,
    multi_line, rendered, single_line,
};
use crate::numeral::Counter;
use crate::source::Source;

verus! {

/// An error reporter that prints an error and its causes, on a single line or
/// with each cause on a line of its own.
pub struct Report {
    /// The error being reported.
    pub error: Failure,
    /// Whether the report is laid out over several lines.
    pub pretty: bool,
}

impl From<Failure> for Report {
    /// A single-line report of `error`.
    fn from(error: Failure) -> (report: Report) {
        Report { error, pretty: false }
    }
}

impl FromSpecImpl<Failure> for Report {
    open spec fn obeys_from_spec() -> bool {
        true
    }

    open spec fn from_spec(error: Failure) -> Report {
        Report { error, pretty: false }
    }
}

impl Report {
    /// The text of the report: the layout of its error's chain in the mode
    /// that the report is set to.
    pub open spec fn display_text(&self) -> Seq<char> {
        rendered(self.error.chain(), self.pretty)
    }

    /// The text of the report where it is asked for as a debugging aid: that
    /// of `display_text`, not a dump of the fields.
    pub open spec fn debug_text(&self) -> Seq<char> {
        self.display_text()
    }

    /// The same report, set to the layout over several lines if `pretty` is
    /// set and to the single line if not.
    pub open spec fn spec_pretty(self, pretty: bool) -> Report {
        Report { error: self.error, pretty }
    }

    /// A single-line report of `error`.
    pub fn new(error: Failure) -> (report: Report)
        ensures
            report == (Report { error, pretty: false }),
    {
        Self::from(error)
    }

    /// The same report, laid out over several lines if `pretty` is set and on
    /// a single line if not.
    pub fn pretty(self, pretty: bool) -> (report: Report)
        ensures
            report == self.spec_pretty(pretty),
    {
        Report { error: self.error, pretty }
    }

    /// Appends the report to `f` as a single line.
    pub fn fmt_singleline(&self, f: &mut String)
        ensures
            final(f)@ == old(f)@ + single_line(self.error.chain()),
    {
        let ghost causes = self.error.causes();
        let ghost done: int = 0;
        f.append(self.error.display());
        proof {
            self.error.lemma_chain_shape();
        }
        if let Some(cause) = self.error.source() {
            let mut sources = Source::new(cause);
            loop
                invariant
                    0 <= done <= causes.len(),
                    sources.remaining() == causes.skip(done),
                    f@ == old(f)@ + self.error.text() + joined_causes(causes.take(done)),
                ensures
                    f@ == old(f)@ + self.error.text() + joined_causes(causes),
                decreases causes.len() - done,
            {
                match sources.next() {
                    None => {
                        assert(causes.take(done) =~= causes);
                        break ;
                    },
                    Some(cause) => {
                        f.append(": ");
                        f.append(cause.display());
                        proof {
                            lemma_joined_causes_step(causes, done);
                            assert(causes.skip(done).drop_first() =~= causes.skip(done + 1));
                            done = done + 1;
                        }
                        assert(f@ =~= old(f)@ + self.error.text() + joined_causes(
                            causes.take(done),
                        ));
                    },
                }
            }
        }
        assert(f@ =~= old(f)@ + single_line(self.error.chain()));
    }

    /// Appends the report to `f` with each cause on a line of its own.
    pub fn fmt_multiline(&self, f: &mut String)
        ensures
            final(f)@ == old(f)@ + multi_line(self.error.chain()),
    {
        let ghost causes = self.error.causes();
        f.append(self.error.display());
        proof {
            self.error.lemma_chain_shape();
        }
        if let Some(cause) = self.error.source() {
            f.append("\n\nCaused by:");
            proof {
                cause.lemma_chain_shape();
            }
            let multiple = cause.source().is_some();
            let mut sources = Source::new(cause);
            let mut ind = Counter::new();
            loop
                invariant
                    ind.wf(),
                    ind.count() <= causes.len(),
                    sources.remaining() == causes.skip(ind.count() as int),
                    f@ == old(f)@ + self.error.text() + heading() + cause_lines(
                        causes.take(ind.count() as int),
                        multiple,
                    ),
                ensures
                    f@ == old(f)@ + self.error.text() + heading() + cause_lines(causes, multiple),
                decreases causes.len() - ind.count(),
            {
                match sources.next() {
                    None => {
                        assert(causes.take(ind.count() as int) =~= causes);
                        break ;
                    },
                    Some(cause) => {
                        f.push('\n');
                        ind.write_cause_prefix(f, multiple);
                        let mut indented = Indented { inner: f };
                        indented.write_str(cause.display());
                        proof {
                            lemma_cause_lines_step(causes, multiple, ind.count() as int);
                            assert(causes.skip(ind.count() as int).drop_first() =~= causes.skip(
                                ind.count() as int + 1,
                            ));
                        }
                        ind.increment();
                        assert(f@ =~= old(f)@ + self.error.text() + heading() + cause_lines(
                            causes.take(ind.count() as int),
                            multiple,
                        ));
                    },
                }
            }
        }
        assert(f@ =~= old(f)@ + multi_line(self.error.chain()));
    }

    /// Appends the text of the report to `sink`, in the layout that the report
    /// was set to.
    pub fn render_display(&self, sink: &mut String)
        ensures
            final(sink)@ == old(sink)@ + self.display_text(),
    {
        if self.pretty {
            self.fmt_multiline(sink)
        } else {
            self.fmt_singleline(sink)
        }
    }

    /// Appends to `sink` what `render_display` appends: a report has one text.
    pub fn render_debug(&self, sink: &mut String)
        ensures
            final(sink)@ == old(sink)@ + self.debug_text(),
    {
        self.render_display(sink)
    }

    /// The text of the report, in the layout that the report was set to.
    pub fn to_string(&self) -> (text: String)
        ensures
            text@ == self.display_text(),
    {
        let mut text = String::new();
        self.render_display(&mut text);
        text
    }
}

} // verus!
