//! The sink: its configuration, the decision whether a record is emitted,
//! the line it is rendered to and the stream it goes to.

use vstd::prelude::*;
use vstd::string::StringExecFns;

use crate::layout::{
    compose, lemma_line_breaks_concat, lemma_line_breaks_none, lemma_line_breaks_one,
    lemma_record_line_keeps_line_count, lemma_record_line_single_line, line_breaks, record_line,
};
use crate::severity::Severity;
use crate::style::{
    continuation_separator, is_label_of, is_marker, lemma_label_single_line,
    lemma_marker_single_line, separator_with, styled_label, styled_marker,
};

verus! {

/// One of the two streams a record can be written to.
#[derive(Clone, Copy, Debug, PartialEq, Eq, Structural)]
pub enum Stream {
    Standard,
    Error,
}

/// What is to be written for one record: the stream, and the text with its
/// closing line break.
#[derive(Debug, PartialEq, Eq)]
pub struct Emission {
    pub stream: Stream,
    pub text: String,
}

impl View for Emission {
    type V = (Stream, Seq<char>);

    open spec fn view(&self) -> (Stream, Seq<char>) {
        (self.stream, self.text@)
    }
}

/// The outcome of a decision on a record, as plain values.
pub open spec fn written(out: Option<Emission>) -> Option<(Stream, Seq<char>)> {
    match out {
        Some(emission) => Some(emission@),
        None => None,
    }
}

/// The configuration of the sink.
#[derive(Debug)]
pub struct Logger {
    /// The least severe level that is emitted at all.
    pub min_level: Severity,
    /// The least severe level that is written to the error stream.
    pub min_error_level: Severity,
    /// The name that every line starts with.
    pub prog_name: String,
    /// What replaces each line break inside a message.
    pub newline_sep: String,
}

/// `sep` is the separator built round a rendering of the continuation
/// marker.
pub open spec fn is_default_separator(sep: Seq<char>) -> bool {
    exists|marker: Seq<char>| is_marker(marker) && sep == #[trigger] separator_with(marker)
}

impl Logger {
    /// A record of this level is emitted.
    pub open spec fn spec_enabled(&self, level: Severity) -> bool {
        level.spec_at_least(self.min_level)
    }

    /// The stream a record of this level goes to.
    pub open spec fn spec_route(&self, level: Severity) -> Stream {
        if level.spec_at_least(self.min_error_level) {
            Stream::Error
        } else {
            Stream::Standard
        }
    }

    /// The line of a record under the given label.
    pub open spec fn line_with(&self, label: Seq<char>, message: Seq<char>) -> Seq<char> {
        record_line(self.prog_name@, label, message, self.newline_sep@)
    }

    /// What is written for a record under the given label: nothing where the
    /// level is filtered out, else the line and its line break on the stream
    /// of the level.
    pub open spec fn emission_with(
        &self,
        level: Severity,
        label: Seq<char>,
        message: Seq<char>,
    ) -> Option<(Stream, Seq<char>)> {
        if self.spec_enabled(level) {
            Some((self.spec_route(level), self.line_with(label, message).push('\n')))
        } else {
            None
        }
    }

    /// `line` is the line of a record of this level under one of the
    /// renderings of its label.
    pub open spec fn is_line_of(&self, level: Severity, message: Seq<char>, line: Seq<char>) -> bool {
        exists|label: Seq<char>|
            is_label_of(level, label) && line == #[trigger] self.line_with(label, message)
    }

    /// `out` is what is written for a record of this level under one of the
    /// renderings of its label.
    pub open spec fn is_emission_of(
        &self,
        level: Severity,
        message: Seq<char>,
        out: Option<(Stream, Seq<char>)>,
    ) -> bool {
        exists|label: Seq<char>|
            is_label_of(level, label) && out == #[trigger] self.emission_with(
                level,
                label,
                message,
            )
    }

    /// A sink with both thresholds, the program name and the separator built
    /// round `marker`.
    pub fn new(
        min_level: Severity,
        min_error_level: Severity,
        prog_name: &str,
        marker: &str,
    ) -> (logger: Logger)
        ensures
            logger.min_level == min_level,
            logger.min_error_level == min_error_level,
            logger.prog_name@ == prog_name@,
            logger.newline_sep@ == separator_with(marker@),
    {
        Logger {
            min_level,
            min_error_level,
            prog_name: String::from_str(prog_name),
            newline_sep: continuation_separator(marker),
        }
    }

    /// Whether a record of this level is emitted: it is as severe as
    /// `min_level`, or more.
    #[verifier::when_used_as_spec(spec_enabled)]
    pub fn enabled(&self, level: Severity) -> (b: bool)
        ensures
            b == self.spec_enabled(level),
    {
        level.at_least(self.min_level)
    }

    /// The stream for a record of this level: the error stream where it is as
    /// severe as `min_error_level`, or more.
    #[verifier::when_used_as_spec(spec_route)]
    pub fn route(&self, level: Severity) -> (stream: Stream)
        ensures
            stream == self.spec_route(level),
    {
        if level.at_least(self.min_error_level) {
            Stream::Error
        } else {
            Stream::Standard
        }
    }

    /// Renders a record under the given label.
    pub fn compose(&self, label: &str, message: &str) -> (line: String)
        ensures
            line@ == self.line_with(label@, message@),
    {
        compose(self.prog_name.as_str(), label, message, self.newline_sep.as_str())
    }

    /// Renders a record of this level, the label decorated where the process
    /// decorates.
    pub fn format_record(&self, level: Severity, message: &str) -> (line: String)
        ensures
            self.is_line_of(level, message@, line@),
    {
        let label = styled_label(level);
        self.compose(label.as_str(), message)
    }

    /// Decides on a record under the given label: `None` where its level is
    /// filtered out, else what to write and where.
    pub fn emit(&self, level: Severity, label: &str, message: &str) -> (out: Option<Emission>)
        ensures
            written(out) == self.emission_with(level, label@, message@),
    {
        if !self.enabled(level) {
            return None;
        }
        let mut text = self.compose(label, message);
        text.push('\n');
        Some(Emission { stream: self.route(level), text })
    }

    /// Decides on a record of this level, the label decorated where the
    /// process decorates. A record that is filtered out costs no rendering.
    pub fn log(&self, level: Severity, message: &str) -> (out: Option<Emission>)
        ensures
            out is Some <==> self.spec_enabled(level),
            self.is_emission_of(level, message@, written(out)),
    {
        if !self.enabled(level) {
            assert(self.emission_with(level, level.label_text(), message@) is None);
            return None;
        }
        let label = styled_label(level);
        self.emit(level, label.as_str(), message)
    }
}

/// A sink that emits from `min_level` on and writes only `Error` records to
/// the error stream.
pub fn init(min_level: Severity, prog_name: &str) -> (logger: Logger)
    ensures
        logger.min_level == min_level,
        logger.min_error_level == Severity::Error,
        logger.prog_name@ == prog_name@,
        is_default_separator(logger.newline_sep@),
{
    init_error(min_level, Severity::Error, prog_name)
}

/// A sink that emits from `min_level` on and writes records from
/// `min_error_level` on to the error stream.
pub fn init_error(min_level: Severity, min_error_level: Severity, prog_name: &str) -> (logger:
    Logger)
    ensures
        logger.min_level == min_level,
        logger.min_error_level == min_error_level,
        logger.prog_name@ == prog_name@,
        is_default_separator(logger.newline_sep@),
{
    let marker = styled_marker();
    Logger::new(min_level, min_error_level, prog_name, marker.as_str())
}

/// A threshold lets through the levels from itself on and no other: of two
/// levels, the more severe passes both as a threshold, the less severe
/// passes itself and not the other.
pub proof fn lemma_threshold_separates(
    strict: Logger,
    lenient: Logger,
    higher: Severity,
    lower: Severity,
)
    requires
        higher.spec_rank() > lower.spec_rank(),
        strict.min_level == higher,
        lenient.min_level == lower,
    ensures
        lenient.spec_enabled(higher),
        lenient.spec_enabled(lower),
        strict.spec_enabled(higher),
        !strict.spec_enabled(lower),
{
}

/// A record whose message has no line break is rendered as the program
/// name, a colon and a space, the label, a space and the message, whatever
/// the separator is.
pub proof fn lemma_single_line_record(logger: Logger, label: Seq<char>, message: Seq<char>)
    requires
        !message.contains('\n'),
    ensures
        logger.line_with(label, message) == logger.prog_name@ + ": "@ + label + " "@ + message,
{
    lemma_record_line_single_line(logger.prog_name@, label, message, logger.newline_sep@);
}

/// The separator built round the continuation marker starts with a line
/// break and has no other.
pub proof fn lemma_default_separator_one_line_break(sep: Seq<char>)
    requires
        is_default_separator(sep),
    ensures
        line_breaks(sep) == 1,
        sep.len() > 0,
        sep[0] == '\n',
{
    reveal_strlit("\n");
    reveal_strlit(" ");
    let marker = choose|marker: Seq<char>| is_marker(marker) && sep == separator_with(marker);
    lemma_marker_single_line(marker);
    assert("\n"@ =~= seq!['\n']);
    assert(" "@ =~= seq![' ']);
    lemma_line_breaks_one('\n');
    lemma_line_breaks_one(' ');
    lemma_line_breaks_none(marker);
    lemma_line_breaks_concat("\n"@, marker);
    lemma_line_breaks_concat("\n"@ + marker, " "@);
}

/// With the separator built round the continuation marker and a program name
/// in one line, a rendered record has as many lines as its message.
pub proof fn lemma_record_keeps_line_count(
    logger: Logger,
    level: Severity,
    message: Seq<char>,
    line: Seq<char>,
)
    requires
        is_default_separator(logger.newline_sep@),
        !logger.prog_name@.contains('\n'),
        logger.is_line_of(level, message, line),
    ensures
        line_breaks(line) == line_breaks(message),
{
    let label = choose|label: Seq<char>|
        is_label_of(level, label) && line == logger.line_with(label, message);
    lemma_default_separator_one_line_break(logger.newline_sep@);
    lemma_label_single_line(level, label);
    lemma_record_line_keeps_line_count(logger.prog_name@, label, message, logger.newline_sep@);
}

} // verus!
