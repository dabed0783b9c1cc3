//! Terminal decoration of the labels and of the continuation marker.
//!
//! The decoration itself is the work of the `colored` crate. Whether it
//! decorates depends on the process (variables such as `NO_COLOR`, whether
//! the standard stream is a terminal, an override set at run time), so no
//! contract here says which rendering comes out, only which renderings
//! there are.

use colored::Colorize;
use vstd::prelude::*;
use vstd::string::StringExecFns;

use crate::severity::Severity;

verus! {

/// The character that opens a terminal escape sequence.
pub open spec fn escape_char() -> char {
    '\u{1b}'
}

/// The escape sequence that selects bold and the colour with the number
/// `code`.
pub open spec fn bold_color_sequence(code: Seq<char>) -> Seq<char> {
    "\u{1b}[1;"@ + code + "m"@
}

/// The escape sequence that resets the terminal's style.
pub open spec fn reset_sequence() -> Seq<char> {
    "\u{1b}[0m"@
}

/// `text` set in bold and in the colour with the number `code`.
pub open spec fn bold_colored(code: Seq<char>, text: Seq<char>) -> Seq<char> {
    bold_color_sequence(code) + text + reset_sequence()
}

/// `out` is one of the renderings of `text` in bold and in the colour
/// `code`: the bare text, the decorated text, or the text with only the
/// reset after it.
pub open spec fn is_rendering(out: Seq<char>, code: Seq<char>, text: Seq<char>) -> bool {
    ||| out == text
    ||| out == bold_colored(code, text)
    ||| out == text + reset_sequence()
}

/// The number of the colour in which the label of a severity is set: white
/// for `Trace`, yellow for `Debug`, bright black for `Info`, bright purple
/// for `Warn`, red for `Error`.
pub open spec fn color_code(level: Severity) -> Seq<char> {
    match level {
        Severity::Trace => "37"@,
        Severity::Debug => "33"@,
        Severity::Info => "90"@,
        Severity::Warn => "95"@,
        Severity::Error => "31"@,
    }
}

/// `label` is a rendering of the label of `level`.
pub open spec fn is_label_of(level: Severity, label: Seq<char>) -> bool {
    is_rendering(label, color_code(level), level.label_text())
}

/// The marker that sets off the continuation lines of a message.
pub open spec fn marker_text() -> Seq<char> {
    "    | "@
}

/// `marker` is a rendering of the continuation marker, which is set in bold
/// white.
pub open spec fn is_marker(marker: Seq<char>) -> bool {
    is_rendering(marker, "37"@, marker_text())
}

/// The separator built round a marker: a line break, the marker, a space.
pub open spec fn separator_with(marker: Seq<char>) -> Seq<char> {
    "\n"@ + marker + " "@
}

/// Calls `colored::Colorize::red` and then `bold` on the text and renders
/// the `ColoredString` with `to_string`, that is through its `Display`.
/// `Display` asks more than once whether the process decorates. Where it
/// does not, the result is the text itself. Where it does, the text stands
/// between `ESC[1;31m` and `ESC[0m`. Where the answer turns to no in between,
/// only `ESC[0m` follows the text. An escape sequence inside the text would
/// be rewritten, so the text must hold none.
#[verifier::external_body]
fn bold_red(text: &str) -> (out: String)
    requires
        !text@.contains(escape_char()),
    ensures
        is_rendering(out@, "31"@, text@),
{
    text.red().bold().to_string()
}

/// Calls `colored::Colorize::bright_purple` and then `bold` on the text and
/// renders the `ColoredString` with `to_string`. The renderings are those of
/// `bold_red`, with `ESC[1;95m` in front of the decorated text.
#[verifier::external_body]
fn bold_bright_purple(text: &str) -> (out: String)
    requires
        !text@.contains(escape_char()),
    ensures
        is_rendering(out@, "95"@, text@),
{
    text.bright_purple().bold().to_string()
}

/// Calls `colored::Colorize::bright_black` and then `bold` on the text and
/// renders the `ColoredString` with `to_string`. The renderings are those of
/// `bold_red`, with `ESC[1;90m` in front of the decorated text.
#[verifier::external_body]
fn bold_bright_black(text: &str) -> (out: String)
    requires
        !text@.contains(escape_char()),
    ensures
        is_rendering(out@, "90"@, text@),
{
    text.bright_black().bold().to_string()
}

/// Calls `colored::Colorize::yellow` and then `bold` on the text and renders
/// the `ColoredString` with `to_string`. The renderings are those of
/// `bold_red`, with `ESC[1;33m` in front of the decorated text.
#[verifier::external_body]
fn bold_yellow(text: &str) -> (out: String)
    requires
        !text@.contains(escape_char()),
    ensures
        is_rendering(out@, "33"@, text@),
{
    text.yellow().bold().to_string()
}

/// Calls `colored::Colorize::white` and then `bold` on the text and renders
/// the `ColoredString` with `to_string`. The renderings are those of
/// `bold_red`, with `ESC[1;37m` in front of the decorated text.
#[verifier::external_body]
fn bold_white(text: &str) -> (out: String)
    requires
        !text@.contains(escape_char()),
    ensures
        is_rendering(out@, "37"@, text@),
{
    text.white().bold().to_string()
}

/// The label of a severity, decorated where the process decorates.
pub fn styled_label(level: Severity) -> (label: String)
    ensures
        is_label_of(level, label@),
{
    proof {
        reveal_strlit("trace:");
        reveal_strlit("debug:");
        reveal_strlit("info:");
        reveal_strlit("warning:");
        reveal_strlit("error:");
    }
    let text = level.label();
    match level {
        Severity::Trace => bold_white(text),
        Severity::Debug => bold_yellow(text),
        Severity::Info => bold_bright_black(text),
        Severity::Warn => bold_bright_purple(text),
        Severity::Error => bold_red(text),
    }
}

/// The continuation marker, decorated where the process decorates.
pub fn styled_marker() -> (marker: String)
    ensures
        is_marker(marker@),
{
    proof {
        reveal_strlit("    | ");
    }
    bold_white("    | ")
}

/// Builds the separator round a marker.
pub fn continuation_separator(marker: &str) -> (sep: String)
    ensures
        sep@ == separator_with(marker@),
{
    let mut sep = String::from_str("\n");
    sep.append(marker);
    sep.append(" ");
    sep
}

/// A rendering has a line break only where the text or the colour's number
/// has one.
pub proof fn lemma_rendering_single_line(out: Seq<char>, code: Seq<char>, text: Seq<char>)
    requires
        is_rendering(out, code, text),
        !code.contains('\n'),
        !text.contains('\n'),
    ensures
        !out.contains('\n'),
{
    reveal_strlit("\u{1b}[1;");
    reveal_strlit("m");
    reveal_strlit("\u{1b}[0m");
    let open = bold_color_sequence(code);
    let close = reset_sequence();
    assert forall|i: int| 0 <= i < open.len() implies open[i] != '\n' by {
        if 4 <= i < 4 + code.len() {
            assert(open[i] == code[i - 4]);
        }
    }
    assert forall|i: int| 0 <= i < out.len() implies out[i] != '\n' by {
        if out == text {
        } else if out == text + close {
            if i < text.len() {
                assert(out[i] == text[i]);
            } else {
                assert(out[i] == close[i - text.len()]);
            }
        } else {
            if i < open.len() {
                assert(out[i] == open[i]);
            } else if i < open.len() + text.len() {
                assert(out[i] == text[i - open.len()]);
            } else {
                assert(out[i] == close[i - open.len() - text.len()]);
            }
        }
    }
}

/// No rendering of a label has a line break.
pub proof fn lemma_label_single_line(level: Severity, label: Seq<char>)
    requires
        is_label_of(level, label),
    ensures
        !label.contains('\n'),
{
    reveal_strlit("trace:");
    reveal_strlit("debug:");
    reveal_strlit("info:");
    reveal_strlit("warning:");
    reveal_strlit("error:");
    reveal_strlit("37");
    reveal_strlit("33");
    reveal_strlit("90");
    reveal_strlit("95");
    reveal_strlit("31");
    lemma_rendering_single_line(label, color_code(level), level.label_text());
}

/// No rendering of the continuation marker has a line break.
pub proof fn lemma_marker_single_line(marker: Seq<char>)
    requires
        is_marker(marker),
    ensures
        !marker.contains('\n'),
{
    reveal_strlit("    | ");
    reveal_strlit("37");
    lemma_rendering_single_line(marker, "37"@, marker_text());
}

} // verus!
