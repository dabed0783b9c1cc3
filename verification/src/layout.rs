//! The text of a record: re-indentation of multi-line messages and the
//! composition of the final line.

use vstd::prelude::*;
use vstd::seq_lib::lemma_flatten_concat;
use vstd::string::StringExecFns;

verus! {

/// `String::push` appends one character and leaves the rest of the string as
/// it was.
pub assume_specification[ String::push ](s: &mut String, ch: char)
    ensures
        final(s)@ == old(s)@.push(ch),
;

/// What one character of a message becomes: a line break turns into the
/// separator, any other character stays.
pub open spec fn reindented_char(ch: char, sep: Seq<char>) -> Seq<char> {
    if ch == '\n' {
        sep
    } else {
        seq![ch]
    }
}

/// The message with every line break replaced by `sep`.
pub open spec fn reindented(message: Seq<char>, sep: Seq<char>) -> Seq<char> {
    message.flat_map(|ch: char| reindented_char(ch, sep))
}

/// The line of a record: `<program>: <label> <message>`, the message
/// re-indented with `sep`.
pub open spec fn record_line(
    prog_name: Seq<char>,
    label: Seq<char>,
    message: Seq<char>,
    sep: Seq<char>,
) -> Seq<char> {
    prog_name + ": "@ + label + " "@ + reindented(message, sep)
}

/// The number of line breaks in a text. A text is one line more than that.
pub open spec fn line_breaks(text: Seq<char>) -> nat {
    text.filter(|ch: char| ch == '\n').len()
}

/// Replaces every line break of `message` by `sep`.
pub fn reindent(message: &str, sep: &str) -> (out: String)
    ensures
        out@ == reindented(message@, sep@),
{
    let mut out = String::new();
    for ch in it: message.chars()
        invariant
            it.seq() == message@,
            out@ == reindented(message@.take(it.index() as int), sep@),
    {
        proof {
            message@.lemma_flat_map_take_append(
                |c: char| reindented_char(c, sep@),
                it.index() as int,
            );
        }
        if ch == '\n' {
            out.append(sep);
        } else {
            out.push(ch);
        }
    }
    assert(message@.take(message@.len() as int) =~= message@);
    out
}

/// Composes the line of a record from its parts.
pub fn compose(prog_name: &str, label: &str, message: &str, sep: &str) -> (line: String)
    ensures
        line@ == record_line(prog_name@, label@, message@, sep@),
{
    let mut line = String::from_str(prog_name);
    line.append(": ");
    line.append(label);
    line.append(" ");
    let body = reindent(message, sep);
    line.append(body.as_str());
    line
}

/// An empty message is re-indented to an empty text.
pub proof fn lemma_reindented_empty(sep: Seq<char>)
    ensures
        reindented(Seq::empty(), sep) == Seq::<char>::empty(),
{
    let f = |ch: char| reindented_char(ch, sep);
    assert(Seq::<char>::empty().map_values(f) =~= Seq::<Seq<char>>::empty());
}

/// A line break alone is re-indented to the separator, any other character
/// alone to itself.
pub proof fn lemma_reindented_one(ch: char, sep: Seq<char>)
    ensures
        reindented(seq![ch], sep) == reindented_char(ch, sep),
{
    seq![ch].lemma_flat_map_singleton(|c: char| reindented_char(c, sep));
}

/// Re-indentation goes part by part: that of two texts in a row is the two
/// re-indented texts in a row.
pub proof fn lemma_reindented_concat(left: Seq<char>, right: Seq<char>, sep: Seq<char>)
    ensures
        reindented(left + right, sep) == reindented(left, sep) + reindented(right, sep),
{
    let f = |ch: char| reindented_char(ch, sep);
    assert((left + right).map_values(f) =~= left.map_values(f) + right.map_values(f));
    lemma_flatten_concat(left.map_values(f), right.map_values(f));
}

/// What follows a line break of the message follows the separator in the
/// re-indented message.
pub proof fn lemma_reindented_at_line_break(before: Seq<char>, after: Seq<char>, sep: Seq<char>)
    ensures
        reindented(before + seq!['\n'] + after, sep) == reindented(before, sep) + sep + reindented(
            after,
            sep,
        ),
{
    lemma_reindented_concat(before + seq!['\n'], after, sep);
    lemma_reindented_concat(before, seq!['\n'], sep);
    lemma_reindented_one('\n', sep);
}

/// A message without a line break is left as it is.
pub proof fn lemma_reindented_single_line(message: Seq<char>, sep: Seq<char>)
    requires
        !message.contains('\n'),
    ensures
        reindented(message, sep) == message,
    decreases message.len(),
{
    if message.len() == 0 {
        lemma_reindented_empty(sep);
        assert(message =~= Seq::<char>::empty());
    } else {
        let front = message.drop_last();
        let last = message.last();
        assert(message =~= front + seq![last]);
        assert(message[message.len() - 1] != '\n');
        assert forall|i: int| 0 <= i < front.len() implies front[i] != '\n' by {
            assert(message[i] == front[i]);
        }
        lemma_reindented_single_line(front, sep);
        lemma_reindented_concat(front, seq![last], sep);
        lemma_reindented_one(last, sep);
    }
}

/// The line of a record whose message has no line break is the program
/// name, a colon and a space, the label, a space and the message, with no
/// separator in it.
pub proof fn lemma_record_line_single_line(
    prog_name: Seq<char>,
    label: Seq<char>,
    message: Seq<char>,
    sep: Seq<char>,
)
    requires
        !message.contains('\n'),
    ensures
        record_line(prog_name, label, message, sep) == prog_name + ": "@ + label + " "@ + message,
{
    lemma_reindented_single_line(message, sep);
}

/// A text of one character counts one line break if it is one, else none.
pub proof fn lemma_line_breaks_one(ch: char)
    ensures
        line_breaks(seq![ch]) == if ch == '\n' { 1nat } else { 0nat },
{
    reveal_with_fuel(Seq::filter, 2);
}

/// The line breaks of two texts in a row are those of the one and those of
/// the other.
pub proof fn lemma_line_breaks_concat(left: Seq<char>, right: Seq<char>)
    ensures
        line_breaks(left + right) == line_breaks(left) + line_breaks(right),
{
    Seq::filter_distributes_over_add(left, right, |ch: char| ch == '\n');
}

/// A text counts no line break exactly when it holds none.
pub proof fn lemma_line_breaks_none(text: Seq<char>)
    ensures
        line_breaks(text) == 0 <==> !text.contains('\n'),
    decreases text.len(),
{
    reveal(Seq::filter);
    if text.len() > 0 {
        let front = text.drop_last();
        lemma_line_breaks_none(front);
        if text.last() == '\n' {
            assert(text[text.len() - 1] == '\n');
        } else if front.contains('\n') {
            let i = choose|i: int| 0 <= i < front.len() && front[i] == '\n';
            assert(text[i] == '\n');
        } else {
            assert forall|i: int| 0 <= i < text.len() implies text[i] != '\n' by {
                if i < front.len() {
                    assert(front[i] == text[i]);
                }
            }
        }
    }
}

/// Re-indentation puts the line breaks of the separator in the place of
/// each line break of the message.
pub proof fn lemma_line_breaks_reindented(message: Seq<char>, sep: Seq<char>)
    ensures
        line_breaks(reindented(message, sep)) == line_breaks(message) * line_breaks(sep),
    decreases message.len(),
{
    if message.len() == 0 {
        lemma_reindented_empty(sep);
        assert(message =~= Seq::<char>::empty());
        lemma_line_breaks_none(message);
        assert(0 * line_breaks(sep) == 0) by (nonlinear_arith);
    } else {
        let front = message.drop_last();
        let last = message.last();
        assert(message =~= front + seq![last]);
        lemma_line_breaks_reindented(front, sep);
        lemma_reindented_concat(front, seq![last], sep);
        lemma_reindented_one(last, sep);
        lemma_line_breaks_concat(reindented(front, sep), reindented_char(last, sep));
        lemma_line_breaks_concat(front, seq![last]);
        lemma_line_breaks_one(last);
        assert((line_breaks(front) + 1) * line_breaks(sep) == line_breaks(front) * line_breaks(sep)
            + line_breaks(sep)) by (nonlinear_arith);
    }
}

/// With one line break in the separator and none in the program name and
/// the label, the line of a record has as many lines as its message.
pub proof fn lemma_record_line_keeps_line_count(
    prog_name: Seq<char>,
    label: Seq<char>,
    message: Seq<char>,
    sep: Seq<char>,
)
    requires
        !prog_name.contains('\n'),
        !label.contains('\n'),
        line_breaks(sep) == 1,
    ensures
        line_breaks(record_line(prog_name, label, message, sep)) == line_breaks(message),
{
    reveal_strlit(": ");
    reveal_strlit(" ");
    lemma_line_breaks_reindented(message, sep);
    lemma_line_breaks_none(prog_name);
    lemma_line_breaks_none(label);
    lemma_line_breaks_none(": "@);
    lemma_line_breaks_none(" "@);
    lemma_line_breaks_concat(prog_name, ": "@);
    lemma_line_breaks_concat(prog_name + ": "@, label);
    lemma_line_breaks_concat(prog_name + ": "@ + label, " "@);
    lemma_line_breaks_concat(prog_name + ": "@ + label + " "@, reindented(message, sep));
}

} // verus!
