//! Classification of raw input lines per the driver convention: a line
//! beginning with a horizontal tab and a space is a structured query with
//! that two-character prefix stripped, every other line that is not blank is
//! a free-text command passed verbatim, and blank lines are not sent.

use vstd::prelude::*;

verus! {

/// The text without leading and trailing whitespace: its characters alone
/// decide it.
pub uninterp spec fn trimmed(s: Seq<char>) -> Seq<char>;

/// Relies on str::trim: the text without leading and trailing whitespace;
/// it depends on the characters alone.
#[verifier::external_body]
fn trim_text(line: &str) -> (r: String)
    ensures
        r@ == trimmed(line@),
{
    line.trim().to_owned()
}

/// What one raw input line asks of the client.
pub enum InputClass {
    /// A blank line: nothing is sent.
    Empty,
    /// A structured query, to be sent on the `tt` frame.
    Query(String),
    /// A free-text command, to be sent verbatim on the `command` frame.
    Command(String),
}

/// The mathematical value of an [`InputClass`].
pub enum InputClassView {
    Empty,
    Query(Seq<char>),
    Command(Seq<char>),
}

impl View for InputClass {
    type V = InputClassView;

    open spec fn view(&self) -> InputClassView {
        match self {
            InputClass::Empty => InputClassView::Empty,
            InputClass::Query(s) => InputClassView::Query(s@),
            InputClass::Command(s) => InputClassView::Command(s@),
        }
    }
}

/// The driver convention on one raw line: a tab-space prefix marks a
/// structured query and is stripped; otherwise a line that trims to nothing
/// is blank, and anything else is a command, verbatim.
pub open spec fn spec_classify(l: Seq<char>) -> InputClassView {
    if l.len() >= 2 && l[0] == '\t' && l[1] == ' ' {
        InputClassView::Query(l.skip(2))
    } else if trimmed(l).len() == 0 {
        InputClassView::Empty
    } else {
        InputClassView::Command(l)
    }
}

/// Classifies one raw input line, exactly as [`spec_classify`] says.
pub fn classify_line(line: &str) -> (r: InputClass)
    ensures
        r@ == spec_classify(line@),
{
    let n = line.unicode_len();
    if n >= 2 && line.get_char(0) == '\t' && line.get_char(1) == ' ' {
        let rest = line.substring_char(2, n);
        proof {
            assert(rest@ =~= line@.skip(2));
        }
        InputClass::Query(String::from_str(rest))
    } else {
        let t = trim_text(line);
        if t.as_str().unicode_len() == 0 {
            InputClass::Empty
        } else {
            InputClass::Command(String::from_str(line))
        }
    }
}

} // verus!
