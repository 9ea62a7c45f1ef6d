use vstd::prelude::*;

verus! {

/// The fixed label that starts every recorded line.
pub open spec fn line_prefix() -> Seq<char> {
    "do_something "@
}

/// The line recorded for a given text: the fixed prefix followed by the text
/// verbatim.
pub open spec fn line_for(text: Seq<char>) -> Seq<char> {
    line_prefix() + text
}

/// An in-order record of output lines, oldest first.  The library only
/// records lines; writing them to an output stream is the caller's business.
pub struct Log {
    lines: Vec<String>,
}

impl View for Log {
    type V = Seq<Seq<char>>;

    closed spec fn view(&self) -> Seq<Seq<char>> {
        Seq::new(self.lines@.len(), |i: int| self.lines@[i]@)
    }
}

impl Log {
    /// A fresh log with no lines.
    pub fn new() -> (log: Log)
        ensures
            log@ == Seq::<Seq<char>>::empty(),
    {
        let log = Log { lines: Vec::new() };
        proof {
            assert(log@ =~= Seq::<Seq<char>>::empty());
        }
        log
    }

    /// The recorded lines, oldest first.
    pub fn lines(&self) -> (lines: &Vec<String>)
        ensures
            lines@.len() == self@.len(),
            forall|i: int| 0 <= i < self@.len() ==> lines@[i]@ == self@[i],
    {
        &self.lines
    }
}

/// Relies on String::push_str: appends the slice's characters to the end of
/// the string, leaving what was already there unchanged.
#[verifier::external_body]
fn append_str(s: &mut String, piece: &str)
    ensures
        final(s)@ == old(s)@ + piece@,
{
    s.push_str(piece);
}

/// Logger stub: records exactly one new line, the fixed prefix followed by
/// the given text verbatim.  Lines already in the log are untouched, so
/// repeated calls record independent lines in call order.
pub fn do_something(log: &mut Log, text: &str)
    ensures
        final(log)@ == old(log)@.push(line_for(text@)),
{
    let mut line: String = "do_something ".to_owned();
    append_str(&mut line, text);
    log.lines.push(line);
    proof {
        assert(log@ =~= old(log)@.push(line_for(text@)));
    }
}

/// Recorded lines are independent and keep call order: a log that grew by the
/// line for `first` and then by the line for `second` holds its old lines
/// unchanged, then the two new lines, each depending on its own text alone.
pub proof fn lemma_lines_in_call_order(lines: Seq<Seq<char>>, first: Seq<char>, second: Seq<char>)
    ensures
        lines.push(line_for(first)).push(line_for(second)) =~= lines + seq![
            line_for(first),
            line_for(second),
        ],
        lines.push(line_for(first)).push(line_for(second))[lines.len() as int] == line_for(first),
        lines.push(line_for(first)).push(line_for(second))[lines.len() as int + 1] == line_for(
            second,
        ),
        lines.push(line_for(first)).push(line_for(second)).take(lines.len() as int) =~= lines,
{
}

} // verus!
