//! Turning a raw line read from a console into the text the user typed.
use vstd::prelude::*;

verus! {

/// A character that belongs to a line terminator: carriage return or newline.
pub open spec fn is_line_terminator(c: char) -> bool {
    c == '\r' || c == '\n'
}

/// The text `s` with every trailing carriage return and newline removed.
/// Other trailing whitespace is kept.
pub open spec fn trim_terminators(s: Seq<char>) -> Seq<char>
    decreases s.len(),
{
    if s.len() > 0 && is_line_terminator(s.last()) {
        trim_terminators(s.drop_last())
    } else {
        s
    }
}

/// Executable counterpart of `is_line_terminator`.
pub fn is_terminator_char(c: char) -> (r: bool)
    ensures
        r == is_line_terminator(c),
{
    c == '\r' || c == '\n'
}

/// The text of a line as the user typed it: `line` without the carriage
/// returns and newlines at its end.
pub fn trim_line_end(line: &str) -> (r: String)
    ensures
        r@ == trim_terminators(line@),
        r@ == line@.subrange(0, r@.len() as int),
        r@.len() == 0 || !is_line_terminator(r@.last()),
        forall|i: int| r@.len() <= i < line@.len() ==> is_line_terminator(#[trigger] line@[i]),
{
    let n = line.unicode_len();
    let mut end: usize = n;
    assert(line@.subrange(0, n as int) =~= line@);
    while end > 0 && is_terminator_char(line.get_char(end - 1))
        invariant
            end <= n,
            n == line@.len(),
            trim_terminators(line@) == trim_terminators(line@.subrange(0, end as int)),
            forall|i: int| end <= i < n ==> is_line_terminator(#[trigger] line@[i]),
        decreases end,
    {
        assert(line@.subrange(0, end as int).drop_last() =~= line@.subrange(0, end - 1));
        end = end - 1;
    }
    let kept = line.substring_char(0, end);
    assert(end == 0 || !is_line_terminator(line@[end - 1]));
    assert(kept@.len() == 0 || kept@.last() == line@[end - 1]);
    kept.to_owned()
}

/// A line with no carriage return or newline in it, read with the newline
/// that ended it, comes back as exactly that line.
pub proof fn lemma_plain_line_round_trip(l: Seq<char>)
    requires
        forall|i: int| 0 <= i < l.len() ==> !is_line_terminator(#[trigger] l[i]),
    ensures
        trim_terminators(l + seq!['\n']) == l,
{
    if l.len() > 0 {
        assert(!is_line_terminator(l[l.len() - 1]));
    }
    lemma_terminator_stripped(l);
}

/// A line ended by `\r\n` loses both characters, and one ended by a lone
/// `\n` loses exactly that character, provided the text in front of the
/// terminator does not itself end in a carriage return or newline.
pub proof fn lemma_terminator_stripped(body: Seq<char>)
    requires
        body.len() == 0 || !is_line_terminator(body.last()),
    ensures
        trim_terminators(body + seq!['\r', '\n']) == body,
        trim_terminators(body + seq!['\n']) == body,
{
    let crlf = body + seq!['\r', '\n'];
    let cr = body + seq!['\r'];
    let lf = body + seq!['\n'];
    assert(crlf.last() == '\n');
    assert(crlf.drop_last() =~= cr);
    assert(cr.last() == '\r');
    assert(cr.drop_last() =~= body);
    assert(lf.last() == '\n');
    assert(lf.drop_last() =~= body);
    assert(trim_terminators(body) == body);
    assert(trim_terminators(cr) == body);
    assert(trim_terminators(crlf) == body);
    assert(trim_terminators(lf) == body);
}

/// An empty line, that is a lone newline, gives empty text; so does a read
/// that met the end of the input before any character.
pub proof fn lemma_empty_line()
    ensures
        trim_terminators(seq!['\n']) == Seq::<char>::empty(),
        trim_terminators(Seq::<char>::empty()) == Seq::<char>::empty(),
{
    lemma_terminator_stripped(Seq::<char>::empty());
    assert(Seq::<char>::empty() + seq!['\n'] =~= seq!['\n']);
}

} // verus!
