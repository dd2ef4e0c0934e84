use vstd::prelude::*;
use crate::text::push_char;

verus! {

/// A line of the streamed body written back to front, ended by a newline.
pub open spec fn reversed_line(line: Seq<char>) -> Seq<char> {
    line.reverse().push('\n')
}

/// Writes one line of the body back to front and ends it with `\n`.
pub fn reverse_line(line: &str) -> (out: String)
    ensures
        out@ == reversed_line(line@),
{
    broadcast use vstd::string::group_string_axioms;
    let mut chars: Vec<char> = Vec::new();
    for c in it: line.chars()
        invariant
            chars@ == it.seq().take(it.index() as int),
    {
        chars.push(c);
    }
    assert(chars@ == line@);
    let mut out = String::new();
    let n = chars.len();
    let mut i: usize = n;
    while i > 0
        invariant
            i <= n,
            n == chars@.len(),
            out@ == chars@.subrange(i as int, n as int).reverse(),
        decreases i,
    {
        i -= 1;
        push_char(&mut out, chars[i]);
    }
    push_char(&mut out, '\n');
    out
}

/// Position by position: the reversed line holds the line's last character
/// first and its first character last, then the newline.
pub proof fn lemma_reversed_line_positions(line: Seq<char>)
    ensures
        reversed_line(line).len() == line.len() + 1,
        forall|i: int| 0 <= i < line.len() ==> #[trigger] reversed_line(line)[i] == line[line.len() - 1 - i],
        reversed_line(line)[line.len() as int] == '\n',
{
}

/// Reversing the reversed text of a line, without its newline, gives the
/// line back.
pub proof fn lemma_reverse_twice(line: Seq<char>)
    ensures
        reversed_line(line).drop_last().reverse() == line,
        reversed_line(line).len() == line.len() + 1,
        reversed_line(line).last() == '\n',
{
    let r = reversed_line(line);
    assert(r.drop_last() =~= line.reverse());
    assert(line.reverse().reverse() =~= line);
}

} // verus!
