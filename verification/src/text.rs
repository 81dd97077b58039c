//! Text as sequences of characters: joining lines into one text and splitting
//! a text back into lines, decimal numerals, and the few `String` operations
//! the editor is built from.
//!
//! Positions in a line count characters, never bytes, so every position
//! between two characters is one where the line can be cut.

use vstd::prelude::*;
use vstd::string::StrSliceExecFns;
use vstd::string::StringExecFns;

verus! {

/// The character that separates two lines of a text.
pub open spec fn terminator() -> char {
    '\n'
}

/// The lines that a vector of strings stands for.
pub open spec fn lines_of(rows: Seq<String>) -> Seq<Seq<char>> {
    Seq::new(rows.len(), |i: int| rows[i]@)
}

/// A line holds no line terminator.
pub open spec fn is_line(line: Seq<char>) -> bool {
    forall|i: int| 0 <= i < line.len() ==> line[i] != terminator()
}

/// Every element of `lines` is a line without a terminator.
pub open spec fn all_lines(lines: Seq<Seq<char>>) -> bool {
    forall|i: int| 0 <= i < lines.len() ==> is_line(#[trigger] lines[i])
}

/// The lines written one after the other with a terminator between each two,
/// and none after the last.
pub open spec fn join_lines(lines: Seq<Seq<char>>) -> Seq<char>
    decreases lines.len(),
{
    if lines.len() == 0 {
        Seq::empty()
    } else if lines.len() == 1 {
        lines[0]
    } else {
        join_lines(lines.drop_last()) + seq![terminator()] + lines.last()
    }
}

/// The pieces of `text` between its terminators. There is always at least one
/// piece: the empty text is one empty line, and a text that ends in a
/// terminator ends in an empty line.
pub open spec fn split_lines(text: Seq<char>) -> Seq<Seq<char>>
    decreases text.len(),
{
    if text.len() == 0 {
        seq![Seq::empty()]
    } else {
        let before = split_lines(text.drop_last());
        if text.last() == terminator() {
            before.push(Seq::empty())
        } else {
            before.update(before.len() - 1, before.last().push(text.last()))
        }
    }
}

/// Splitting yields at least one line, and no line holds a terminator.
pub proof fn lemma_split_gives_lines(text: Seq<char>)
    ensures
        split_lines(text).len() >= 1,
        all_lines(split_lines(text)),
    decreases text.len(),
{
    if text.len() > 0 {
        lemma_split_gives_lines(text.drop_last());
    }
}

/// Joining the pieces of a text gives the text back, whatever it holds.
pub proof fn lemma_join_split(text: Seq<char>)
    ensures
        join_lines(split_lines(text)) == text,
    decreases text.len(),
{
    if text.len() == 0 {
        assert(join_lines(split_lines(text)) =~= text);
    } else {
        let head = text.drop_last();
        let before = split_lines(head);
        let after = split_lines(text);
        lemma_split_gives_lines(head);
        lemma_join_split(head);
        if text.last() == terminator() {
            assert(after.drop_last() =~= before);
            assert(join_lines(after) =~= head.push(text.last()));
        } else if before.len() == 1 {
            assert(join_lines(after) =~= head.push(text.last()));
        } else {
            assert(after.drop_last() =~= before.drop_last());
            assert(join_lines(after) =~= join_lines(before).push(text.last()));
        }
        assert(head.push(text.last()) =~= text);
    }
}

/// A text written from lines and read back gives the same lines, provided
/// there is at least one line and none of them holds a terminator. (No text
/// stands for zero lines: the empty text reads back as one empty line.)
pub proof fn lemma_split_join(lines: Seq<Seq<char>>)
    requires
        lines.len() >= 1,
        all_lines(lines),
    ensures
        split_lines(join_lines(lines)) == lines,
    decreases lines.len(), lines.last().len(),
{
    let last = lines.last();
    if last.len() > 0 {
        let shorter = lines.update(lines.len() - 1, last.drop_last());
        assert(is_line(last));
        assert forall|i: int| 0 <= i < shorter.len() implies is_line(#[trigger] shorter[i]) by {
            if i < shorter.len() - 1 {
                assert(shorter[i] == lines[i]);
            }
        }
        lemma_split_join(shorter);
        if lines.len() > 1 {
            assert(shorter.drop_last() =~= lines.drop_last());
        }
        assert(join_lines(lines) =~= join_lines(shorter).push(last.last()));
        assert(join_lines(lines).drop_last() =~= join_lines(shorter));
        assert(join_lines(lines).last() == last[last.len() - 1]);
        assert(last.drop_last().push(last.last()) =~= last);
        assert(split_lines(join_lines(lines)) =~= lines);
    } else if lines.len() == 1 {
        assert(last =~= Seq::empty());
        assert(split_lines(join_lines(lines)) =~= lines);
    } else {
        let front = lines.drop_last();
        assert forall|i: int| 0 <= i < front.len() implies is_line(#[trigger] front[i]) by {
            assert(front[i] == lines[i]);
        }
        lemma_split_join(front);
        assert(join_lines(lines) =~= join_lines(front).push(terminator()));
        assert(join_lines(lines).drop_last() =~= join_lines(front));
        assert(join_lines(lines).last() == terminator());
        assert(last =~= Seq::empty());
        assert(split_lines(join_lines(lines)) =~= lines);
    }
}

/// The decimal digit for a number below ten.
pub open spec fn digit_char(d: int) -> char {
    if d == 0 {
        '0'
    } else if d == 1 {
        '1'
    } else if d == 2 {
        '2'
    } else if d == 3 {
        '3'
    } else if d == 4 {
        '4'
    } else if d == 5 {
        '5'
    } else if d == 6 {
        '6'
    } else if d == 7 {
        '7'
    } else if d == 8 {
        '8'
    } else {
        '9'
    }
}

/// The decimal numeral of `n`, without leading zeros and without a sign.
pub open spec fn decimal(n: nat) -> Seq<char>
    decreases n,
{
    if n < 10 {
        seq![digit_char(n as int)]
    } else {
        decimal(n / 10).push(digit_char((n % 10) as int))
    }
}

/// `String::push`: the string afterwards is the string before with `c` added
/// at its end.
#[verifier::external_body]
pub(crate) fn push_char(s: &mut String, c: char)
    ensures
        final(s)@ == old(s)@.push(c),
{
    s.push(c);
}

fn digit(d: u8) -> (c: char)
    requires
        d < 10,
    ensures
        c == digit_char(d as int),
{
    if d == 0 {
        '0'
    } else if d == 1 {
        '1'
    } else if d == 2 {
        '2'
    } else if d == 3 {
        '3'
    } else if d == 4 {
        '4'
    } else if d == 5 {
        '5'
    } else if d == 6 {
        '6'
    } else if d == 7 {
        '7'
    } else if d == 8 {
        '8'
    } else {
        '9'
    }
}

/// Writes `n` in decimal.
pub fn decimal_string(n: u128) -> (out: String)
    ensures
        out@ == decimal(n as nat),
    decreases n,
{
    if n < 10 {
        let mut out = String::new();
        push_char(&mut out, digit(n as u8));
        assert(out@ =~= decimal(n as nat));
        out
    } else {
        let mut out = decimal_string(n / 10);
        push_char(&mut out, digit((n % 10) as u8));
        out
    }
}

/// The number of characters in `s`.
pub fn char_count(s: &String) -> (n: usize)
    ensures
        n == s@.len(),
{
    s.as_str().unicode_len()
}

/// The characters of `s` from position `from` up to, not including, `to`.
pub fn substring(s: &String, from: usize, to: usize) -> (out: String)
    requires
        from <= to <= s@.len(),
    ensures
        out@ == s@.subrange(from as int, to as int),
{
    String::from_str(s.as_str().substring_char(from, to))
}

/// Splits `text` at its line terminators.
pub fn split_rows(text: &str) -> (rows: Vec<String>)
    ensures
        lines_of(rows@) == split_lines(text@),
{
    let mut rows: Vec<String> = Vec::new();
    let mut current = String::new();
    assert(lines_of(rows@).push(current@) =~= split_lines(text@.take(0)));
    for c in iter: text.chars()
        invariant
            iter.seq() == text@,
            lines_of(rows@).push(current@) == split_lines(text@.take(iter.index() as int)),
    {
        let ghost seen = text@.take(iter.index() as int);
        let ghost next = text@.take(iter.index() + 1);
        assert(next.drop_last() =~= seen);
        assert(next.last() == c);
        if c == '\n' {
            rows.push(current);
            current = String::new();
            assert(lines_of(rows@).push(current@) =~= split_lines(seen).push(Seq::empty()));
        } else {
            push_char(&mut current, c);
            assert(lines_of(rows@).push(current@) =~= split_lines(seen).update(
                split_lines(seen).len() - 1,
                split_lines(seen).last().push(c),
            ));
        }
    }
    assert(text@.take(text@.len() as int) =~= text@);
    rows.push(current);
    assert(lines_of(rows@) =~= split_lines(text@));
    rows
}

/// Writes the rows one after the other with a terminator between each two.
pub fn join_rows(rows: &Vec<String>) -> (text: String)
    ensures
        text@ == join_lines(lines_of(rows@)),
{
    let ghost lines = lines_of(rows@);
    let mut text = String::new();
    let mut i: usize = 0;
    while i < rows.len()
        invariant
            i <= rows.len(),
            lines == lines_of(rows@),
            text@ == join_lines(lines.take(i as int)),
        decreases rows.len() - i,
    {
        let ghost before = lines.take(i as int);
        let ghost after = lines.take(i + 1);
        assert(after.drop_last() =~= before);
        assert(after.last() == rows[i as int]@);
        if i > 0 {
            push_char(&mut text, '\n');
        }
        text.append(rows[i].as_str());
        assert(text@ =~= join_lines(after));
        i += 1;
    }
    assert(lines.take(rows.len() as int) =~= lines);
    text
}

} // verus!
