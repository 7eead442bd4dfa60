//! Note bodies as text and as lines.
//!
//! A body is stored as one text in which `'\n'` separates the lines, and is
//! edited as a sequence of lines. This module defines both directions and
//! proves that they undo each other.

use vstd::prelude::*;

verus! {

/// The lines of a text, read one character at a time: a line break opens a
/// new, empty line; any other character goes to the end of the last line.
/// A text without a line break is one line, so there is always at least one.
pub open spec fn split_lines(text: Seq<char>) -> Seq<Seq<char>>
    decreases text.len(),
{
    if text.len() == 0 {
        seq![Seq::<char>::empty()]
    } else {
        let before = split_lines(text.drop_last());
        if text.last() == '\n' {
            before.push(Seq::<char>::empty())
        } else {
            before.update(before.len() - 1, before.last().push(text.last()))
        }
    }
}

/// The lines written out as one text, with a line break between each two
/// neighbours and none at the end. No lines at all give the empty text.
pub open spec fn join_lines(lines: Seq<Seq<char>>) -> Seq<char>
    decreases lines.len(),
{
    if lines.len() == 0 {
        Seq::<char>::empty()
    } else if lines.len() == 1 {
        lines[0]
    } else {
        join_lines(lines.drop_last()) + seq!['\n'] + lines.last()
    }
}

/// No character of the line is a line break.
pub open spec fn is_single_line(line: Seq<char>) -> bool {
    forall|i: int| 0 <= i < line.len() ==> line[i] != '\n'
}

/// Every line is free of line breaks.
pub open spec fn are_single_lines(lines: Seq<Seq<char>>) -> bool {
    forall|i: int| 0 <= i < lines.len() ==> is_single_line(#[trigger] lines[i])
}

/// Splitting always yields at least one line.
pub proof fn lemma_split_nonempty(text: Seq<char>)
    ensures
        split_lines(text).len() >= 1,
    decreases text.len(),
{
    if text.len() > 0 {
        lemma_split_nonempty(text.drop_last());
    }
}

/// The lines that splitting yields hold no line break.
pub proof fn lemma_split_single_lines(text: Seq<char>)
    ensures
        are_single_lines(split_lines(text)),
    decreases text.len(),
{
    if text.len() > 0 {
        lemma_split_single_lines(text.drop_last());
        lemma_split_nonempty(text.drop_last());
    }
}

/// Joining the lines of a text gives the text back, whatever it holds.
pub proof fn lemma_join_split(text: Seq<char>)
    ensures
        join_lines(split_lines(text)) == text,
    decreases text.len(),
{
    if text.len() == 0 {
        assert(join_lines(split_lines(text)) =~= text);
    } else {
        let front = text.drop_last();
        let before = split_lines(front);
        lemma_join_split(front);
        lemma_split_nonempty(front);
        if text.last() == '\n' {
            let after = before.push(Seq::<char>::empty());
            assert(after.drop_last() =~= before);
            assert(join_lines(after) =~= front + seq!['\n']);
            assert(front + seq!['\n'] =~= text);
        } else {
            let after = before.update(before.len() - 1, before.last().push(text.last()));
            if before.len() == 1 {
                assert(join_lines(after) =~= front.push(text.last()));
            } else {
                assert(after.drop_last() =~= before.drop_last());
                assert(join_lines(after) =~= join_lines(before).push(text.last()));
            }
            assert(front.push(text.last()) =~= text);
        }
    }
}

/// Splitting a text that ends in a stretch without line breaks: the stretch
/// goes to the end of the last line of what stands before it.
pub proof fn lemma_split_append_line(text: Seq<char>, tail: Seq<char>)
    requires
        is_single_line(tail),
    ensures
        split_lines(text).len() >= 1,
        split_lines(text + tail) == split_lines(text).update(
            split_lines(text).len() - 1,
            split_lines(text).last() + tail,
        ),
    decreases tail.len(),
{
    lemma_split_nonempty(text);
    let lines = split_lines(text);
    if tail.len() == 0 {
        assert(text + tail =~= text);
        assert(lines.last() + tail =~= lines.last());
        assert(lines.update(lines.len() - 1, lines.last()) =~= lines);
    } else {
        let front = tail.drop_last();
        lemma_split_append_line(text, front);
        assert((text + tail).drop_last() =~= text + front);
        assert((text + tail).last() == tail.last());
        let before = split_lines(text + front);
        assert(before.last().push(tail.last()) =~= lines.last() + tail);
        assert(before.update(before.len() - 1, before.last().push(tail.last())) =~= lines.update(
            lines.len() - 1,
            lines.last() + tail,
        ));
    }
}

/// Splitting what was joined gives the lines back, provided that there is at
/// least one line and that no line holds a line break.
pub proof fn lemma_split_join(lines: Seq<Seq<char>>)
    requires
        lines.len() >= 1,
        are_single_lines(lines),
    ensures
        split_lines(join_lines(lines)) == lines,
    decreases lines.len(),
{
    if lines.len() == 1 {
        lemma_split_append_line(Seq::<char>::empty(), lines[0]);
        assert(Seq::<char>::empty() + lines[0] =~= lines[0]);
        assert(split_lines(lines[0]) =~= lines);
    } else {
        let front = lines.drop_last();
        assert(are_single_lines(front)) by {
            assert forall|i: int| 0 <= i < front.len() implies is_single_line(
                #[trigger] front[i],
            ) by {
                assert(front[i] == lines[i]);
            }
        }
        lemma_split_join(front);
        let head = join_lines(front) + seq!['\n'];
        assert(head.drop_last() =~= join_lines(front));
        assert(split_lines(head) == front.push(Seq::<char>::empty()));
        lemma_split_append_line(head, lines.last());
        assert(Seq::<char>::empty() + lines.last() =~= lines.last());
        assert(split_lines(head + lines.last()) =~= lines);
    }
}

/// The lines of `text`, each as a `String` of its own.
pub fn split_text(text: &str) -> (lines: Vec<String>)
    ensures
        lines@.len() == split_lines(text@).len(),
        forall|i: int| 0 <= i < lines@.len() ==> (#[trigger] lines@[i])@ == split_lines(text@)[i],
{
    let mut lines: Vec<String> = Vec::new();
    let mut start: usize = 0;
    let mut at: usize = 0;
    let ghost whole = text@;
    let total = text.unicode_len();
    proof {
        assert(whole.take(0) =~= Seq::<char>::empty());
        assert(whole.subrange(0, 0) =~= Seq::<char>::empty());
    }
    for c in it: text.chars()
        invariant
            whole == text@,
            it.seq() == whole,
            at == it.index(),
            start <= at <= whole.len(),
            whole.len() == total,
            split_lines(whole.take(at as int)).len() == lines@.len() + 1,
            forall|i: int| 0 <= i < lines@.len() ==> (#[trigger] lines@[i])@ == split_lines(whole.take(at as int))[i],
            split_lines(whole.take(at as int)).last() == whole.subrange(start as int, at as int),
    {
        proof {
            let seen = whole.take(at as int);
            let next = whole.take(at as int + 1);
            assert(next.drop_last() =~= seen);
            assert(next.last() == c);
            if c == '\n' {
                assert(whole.subrange(at as int + 1, at as int + 1) =~= Seq::<char>::empty());
            } else {
                assert(whole.subrange(start as int, at as int).push(c) =~= whole.subrange(
                    start as int,
                    at as int + 1,
                ));
            }
        }
        if c == '\n' {
            lines.push(text.substring_char(start, at).to_owned());
            start = at + 1;
        }
        at = at + 1;
    }
    proof {
        assert(whole.take(at as int) =~= whole);
    }
    lines.push(text.substring_char(start, total).to_owned());
    lines
}

/// The lines written out as one text, a line break between each two.
pub fn join_text(lines: &[String]) -> (text: String)
    ensures
        text@ == join_lines(lines@.map_values(|line: String| line@)),
{
    let ghost all = lines@.map_values(|line: String| line@);
    let mut text = String::new();
    let mut i: usize = 0;
    proof {
        assert(all.take(0) =~= Seq::<Seq<char>>::empty());
    }
    while i < lines.len()
        invariant
            i <= lines.len(),
            all == lines@.map_values(|line: String| line@),
            text@ == join_lines(all.take(i as int)),
        decreases lines.len() - i,
    {
        proof {
            let next = all.take(i as int + 1);
            assert(next.drop_last() =~= all.take(i as int));
            assert(next.last() == lines@[i as int]@);
            reveal_strlit("\n");
            assert("\n"@ =~= seq!['\n']);
        }
        if i > 0 {
            text.append("\n");
        }
        text.append(lines[i].as_str());
        i = i + 1;
    }
    proof {
        assert(all.take(i as int) =~= all);
    }
    text
}

} // verus!
