use vstd::prelude::*;

verus! {

/// The first line of a stream of input lines; an exhausted stream reads as
/// an empty line.
pub open spec fn next_line(lines: Seq<Seq<char>>) -> Seq<char> {
    if lines.len() > 0 {
        lines[0]
    } else {
        Seq::empty()
    }
}

/// The stream left over once one line has been read.
pub open spec fn remaining_after(lines: Seq<Seq<char>>) -> Seq<Seq<char>> {
    if lines.len() > 0 {
        lines.skip(1)
    } else {
        lines
    }
}

/// Whether the stream still holds at least one non-empty line.
pub open spec fn has_nonempty_line(lines: Seq<Seq<char>>) -> bool {
    exists|i: int| 0 <= i < lines.len() && lines[i].len() > 0
}

/// How many lines must be read before (and including) the first non-empty
/// one; the number of prompts a re-prompting loop issues.
pub open spec fn prompts_needed(lines: Seq<Seq<char>>) -> nat
    decreases lines.len(),
{
    if lines.len() == 0 {
        0
    } else if lines[0].len() > 0 {
        1
    } else {
        1 + prompts_needed(lines.skip(1))
    }
}

/// The first non-empty line of the stream.
pub open spec fn first_nonempty_line(lines: Seq<Seq<char>>) -> Seq<char> {
    lines[prompts_needed(lines) - 1]
}

/// On a stream that holds a non-empty line, the first one stands right after
/// `prompts_needed(lines) - 1` empty lines.
pub proof fn lemma_prompts_needed(lines: Seq<Seq<char>>)
    requires
        has_nonempty_line(lines),
    ensures
        1 <= prompts_needed(lines) <= lines.len(),
        first_nonempty_line(lines).len() > 0,
        forall|j: int| 0 <= j < prompts_needed(lines) - 1 ==> lines[j].len() == 0,
    decreases lines.len(),
{
    if lines[0].len() > 0 {
    } else {
        let i = choose|i: int| 0 <= i < lines.len() && lines[i].len() > 0;
        assert(lines.skip(1)[i - 1] == lines[i]);
        assert(has_nonempty_line(lines.skip(1)));
        lemma_prompts_needed(lines.skip(1));
        let k = prompts_needed(lines.skip(1));
        assert(first_nonempty_line(lines) == lines.skip(1)[k - 1]);
        assert(forall|j: int| 1 <= j < k ==> lines[j] == lines.skip(1)[j - 1]);
    }
}

/// Reads one line of user-entered text synchronously. An empty line is a
/// valid, meaningful result, not an error.
///
/// The ghost view `pending` is the stream of lines the reader will hand out,
/// in order; a reader whose stream has run dry answers with empty lines and
/// stays dry.
pub trait ReadInput: Sized {
    open spec fn pending(&self) -> Seq<Seq<char>> {
        Seq::empty()
    }

    fn read_input(&mut self) -> (r: String)
        ensures
            old(self).pending().len() > 0 ==> r@ == old(self).pending()[0]
                && final(self).pending() == old(self).pending().skip(1),
            old(self).pending().len() == 0 ==> r@ == Seq::<char>::empty()
                && final(self).pending() == old(self).pending(),
    ;
}

} // verus!
