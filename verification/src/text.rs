//! Comparing and inspecting message text.

use vstd::prelude::*;
use vstd::string::*;
use vstd::utf8::*;

verus! {

/// Whether two string slices hold the same characters.
pub fn str_eq(a: &str, b: &str) -> (same: bool)
    ensures
        same == (a@ == b@),
{
    let x = a.as_bytes();
    let y = b.as_bytes();
    proof {
        encode_utf8_decode_utf8(a@);
        encode_utf8_decode_utf8(b@);
    }
    if x.len() != y.len() {
        return false;
    }
    let mut i: usize = 0;
    while i < x.len()
        invariant
            i <= x.len(),
            x.len() == y.len(),
            x@ == encode_utf8(a@),
            y@ == encode_utf8(b@),
            forall|j: int| 0 <= j < i ==> x@[j] == y@[j],
        decreases x.len() - i,
    {
        if x[i] != y[i] {
            return false;
        }
        i += 1;
    }
    assert(x@ =~= y@);
    true
}

/// Whether a text has no line break in it.
pub open spec fn single_line(text: Seq<char>) -> bool {
    forall|i: int| 0 <= i < text.len() ==> text[i] != '\n'
}

/// What stands after the last line break of a text; the whole text where it
/// has none.
pub open spec fn last_line(text: Seq<char>) -> Seq<char>
    decreases text.len(),
{
    if text.len() == 0 || text.last() == '\n' {
        Seq::empty()
    } else {
        last_line(text.drop_last()).push(text.last())
    }
}

/// Whether `line` is one of the lines of `text`: it stands there between two
/// line breaks, or between a line break and an end of the text, or is the
/// whole of it.
pub open spec fn has_line(text: Seq<char>, line: Seq<char>) -> bool {
    exists|i: int, j: int|
        0 <= i <= j <= text.len() && #[trigger] text.subrange(i, j) == line && (i == 0 || text[i
            - 1] == '\n') && (j == text.len() || text[j] == '\n')
}

/// The last line of a text that ends with a line break and a line is that
/// line.
pub proof fn lemma_last_line_after_break(head: Seq<char>, line: Seq<char>)
    requires
        single_line(line),
    ensures
        last_line(head + seq!['\n'] + line) == line,
    decreases line.len(),
{
    let text = head + seq!['\n'] + line;
    if line.len() == 0 {
        assert(text.last() == '\n');
        assert(line =~= Seq::<char>::empty());
    } else {
        assert(text.last() == line.last());
        assert(text.drop_last() =~= head + seq!['\n'] + line.drop_last());
        lemma_last_line_after_break(head, line.drop_last());
        assert(line.drop_last().push(line.last()) =~= line);
    }
}

/// A text without a line break has one line, itself.
pub proof fn lemma_single_line_has_one_line(text: Seq<char>, line: Seq<char>)
    requires
        single_line(text),
    ensures
        last_line(text) == text,
        has_line(text, line) <==> line == text,
    decreases text.len(),
{
    if text.len() > 0 {
        lemma_single_line_has_one_line(text.drop_last(), line);
        assert(text.drop_last().push(text.last()) =~= text);
    } else {
        assert(text =~= Seq::<char>::empty());
    }
    assert(text.subrange(0, text.len() as int) =~= text);
    if has_line(text, line) {
        let (i, j) = choose|i: int, j: int|
            0 <= i <= j <= text.len() && #[trigger] text.subrange(i, j) == line && (i == 0
                || text[i - 1] == '\n') && (j == text.len() || text[j] == '\n');
        assert(i == 0 && j == text.len());
    }
}

} // verus!
