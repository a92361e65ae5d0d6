//! Words in text.

use vstd::prelude::*;
use vstd::std_specs::iter::IteratorSpec;
use vstd::string::StrSliceExecFns;

verus! {

/// Whether `word` is the first word of `text`: what stands before the first
/// space, or all of `text` where it holds no space.
pub open spec fn is_first_word(word: Seq<char>, text: Seq<char>) -> bool {
    &&& word.len() <= text.len()
    &&& word == text.subrange(0, word.len() as int)
    &&& forall|i: int| 0 <= i < word.len() ==> text[i] != ' '
    &&& word.len() < text.len() ==> text[word.len() as int] == ' '
}

/// The first word of `st`: the text before its first space, or all of it
/// where it holds no space.
pub fn first_word(st: &String) -> (word: &str)
    ensures
        is_first_word(word@, st@),
{
    let text = st.as_str();
    let total = text.unicode_len();
    let mut rest = text.chars();
    let mut seen: usize = 0;
    loop
        invariant
            text@ == st@,
            total == text@.len(),
            seen <= total,
            rest.remaining() == text@.subrange(seen as int, text@.len() as int),
            forall|i: int| 0 <= i < seen ==> text@[i] != ' ',
        decreases total - seen,
    {
        match rest.next() {
            None => {
                assert(text@.subrange(0, text@.len() as int) == text@);
                return text;
            },
            Some(c) => {
                if c == ' ' {
                    return text.substring_char(0, seen);
                }
                assert(text@.subrange(seen as int, text@.len() as int).drop_first()
                    == text@.subrange(seen + 1, text@.len() as int));
                seen = seen + 1;
            },
        }
    }
}

} // verus!
