//! Small helpers on texts as sequences of characters.
use vstd::prelude::*;
use vstd::string::*;

verus! {

/// Whether `word` stands in `text` at position `from`.
pub open spec fn starts_with_at<T>(text: Seq<T>, from: int, word: Seq<T>) -> bool {
    &&& 0 <= from
    &&& from + word.len() <= text.len()
    &&& text.subrange(from, from + word.len()) =~= word
}

/// The characters of a text.
pub fn chars_of(text: &str) -> (chars: Vec<char>)
    ensures
        chars@ == text@,
{
    let count: usize = text.unicode_len();
    let mut chars: Vec<char> = Vec::new();
    let mut i: usize = 0;
    while i < count
        invariant
            count == text@.len(),
            i <= count,
            chars@ == text@.subrange(0, i as int),
        decreases count - i,
    {
        chars.push(text.get_char(i));
        i = i + 1;
    }
    chars
}

/// Whether `word` stands in `text` at position `from`.
pub fn has_word_at(text: &[char], from: usize, word: &[char]) -> (found: bool)
    ensures
        found == starts_with_at(text@, from as int, word@),
{
    if word.len() > text.len() || from > text.len() - word.len() {
        return false;
    }
    let mut i: usize = 0;
    while i < word.len()
        invariant
            i <= word.len(),
            from + word.len() <= text.len(),
            text@.subrange(from as int, from + i) =~= word@.subrange(0, i as int),
        decreases word.len() - i,
    {
        if text[from + i] != word[i] {
            assert(text@.subrange(from as int, from + word.len())[i as int] != word@[i as int]);
            return false;
        }
        i = i + 1;
    }
    assert(word@.subrange(0, word.len() as int) =~= word@);
    true
}

} // verus!
