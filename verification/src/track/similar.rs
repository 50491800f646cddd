//! Decides whether two track titles name the same song.
use crate::text::{chars_of, has_word_at, starts_with_at};
use vstd::prelude::*;

verus! {

/// The lowercase form of a text, as `str::to_lowercase` gives it.
pub uninterp spec fn lowercase_of(text: Seq<char>) -> Seq<char>;

/// Whether a character is a letter or a number, as `char::is_alphanumeric` decides.
pub uninterp spec fn alphanumeric(c: char) -> bool;

/// Whether a character is white space: one of the 25 characters that Unicode gives
/// the property `White_Space`.
pub open spec fn whitespace(c: char) -> bool {
    let code = c as u32;
    ||| 0x0009 <= code <= 0x000d
    ||| code == 0x0020
    ||| code == 0x0085
    ||| code == 0x00a0
    ||| code == 0x1680
    ||| 0x2000 <= code <= 0x200a
    ||| code == 0x2028
    ||| code == 0x2029
    ||| code == 0x202f
    ||| code == 0x205f
    ||| code == 0x3000
}

/// Calls `str::to_lowercase`. Trusted: the result is the lowercase form of the text, a
/// function of the text alone.
#[verifier::external_body]
fn to_lowercase(text: &str) -> (lower: String)
    ensures
        lower@ == lowercase_of(text@),
{
    text.to_lowercase()
}

/// Calls `char::is_alphanumeric`. Trusted: the answer depends on the character alone.
#[verifier::external_body]
fn is_alphanumeric(c: char) -> (yes: bool)
    ensures
        yes == alphanumeric(c),
{
    c.is_alphanumeric()
}

/// Whether a character is white space.
pub fn is_whitespace(c: char) -> (yes: bool)
    ensures
        yes == whitespace(c),
{
    let code: u32 = c as u32;
    (0x0009 <= code && code <= 0x000d) || code == 0x0020 || code == 0x0085 || code == 0x00a0
        || code == 0x1680 || (0x2000 <= code && code <= 0x200a) || code == 0x2028 || code
        == 0x2029 || code == 0x202f || code == 0x205f || code == 0x3000
}

/// How many modifiers there are.
pub const MODIFIER_COUNT: usize = 36;

/// Common modifiers that may be appended to track titles. These words and anything
/// after them are removed when titles are compared.
pub open spec fn modifiers() -> Seq<Seq<char>> {
    seq![
        "mix"@,
        "remix"@,
        "edition"@,
        "version"@,
        "acoustic"@,
        "live"@,
        "movie"@,
        "soundtrack"@,
        "original"@,
        "extended"@,
        "edit"@,
        "full"@,
        "official"@,
        "radio"@,
        "featuring"@,
        "feat"@,
        "ft"@,
        "session"@,
        "demo"@,
        "preview"@,
        "bonus"@,
        "track"@,
        "intro"@,
        "outro"@,
        "prelude"@,
        "official"@,
        "remastered"@,
        "sped"@,
        "("@,
        "["@,
        "- "@,
        "+ "@,
        "| "@,
        "|| "@,
        ": "@,
        ":: "@,
    ]
}

/// The modifier at `index`.
pub fn modifier(index: usize) -> (word: &'static str)
    requires
        index < MODIFIER_COUNT,
    ensures
        word@ == modifiers()[index as int],
{
    match index {
        0 => "mix",
        1 => "remix",
        2 => "edition",
        3 => "version",
        4 => "acoustic",
        5 => "live",
        6 => "movie",
        7 => "soundtrack",
        8 => "original",
        9 => "extended",
        10 => "edit",
        11 => "full",
        12 => "official",
        13 => "radio",
        14 => "featuring",
        15 => "feat",
        16 => "ft",
        17 => "session",
        18 => "demo",
        19 => "preview",
        20 => "bonus",
        21 => "track",
        22 => "intro",
        23 => "outro",
        24 => "prelude",
        25 => "official",
        26 => "remastered",
        27 => "sped",
        28 => "(",
        29 => "[",
        30 => "- ",
        31 => "+ ",
        32 => "| ",
        33 => "|| ",
        34 => ": ",
        _ => ":: ",
    }
}

/// Whether one of the first `count` modifiers stands in `text` at position `from`.
pub open spec fn modifier_at(text: Seq<char>, from: int, count: int) -> bool {
    exists|k: int| 0 <= k < count && starts_with_at(text, from, #[trigger] modifiers()[k])
}

/// Whether a title is cut at `offset`: a space stands there and a modifier follows it.
pub open spec fn cut_here(text: Seq<char>, offset: int) -> bool {
    &&& 0 <= offset < text.len()
    &&& text[offset] == ' '
    &&& modifier_at(text, offset + 1, MODIFIER_COUNT as int)
}

/// The first position from `from` on, and before the last character, at which a title
/// is cut; the title's length where there is none.
pub open spec fn first_cut(text: Seq<char>, from: int) -> int
    decreases text.len() - from,
{
    if from < 0 || from >= text.len() - 1 {
        text.len() as int
    } else if cut_here(text, from) {
        from
    } else {
        first_cut(text, from + 1)
    }
}

/// A lowercase title without its modifiers: everything before the first space, at
/// position three or later, that a modifier follows.
pub open spec fn without_modifiers(text: Seq<char>) -> Seq<char> {
    text.subrange(0, first_cut(text, 3))
}

/// Whether a character is kept in a canonical title.
pub open spec fn plain(c: char) -> bool {
    alphanumeric(c) || whitespace(c)
}

/// The canonical form of a title: lowercase, without modifiers, and without
/// punctuation.
pub open spec fn canonical_title(title: Seq<char>) -> Seq<char> {
    without_modifiers(lowercase_of(title)).filter(|c: char| plain(c))
}

/// The cut is within the title, nothing before it is a cut, and it is a cut itself
/// unless it is the title's length.
pub proof fn lemma_first_cut(text: Seq<char>, from: int)
    requires
        0 <= from,
    ensures
        first_cut(text, from) <= text.len(),
        from <= text.len() ==> from <= first_cut(text, from),
        first_cut(text, from) < text.len() ==> cut_here(text, first_cut(text, from))
            && first_cut(text, from) < text.len() - 1,
        forall|i: int| from <= i < first_cut(text, from) && i < text.len() - 1 ==> !cut_here(text, i),
    decreases text.len() - from,
{
    if from < text.len() - 1 && !cut_here(text, from) {
        lemma_first_cut(text, from + 1);
    }
}

/// Whether a modifier stands in `text` at position `from`.
fn has_modifier_at(text: &[char], from: usize) -> (found: bool)
    ensures
        found == modifier_at(text@, from as int, MODIFIER_COUNT as int),
{
    let mut k: usize = 0;
    while k < MODIFIER_COUNT
        invariant
            k <= MODIFIER_COUNT,
            !modifier_at(text@, from as int, k as int),
        decreases MODIFIER_COUNT - k,
    {
        let word = chars_of(modifier(k));
        if has_word_at(text, from, word.as_slice()) {
            return true;
        }
        k = k + 1;
    }
    false
}

/// Remove common modifiers from the end of a title, which should be lowercase.
pub fn remove_modifiers(title: &[char]) -> (kept: &[char])
    ensures
        kept@ == without_modifiers(title@),
{
    let mut offset: usize = 3;
    while title.len() >= 1 && offset < title.len() - 1
        invariant
            3 <= offset,
            first_cut(title@, 3) == first_cut(title@, offset as int),
        decreases title.len() - offset,
    {
        if title[offset] == ' ' && has_modifier_at(title, offset + 1) {
            return vstd::slice::slice_subrange(title, 0, offset);
        }
        offset = offset + 1;
    }
    assert(title@.subrange(0, title@.len() as int) =~= title@);
    title
}

/// The canonical form of a track title: the title with as much additional
/// information removed as possible.
pub fn canonical(title: &str) -> (form: Vec<char>)
    ensures
        form@ == canonical_title(title@),
{
    let lower = to_lowercase(title);
    let chars = chars_of(lower.as_str());
    let kept = remove_modifiers(chars.as_slice());
    let ghost keep = |c: char| plain(c);
    let mut form: Vec<char> = Vec::new();
    let mut i: usize = 0;
    proof {
        reveal(Seq::filter);
        assert(kept@.subrange(0, 0) =~= Seq::<char>::empty());
    }
    while i < kept.len()
        invariant
            i <= kept.len(),
            keep == |c: char| plain(c),
            form@ == kept@.subrange(0, i as int).filter(keep),
        decreases kept.len() - i,
    {
        let c: char = kept[i];
        proof {
            reveal(Seq::filter);
            assert(kept@.subrange(0, i + 1).drop_last() =~= kept@.subrange(0, i as int));
        }
        if is_alphanumeric(c) || is_whitespace(c) {
            form.push(c);
        }
        i = i + 1;
    }
    assert(kept@.subrange(0, kept@.len() as int) =~= kept@);
    form
}

/// Determine if two given track titles are similar: whether their canonical forms are
/// the same.
pub fn similar(a: &str, b: &str) -> (same: bool)
    ensures
        same == (canonical_title(a@) == canonical_title(b@)),
{
    let left = canonical(a);
    let right = canonical(b);
    if left.len() != right.len() {
        return false;
    }
    let mut i: usize = 0;
    while i < left.len()
        invariant
            i <= left.len(),
            left.len() == right.len(),
            left@ == canonical_title(a@),
            right@ == canonical_title(b@),
            left@.subrange(0, i as int) =~= right@.subrange(0, i as int),
        decreases left.len() - i,
    {
        if left[i] != right[i] {
            assert(left@[i as int] != right@[i as int]);
            return false;
        }
        i = i + 1;
    }
    assert(left@.subrange(0, left@.len() as int) =~= left@);
    assert(right@.subrange(0, right@.len() as int) =~= right@);
    true
}

} // verus!
