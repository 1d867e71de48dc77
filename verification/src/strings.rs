//! What the library takes from the standard string functions.

use vstd::prelude::*;

verus! {

/// Whether `c` is white space: the characters with the Unicode property
/// White_Space.
pub open spec fn is_white_space(c: char) -> bool {
    let n = c as u32;
    ||| 0x09 <= n <= 0x0d
    ||| n == 0x20
    ||| n == 0x85
    ||| n == 0xa0
    ||| n == 0x1680
    ||| 0x2000 <= n <= 0x200a
    ||| n == 0x2028
    ||| n == 0x2029
    ||| n == 0x202f
    ||| n == 0x205f
    ||| n == 0x3000
}

/// `s` without its leading white space.
pub open spec fn trimmed_start(s: Seq<char>) -> Seq<char>
    decreases s.len(),
{
    if s.len() > 0 && is_white_space(s[0]) {
        trimmed_start(s.drop_first())
    } else {
        s
    }
}

/// `s` without its trailing white space.
pub open spec fn trimmed_end(s: Seq<char>) -> Seq<char>
    decreases s.len(),
{
    if s.len() > 0 && is_white_space(s.last()) {
        trimmed_end(s.drop_last())
    } else {
        s
    }
}

/// `s` without its leading and trailing white space.
pub open spec fn trimmed(s: Seq<char>) -> Seq<char> {
    trimmed_end(trimmed_start(s))
}

/// `s` with every character in lower case.
pub uninterp spec fn lowercased(s: Seq<char>) -> Seq<char>;

/// `s` with every occurrence of the non-empty `from`, found from left to
/// right without overlap, replaced by `to`.
pub open spec fn replaced(s: Seq<char>, from: Seq<char>, to: Seq<char>) -> Seq<char>
    decreases s.len(),
{
    if from.len() == 0 || s.len() < from.len() {
        s
    } else if s.subrange(0, from.len() as int) == from {
        to + replaced(s.skip(from.len() as int), from, to)
    } else {
        seq![s[0]] + replaced(s.drop_first(), from, to)
    }
}

/// Whether `s` ends with `suffix`.
pub open spec fn has_suffix(s: Seq<char>, suffix: Seq<char>) -> bool {
    suffix.len() <= s.len() && s.subrange(s.len() - suffix.len(), s.len() as int) == suffix
}

/// `str::trim`: the slice without leading and trailing white space, where
/// white space is what the Unicode property White_Space says.
#[verifier::external_body]
pub(crate) fn trim(s: &str) -> (r: &str)
    ensures
        r@ == trimmed(s@),
{
    s.trim()
}

/// `str::to_lowercase`: the lower-case equivalent of the slice.
#[verifier::external_body]
pub(crate) fn to_lowercase(s: &str) -> (r: String)
    ensures
        r@ == lowercased(s@),
{
    s.to_lowercase()
}

/// `str::replace` with a non-empty string pattern: every match of `from`,
/// found from left to right without overlap, is replaced by `to`.
#[verifier::external_body]
pub(crate) fn replace(s: &str, from: &str, to: &str) -> (r: String)
    requires
        from@.len() > 0,
    ensures
        r@ == replaced(s@, from@, to@),
{
    s.replace(from, to)
}

/// `str::ends_with` with a string pattern: whether the pattern is a suffix
/// of the slice.
#[verifier::external_body]
pub(crate) fn ends_with(s: &str, suffix: &str) -> (r: bool)
    ensures
        r == has_suffix(s@, suffix@),
{
    s.ends_with(suffix)
}

/// Equality of string slices: they are equal when they hold the same
/// characters.
pub assume_specification[ <str as PartialEq>::eq ](a: &str, b: &str) -> (r: bool)
    ensures
        r == (a@ == b@),
;

/// A name that ends in `from`, and holds the first character of `from`
/// nowhere before that, gets `to` in place of `from` and is otherwise kept.
pub proof fn lemma_replaced_ending(stem: Seq<char>, from: Seq<char>, to: Seq<char>)
    requires
        from.len() > 0,
        forall|i: int| 0 <= i < stem.len() ==> stem[i] != from[0],
    ensures
        replaced(stem + from, from, to) == stem + to,
    decreases stem.len(),
{
    let s = stem + from;
    if stem.len() == 0 {
        assert(s =~= from);
        assert(s.subrange(0, from.len() as int) =~= from);
        assert(s.skip(from.len() as int) =~= Seq::<char>::empty());
        assert(replaced(Seq::<char>::empty(), from, to) =~= Seq::<char>::empty());
        assert(to + Seq::<char>::empty() =~= to);
        assert(stem + to =~= to);
    } else {
        assert(s.subrange(0, from.len() as int)[0] == stem[0]);
        assert(s.subrange(0, from.len() as int) != from);
        assert(s.drop_first() =~= stem.drop_first() + from);
        lemma_replaced_ending(stem.drop_first(), from, to);
        assert(seq![s[0]] + (stem.drop_first() + to) =~= stem + to);
    }
}

/// A name that holds the first character of `from` nowhere is kept as it is.
pub proof fn lemma_replaced_without_match(s: Seq<char>, from: Seq<char>, to: Seq<char>)
    requires
        from.len() > 0,
        forall|i: int| 0 <= i < s.len() ==> s[i] != from[0],
    ensures
        replaced(s, from, to) == s,
    decreases s.len(),
{
    if s.len() >= from.len() {
        assert(s.subrange(0, from.len() as int)[0] == s[0]);
        assert(s.subrange(0, from.len() as int) != from);
        lemma_replaced_without_match(s.drop_first(), from, to);
        assert(seq![s[0]] + s.drop_first() =~= s);
    }
}

/// Leading white space is dropped: with white space in front of a text
/// that does not begin with white space, the text is what is left.
pub proof fn lemma_trimmed_start(space: Seq<char>, text: Seq<char>)
    requires
        forall|i: int| 0 <= i < space.len() ==> is_white_space(#[trigger] space[i]),
        text.len() == 0 || !is_white_space(text[0]),
    ensures
        trimmed_start(space + text) == text,
    decreases space.len(),
{
    if space.len() == 0 {
        assert(space + text =~= text);
    } else {
        assert((space + text)[0] == space[0]);
        assert((space + text).drop_first() =~= space.drop_first() + text);
        lemma_trimmed_start(space.drop_first(), text);
    }
}

/// Trailing white space is dropped: with white space behind a text that
/// does not end in white space, the text is what is left.
pub proof fn lemma_trimmed_end(text: Seq<char>, space: Seq<char>)
    requires
        forall|i: int| 0 <= i < space.len() ==> is_white_space(#[trigger] space[i]),
        text.len() == 0 || !is_white_space(text.last()),
    ensures
        trimmed_end(text + space) == text,
    decreases space.len(),
{
    if space.len() == 0 {
        assert(text + space =~= text);
    } else {
        assert((text + space).last() == space.last());
        assert((text + space).drop_last() =~= text + space.drop_last());
        lemma_trimmed_end(text, space.drop_last());
    }
}

/// White space around a text does not matter: a text that neither begins
/// nor ends with white space is what trimming leaves of it, whatever white
/// space stands before and behind it.
pub proof fn lemma_trimmed_surrounded(before: Seq<char>, text: Seq<char>, behind: Seq<char>)
    requires
        forall|i: int| 0 <= i < before.len() ==> is_white_space(#[trigger] before[i]),
        forall|i: int| 0 <= i < behind.len() ==> is_white_space(#[trigger] behind[i]),
        text.len() > 0,
        !is_white_space(text[0]),
        !is_white_space(text.last()),
    ensures
        trimmed(before + text + behind) == text,
{
    assert(before + text + behind =~= before + (text + behind));
    assert((text + behind)[0] == text[0]);
    lemma_trimmed_start(before, text + behind);
    lemma_trimmed_end(text, behind);
}

} // verus!
