//! Character-level text helpers: conversion between strings and character
//! vectors, Unicode whitespace, and splitting on whitespace.

use vstd::prelude::*;
use vstd::string::*;

verus! {

/// Appends one character to a string (`String::push`).
#[verifier::external_body]
pub(crate) fn push_char(s: &mut String, c: char)
    ensures
        final(s)@ == old(s)@.push(c),
{
    s.push(c);
}

/// The characters of a string slice, in order.
pub fn chars_of(s: &str) -> (res: Vec<char>)
    ensures
        res@ == s@,
{
    let mut out: Vec<char> = Vec::new();
    for c in it: s.chars()
        invariant
            out@ == it.seq().take(it.index() as int),
    {
        out.push(c);
    }
    out
}


/// The characters that carry the Unicode `White_Space` property, which is
/// what `char::is_whitespace` tests.
pub open spec fn is_white_space(c: char) -> bool {
    let u = c as u32;
    ||| 0x09 <= u <= 0x0d
    ||| u == 0x20
    ||| u == 0x85
    ||| u == 0xa0
    ||| u == 0x1680
    ||| 0x2000 <= u <= 0x200a
    ||| u == 0x2028
    ||| u == 0x2029
    ||| u == 0x202f
    ||| u == 0x205f
    ||| u == 0x3000
}

/// Whether `c` is a Unicode whitespace character.
pub fn is_whitespace(c: char) -> (res: bool)
    ensures
        res == is_white_space(c),
{
    let u = c as u32;
    (0x09 <= u && u <= 0x0d) || u == 0x20 || u == 0x85 || u == 0xa0 || u == 0x1680 || (0x2000
        <= u && u <= 0x200a) || u == 0x2028 || u == 0x2029 || u == 0x202f || u == 0x205f || u
        == 0x3000
}

/// Whether a text consists of whitespace only (the empty text included).
pub open spec fn all_white_space(s: Seq<char>) -> bool {
    forall|i: int| 0 <= i < s.len() ==> is_white_space(#[trigger] s[i])
}

/// The longest prefix of `s` that holds no whitespace.
pub open spec fn leading_word(s: Seq<char>) -> Seq<char>
    decreases s.len(),
{
    if s.len() == 0 || is_white_space(s[0]) {
        Seq::empty()
    } else {
        seq![s[0]] + leading_word(s.drop_first())
    }
}

/// The words of `s`: its maximal runs of non-whitespace characters, in
/// order.
pub open spec fn words(s: Seq<char>) -> Seq<Seq<char>>
    decreases s.len(),
{
    if s.len() == 0 {
        Seq::empty()
    } else if is_white_space(s[0]) {
        words(s.drop_first())
    } else {
        let w = leading_word(s);
        proof {
            lemma_leading_word_len(s);
        }
        seq![w] + words(s.skip(w.len() as int))
    }
}

/// A leading word is a prefix of the text, non-empty when the text starts
/// with a non-whitespace character.
pub proof fn lemma_leading_word_len(s: Seq<char>)
    ensures
        leading_word(s).len() <= s.len(),
        s.len() > 0 && !is_white_space(s[0]) ==> leading_word(s).len() > 0,
        leading_word(s) == s.take(leading_word(s).len() as int),
    decreases s.len(),
{
    if s.len() > 0 && !is_white_space(s[0]) {
        lemma_leading_word_len(s.drop_first());
        assert(leading_word(s) =~= s.take(leading_word(s).len() as int));
    } else {
        assert(leading_word(s) =~= s.take(0));
    }
}

/// A leading word holds no whitespace.
pub proof fn lemma_leading_word_no_space(s: Seq<char>)
    ensures
        forall|i: int|
            0 <= i < leading_word(s).len() ==> !is_white_space(#[trigger] leading_word(s)[i]),
    decreases s.len(),
{
    if s.len() > 0 && !is_white_space(s[0]) {
        lemma_leading_word_no_space(s.drop_first());
        assert forall|i: int| 0 <= i < leading_word(s).len() implies !is_white_space(
            #[trigger] leading_word(s)[i],
        ) by {
            if i > 0 {
                assert(leading_word(s)[i] == leading_word(s.drop_first())[i - 1]);
            }
        }
    }
}

/// Splitting on whitespace yields no empty word and no word holding
/// whitespace, and it yields a word exactly when the text is not blank.
pub proof fn lemma_words_shape(s: Seq<char>)
    ensures
        forall|k: int| 0 <= k < words(s).len() ==> (#[trigger] words(s)[k]).len() > 0,
        forall|k: int, i: int|
            0 <= k < words(s).len() && 0 <= i < words(s)[k].len() ==> !is_white_space(
                #[trigger] words(s)[k][i],
            ),
        words(s).len() > 0 <==> !all_white_space(s),
    decreases s.len(),
{
    if s.len() == 0 {
    } else if is_white_space(s[0]) {
        lemma_words_shape(s.drop_first());
        if !all_white_space(s) {
            let j = choose|j: int| 0 <= j < s.len() && !is_white_space(s[j]);
            assert(s.drop_first()[j - 1] == s[j]);
        }
        if !all_white_space(s.drop_first()) {
            let j = choose|j: int|
                0 <= j < s.drop_first().len() && !is_white_space(s.drop_first()[j]);
            assert(s[j + 1] == s.drop_first()[j]);
        }
    } else {
        let w = leading_word(s);
        lemma_leading_word_len(s);
        lemma_leading_word_no_space(s);
        lemma_words_shape(s.skip(w.len() as int));
        let rest = words(s.skip(w.len() as int));
        assert(words(s) == seq![w] + rest);
        assert forall|k: int| 0 <= k < words(s).len() implies (#[trigger] words(s)[k]).len()
            > 0 by {
            if k > 0 {
                assert(words(s)[k] == rest[k - 1]);
            }
        }
        assert forall|k: int, i: int|
            0 <= k < words(s).len() && 0 <= i < words(s)[k].len() implies !is_white_space(
            #[trigger] words(s)[k][i],
        ) by {
            if k > 0 {
                assert(words(s)[k] == rest[k - 1]);
            }
        }
        assert(!is_white_space(s[0]));
    }
}

/// The characters of `s` that are not whitespace, in order.
pub open spec fn non_space(s: Seq<char>) -> Seq<char>
    decreases s.len(),
{
    if s.len() == 0 {
        Seq::empty()
    } else if is_white_space(s[0]) {
        non_space(s.drop_first())
    } else {
        seq![s[0]] + non_space(s.drop_first())
    }
}

/// The non-whitespace characters of a text are those of its leading word
/// followed by those of the rest.
proof fn lemma_non_space_leading_word(s: Seq<char>)
    ensures
        non_space(s) == leading_word(s) + non_space(s.skip(leading_word(s).len() as int)),
    decreases s.len(),
{
    lemma_leading_word_len(s);
    if s.len() == 0 || is_white_space(s[0]) {
        assert(s.skip(0) =~= s);
        assert(leading_word(s) + non_space(s) =~= non_space(s));
    } else {
        let t = s.drop_first();
        lemma_non_space_leading_word(t);
        lemma_leading_word_len(t);
        let k = leading_word(t).len() as int;
        assert(t.skip(k) =~= s.skip(k + 1));
        assert(leading_word(s).len() == k + 1);
        assert(non_space(s) =~= leading_word(s) + non_space(s.skip(leading_word(s).len() as int)));
    }
}

/// Splitting on whitespace loses no character but whitespace: the words,
/// joined, are the non-whitespace characters of the text, in order.
pub proof fn lemma_words_cover_text(s: Seq<char>)
    ensures
        words(s).flatten() == non_space(s),
    decreases s.len(),
{
    if s.len() == 0 {
        assert(words(s).flatten() =~= non_space(s));
    } else if is_white_space(s[0]) {
        lemma_words_cover_text(s.drop_first());
    } else {
        let w = leading_word(s);
        lemma_leading_word_len(s);
        let rest = s.skip(w.len() as int);
        lemma_words_cover_text(rest);
        lemma_non_space_leading_word(s);
        let ws = words(s);
        assert(ws == seq![w] + words(rest));
        assert(ws.first() == w);
        assert(ws.drop_first() =~= words(rest));
        assert(ws.flatten() == w + words(rest).flatten());
    }
}

/// The text made of the characters `chars[start..end]`.
pub fn string_from_range(chars: &[char], start: usize, end: usize) -> (res: String)
    requires
        start <= end <= chars@.len(),
    ensures
        res@ == chars@.subrange(start as int, end as int),
{
    let mut out = String::new();
    let mut i: usize = start;
    while i < end
        invariant
            start <= i <= end <= chars@.len(),
            out@ == chars@.subrange(start as int, i as int),
        decreases end - i,
    {
        push_char(&mut out, chars[i]);
        assert(chars@.subrange(start as int, i + 1) =~= chars@.subrange(start as int, i as int).push(
            chars@[i as int],
        ));
        i = i + 1;
    }
    out
}

/// Splits a text into its words, as `str::split_whitespace` does.
pub fn split_whitespace(s: &str) -> (res: Vec<String>)
    ensures
        res@.len() == words(s@).len(),
        forall|k: int| 0 <= k < res@.len() ==> #[trigger] res@[k]@ == words(s@)[k],
{
    let chars = chars_of(s);
    let n = chars.len();
    let mut out: Vec<String> = Vec::new();
    let ghost done: Seq<Seq<char>> = Seq::empty();
    let mut i: usize = 0;
    assert(s@.skip(0) =~= s@);
    assert(done + words(s@) =~= words(s@));
    while i < n
        invariant
            n == chars@.len(),
            chars@ == s@,
            0 <= i <= n,
            out@.len() == done.len(),
            forall|k: int| 0 <= k < out@.len() ==> #[trigger] out@[k]@ == done[k],
            words(s@) == done + words(s@.skip(i as int)),
        decreases n - i,
    {
        let ghost rest = s@.skip(i as int);
        if is_whitespace(chars[i]) {
            assert(rest.drop_first() =~= s@.skip(i + 1));
            i = i + 1;
        } else {
            let start = i;
            let mut j: usize = i;
            while j < n && !is_whitespace(chars[j])
                invariant
                    n == chars@.len(),
                    chars@ == s@,
                    start <= j <= n,
                    leading_word(s@.skip(start as int)) == chars@.subrange(start as int, j as int)
                        + leading_word(s@.skip(j as int)),
                decreases n - j,
            {
                assert(s@.skip(j as int).drop_first() =~= s@.skip(j + 1));
                assert(chars@.subrange(start as int, j + 1) =~= chars@.subrange(
                    start as int,
                    j as int,
                ) + seq![chars@[j as int]]);
                j = j + 1;
            }
            assert(leading_word(s@.skip(j as int)) =~= Seq::<char>::empty());
            let word = string_from_range(chars.as_slice(), start, j);
            let ghost w = leading_word(rest);
            assert(w =~= chars@.subrange(start as int, j as int));
            assert(rest.skip(w.len() as int) =~= s@.skip(j as int));
            proof {
                done = done.push(w);
            }
            out.push(word);
            assert(done + words(s@.skip(j as int)) =~= (done.drop_last() + seq![w]) + words(
                s@.skip(j as int),
            ));
            i = j;
        }
    }
    assert(s@.skip(n as int) =~= Seq::<char>::empty());
    assert(done + Seq::<Seq<char>>::empty() =~= done);
    out
}

} // verus!
