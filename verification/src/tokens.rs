//! Command lines as sequences of tokens separated by single spaces.

use vstd::prelude::*;

verus! {

/// A token of a command line's fixed part: at least one character, none of
/// them a space.
pub open spec fn is_word(t: Seq<char>) -> bool {
    &&& t.len() > 0
    &&& forall|i: int| 0 <= i < t.len() ==> t[i] != ' '
}

/// Every token of the sequence is a word.
pub open spec fn all_words(tokens: Seq<Seq<char>>) -> bool {
    forall|k: int| 0 <= k < tokens.len() ==> is_word(#[trigger] tokens[k])
}

/// The tokens written one after the other with a single space between
/// neighbours. No tokens give the empty text.
pub open spec fn join(tokens: Seq<Seq<char>>) -> Seq<char>
    decreases tokens.len(),
{
    if tokens.len() == 0 {
        Seq::empty()
    } else if tokens.len() == 1 {
        tokens[0]
    } else {
        join(tokens.drop_last()) + seq![' '] + tokens.last()
    }
}

/// The pieces of `text` between its spaces, in order. Every space separates
/// two pieces, so a text with `n` spaces has `n + 1` pieces, some of which
/// are empty where spaces are adjacent or stand at either end.
pub open spec fn split(text: Seq<char>) -> Seq<Seq<char>>
    decreases text.len(),
{
    if text.len() == 0 {
        seq![Seq::empty()]
    } else {
        let before = split(text.drop_last());
        if text.last() == ' ' {
            before.push(Seq::empty())
        } else {
            before.drop_last().push(before.last().push(text.last()))
        }
    }
}

/// `text` holds no two spaces in a row.
pub open spec fn no_double_space(text: Seq<char>) -> bool {
    forall|i: int| 0 <= i < text.len() - 1 ==> !(text[i] == ' ' && #[trigger] text[i + 1] == ' ')
}

/// `text` is not empty, neither starts nor ends with a space and holds no
/// two spaces in a row.
pub open spec fn single_spaced(text: Seq<char>) -> bool {
    &&& text.len() > 0
    &&& text[0] != ' '
    &&& text.last() != ' '
    &&& no_double_space(text)
}

/// Appending a token to a non-empty sequence appends a space and the token
/// to the joined text.
pub proof fn lemma_join_push(tokens: Seq<Seq<char>>, t: Seq<char>)
    requires
        tokens.len() > 0,
    ensures
        join(tokens.push(t)) == join(tokens) + seq![' '] + t,
{
    assert(tokens.push(t).drop_last() =~= tokens);
}

/// Joining a concatenation of two non-empty token sequences joins the two
/// joined texts with a space.
pub proof fn lemma_join_concat(front: Seq<Seq<char>>, back: Seq<Seq<char>>)
    requires
        front.len() > 0,
        back.len() > 0,
    ensures
        join(front + back) == join(front) + seq![' '] + join(back),
    decreases back.len(),
{
    if back.len() == 1 {
        assert(front + back =~= front.push(back[0]));
        lemma_join_push(front, back[0]);
    } else {
        lemma_join_concat(front, back.drop_last());
        assert((front + back).drop_last() =~= front + back.drop_last());
        assert(join(front + back) =~= join(front) + seq![' '] + join(back));
    }
}

/// A text always splits into at least one piece.
pub proof fn lemma_split_nonempty(text: Seq<char>)
    ensures
        split(text).len() >= 1,
    decreases text.len(),
{
    if text.len() > 0 {
        lemma_split_nonempty(text.drop_last());
    }
}

/// Splitting two texts joined by a space gives the pieces of the first
/// followed by the pieces of the second.
pub proof fn lemma_split_concat(front: Seq<char>, back: Seq<char>)
    ensures
        split(front + seq![' '] + back) == split(front) + split(back),
    decreases back.len(),
{
    let whole = front + seq![' '] + back;
    if back.len() == 0 {
        assert(whole.drop_last() =~= front);
        assert(split(whole) =~= split(front) + split(back));
    } else {
        let shorter = back.drop_last();
        lemma_split_concat(front, shorter);
        lemma_split_nonempty(shorter);
        assert(whole.drop_last() =~= front + seq![' '] + shorter);
        assert(whole.last() == back.last());
        assert(split(whole) =~= split(front) + split(back));
    }
}

/// A text without spaces is its own single piece.
pub proof fn lemma_split_spaceless(text: Seq<char>)
    requires
        forall|i: int| 0 <= i < text.len() ==> text[i] != ' ',
    ensures
        split(text) == seq![text],
    decreases text.len(),
{
    if text.len() > 0 {
        lemma_split_spaceless(text.drop_last());
        assert(text.drop_last().push(text.last()) =~= text);
        assert(split(text) =~= seq![text]);
    } else {
        assert(text =~= Seq::empty());
    }
}

/// Splitting undoes joining: the pieces of joined words are those words, in
/// the same order.
pub proof fn lemma_split_join(tokens: Seq<Seq<char>>)
    requires
        tokens.len() > 0,
        all_words(tokens),
    ensures
        split(join(tokens)) == tokens,
    decreases tokens.len(),
{
    if tokens.len() == 1 {
        assert(is_word(tokens[0]));
        lemma_split_spaceless(tokens[0]);
        assert(seq![tokens[0]] =~= tokens);
    } else {
        let front = tokens.drop_last();
        assert(all_words(front)) by {
            assert forall|k: int| 0 <= k < front.len() implies is_word(#[trigger] front[k]) by {
                assert(front[k] == tokens[k]);
            }
        }
        lemma_split_join(front);
        lemma_split_concat(join(front), tokens.last());
        assert(is_word(tokens[tokens.len() - 1]));
        lemma_split_spaceless(tokens.last());
        assert(front + seq![tokens.last()] =~= tokens);
    }
}

/// A text that does not end with a space, a space, and a text that does
/// not start with one hold two spaces in a row only where one of the two
/// texts does.
pub proof fn lemma_space_between(front: Seq<char>, back: Seq<char>)
    requires
        front.len() > 0,
        front.last() != ' ',
        no_double_space(front),
        back.len() > 0 ==> back[0] != ' ',
        no_double_space(back),
    ensures
        no_double_space(front + seq![' '] + back),
{
    let text = front + seq![' '] + back;
    assert forall|i: int| 0 <= i < text.len() - 1 implies !(text[i] == ' ' && #[trigger] text[i
        + 1] == ' ') by {
        if i + 1 < front.len() {
            assert(text[i] == front[i]);
            assert(text[i + 1] == front[i + 1]);
        } else if i + 1 == front.len() {
            assert(text[i] == front.last());
        } else if i == front.len() {
            assert(text[i + 1] == back[0]);
        } else {
            assert(text[i] == back[i - front.len() - 1]);
            assert(text[i + 1] == back[i - front.len() - 1 + 1]);
        }
    }
}

/// Joined words are single-spaced.
pub proof fn lemma_join_single_spaced(tokens: Seq<Seq<char>>)
    requires
        tokens.len() > 0,
        all_words(tokens),
    ensures
        single_spaced(join(tokens)),
    decreases tokens.len(),
{
    if tokens.len() == 1 {
        assert(is_word(tokens[0]));
    } else {
        let front = tokens.drop_last();
        assert(all_words(front)) by {
            assert forall|k: int| 0 <= k < front.len() implies is_word(#[trigger] front[k]) by {
                assert(front[k] == tokens[k]);
            }
        }
        lemma_join_single_spaced(front);
        let word = tokens.last();
        assert(is_word(tokens[tokens.len() - 1]));
        let head = join(front);
        let text = join(tokens);
        assert(text == head + seq![' '] + word);
        lemma_space_between(head, word);
    }
}

} // verus!
