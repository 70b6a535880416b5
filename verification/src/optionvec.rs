//! Ordered collections of option flags.

use crate::tokens::{all_words, is_word, join, lemma_join_push, lemma_split_join, split};
use vstd::prelude::*;

verus! {

/// An option of a sub-command that is written as one fixed token.
pub trait Flag: Sized {
    /// The token that stands for this option on the command line.
    spec fn token_text(&self) -> Seq<char>;

    /// The token is never empty and holds no space.
    proof fn lemma_token_is_word(&self)
        ensures
            is_word(self.token_text()),
    ;

    /// The token that stands for this option on the command line.
    fn token(&self) -> (t: &'static str)
        ensures
            t@ == self.token_text(),
    ;
}

/// The options given to one sub-command, in the order in which they are
/// written on the command line.
#[derive(Clone, Debug)]
pub struct OptionVec<T>(pub Vec<T>);

impl<T> View for OptionVec<T> {
    type V = Seq<T>;

    open spec fn view(&self) -> Seq<T> {
        self.0@
    }
}

impl<T: Flag> OptionVec<T> {
    /// The tokens of the options: one per option, in the options' order.
    pub open spec fn tokens(&self) -> Seq<Seq<char>> {
        Seq::new(self@.len(), |i: int| self@[i].token_text())
    }

    /// The tokens separated by single spaces.
    pub open spec fn text(&self) -> Seq<char> {
        join(self.tokens())
    }

    /// No options.
    pub fn new() -> (options: Self)
        ensures
            options@ == Seq::<T>::empty(),
    {
        OptionVec(Vec::new())
    }

    /// Adds `option` behind those already present.
    pub fn push(&mut self, option: T)
        ensures
            final(self)@ == old(self)@.push(option),
    {
        self.0.push(option);
    }

    /// Every token of the options is a word.
    pub proof fn lemma_tokens_are_words(&self)
        ensures
            all_words(self.tokens()),
    {
        assert forall|k: int| 0 <= k < self.tokens().len() implies is_word(
            #[trigger] self.tokens()[k],
        ) by {
            self@[k].lemma_token_is_word();
        }
    }

    /// Each option contributes exactly one token, its own, at its own
    /// position; where there are no options there is no token and the text
    /// is empty, and otherwise the text split at its spaces gives the tokens
    /// back.
    pub proof fn lemma_one_token_per_option(&self)
        ensures
            self.tokens().len() == self@.len(),
            forall|i: int| 0 <= i < self@.len() ==> self.tokens()[i] == self@[i].token_text(),
            self@.len() == 0 ==> self.text() == Seq::<char>::empty(),
            self@.len() > 0 ==> split(self.text()) == self.tokens(),
    {
        if self@.len() > 0 {
            self.lemma_tokens_are_words();
            lemma_split_join(self.tokens());
        }
    }

    /// The tokens and the text depend on nothing but the options held and
    /// their order.
    pub proof fn lemma_tokens_follow_view(a: &Self, b: &Self)
        requires
            a@ == b@,
        ensures
            a.tokens() == b.tokens(),
            a.text() == b.text(),
    {
    }

    /// The options' tokens separated by single spaces; the empty text where
    /// there is no option.
    pub fn render(&self) -> (text: String)
        ensures
            text@ == self.text(),
    {
        if self.0.len() == 0 {
            assert(self.tokens() =~= Seq::empty());
            String::new()
        } else {
            let mut text = String::from_str(self.0[0].token());
            let ghost first = seq![self.tokens()[0]];
            assert(first + self.tokens().skip(1) =~= self.tokens());
            self.append_from(1, &mut text, Ghost(first));
            text
        }
    }

    /// Appends to `line` a space and a token for each option, where `line`
    /// holds the joined tokens `before`.
    pub(crate) fn append_to(&self, line: &mut String, Ghost(before): Ghost<Seq<Seq<char>>>)
        requires
            before.len() > 0,
            old(line)@ == join(before),
        ensures
            final(line)@ == join(before + self.tokens()),
    {
        assert(self.tokens().skip(0) =~= self.tokens());
        self.append_from(0, line, Ghost(before));
    }

    /// Appends to `line` a space and a token for each option from position
    /// `start` on, where `line` holds the joined tokens `before`.
    fn append_from(
        &self,
        start: usize,
        line: &mut String,
        Ghost(before): Ghost<Seq<Seq<char>>>,
    )
        requires
            start <= self@.len(),
            before.len() > 0,
            old(line)@ == join(before),
        ensures
            final(line)@ == join(before + self.tokens().skip(start as int)),
    {
        let mut i: usize = start;
        assert(before + self.tokens().subrange(start as int, start as int) =~= before);
        while i < self.0.len()
            invariant
                start <= i <= self@.len(),
                before.len() > 0,
                line@ == join(before + self.tokens().subrange(start as int, i as int)),
            decreases self@.len() - i,
        {
            let t = self.0[i].token();
            proof {
                let done = before + self.tokens().subrange(start as int, i as int);
                lemma_join_push(done, t@);
                assert(done.push(t@) =~= before + self.tokens().subrange(
                    start as int,
                    i + 1,
                ));
                reveal_strlit(" ");
                assert(" "@ =~= seq![' ']);
            }
            line.append(" ");
            line.append(t);
            i += 1;
        }
        assert(self.tokens().subrange(start as int, i as int) =~= self.tokens().skip(
            start as int,
        ));
    }
}

} // verus!
