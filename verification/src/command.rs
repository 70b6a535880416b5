//! The commands of the tool and their textual form.

use crate::tokens::{
    all_words, join, lemma_join_single_spaced, lemma_split_join, single_spaced, split,
};
use vstd::prelude::*;

pub mod options;
pub mod sub_commands;

verus! {

/// A command of the tool: a category and an action within it.
#[derive(Clone, Debug)]
pub enum Command {
    /// An action on desktops and on the windows they show.
    Desktop(sub_commands::Desktop),
    /// An action that sends keystrokes.
    Keyboard(sub_commands::Keyboard),
    /// An action that concerns no window.
    Misc(sub_commands::Misc),
    /// An action on the pointer and its buttons.
    Mouse(sub_commands::Mouse),
    /// An action that finds, queries or changes windows.
    Window(sub_commands::Window),
}

impl Command {
    /// The name of the action on the command line.
    pub open spec fn name_text(&self) -> Seq<char> {
        match self {
            Command::Desktop(action) => action.name_text(),
            Command::Keyboard(action) => action.name_text(),
            Command::Misc(action) => action.name_text(),
            Command::Mouse(action) => action.name_text(),
            Command::Window(action) => action.name_text(),
        }
    }

    /// The tokens of the options that the action carries, in their order.
    pub open spec fn flag_tokens(&self) -> Seq<Seq<char>> {
        match self {
            Command::Desktop(action) => action.flag_tokens(),
            Command::Keyboard(action) => action.flag_tokens(),
            Command::Misc(action) => action.flag_tokens(),
            Command::Mouse(action) => action.flag_tokens(),
            Command::Window(action) => action.flag_tokens(),
        }
    }

    /// The tokens of the command: the action's name, then one token for each
    /// of its options.
    pub open spec fn tokens(&self) -> Seq<Seq<char>> {
        seq![self.name_text()] + self.flag_tokens()
    }

    /// The command as the tool reads it: its tokens separated by single
    /// spaces.
    pub open spec fn text(&self) -> Seq<char> {
        join(self.tokens())
    }

    /// Writes the command as the tool reads it.
    pub fn render(&self) -> (text: String)
        ensures
            text@ == self.text(),
    {
        match self {
            Command::Desktop(action) => action.render(),
            Command::Keyboard(action) => action.render(),
            Command::Misc(action) => action.render(),
            Command::Mouse(action) => action.render(),
            Command::Window(action) => action.render(),
        }
    }

    /// Every token of a command is a word: none is empty, none holds a
    /// space.
    pub proof fn lemma_tokens_are_words(&self)
        ensures
            all_words(self.tokens()),
    {
        match self {
            Command::Desktop(action) => action.lemma_tokens_are_words(),
            Command::Keyboard(action) => action.lemma_tokens_are_words(),
            Command::Misc(action) => action.lemma_tokens_are_words(),
            Command::Mouse(action) => action.lemma_tokens_are_words(),
            Command::Window(action) => action.lemma_tokens_are_words(),
        }
    }

    /// The text of a command reads back as its tokens: split at its spaces
    /// it gives the action's name and then one token for each option, in the
    /// options' order, and it has no space at either end and no two in a
    /// row.
    pub proof fn lemma_text_reads_as_tokens(&self)
        ensures
            split(self.text()) == self.tokens(),
            single_spaced(self.text()),
    {
        self.lemma_tokens_are_words();
        lemma_split_join(self.tokens());
        lemma_join_single_spaced(self.tokens());
    }

    /// Rendering depends on nothing but the command: equal commands have the
    /// same tokens and the same text.
    pub proof fn lemma_rendering_is_deterministic(a: Command, b: Command)
        requires
            a == b,
        ensures
            a.tokens() == b.tokens(),
            a.text() == b.text(),
    {
    }
}

} // verus!
