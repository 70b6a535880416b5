//! The option flags that sub-commands accept.

use crate::optionvec::Flag;
use vstd::prelude::*;

verus! {

/// Waiting for the effect of a command before it returns.
#[derive(Clone, Copy, Debug, PartialEq, Eq, Structural)]
pub enum SyncOption {
    /// Return only once the change has taken effect.
    Sync,
}

impl Flag for SyncOption {
    open spec fn token_text(&self) -> Seq<char> {
        match self {
            SyncOption::Sync => "--sync"@,
        }
    }

    proof fn lemma_token_is_word(&self) {
        reveal_strlit("--sync");
    }

    fn token(&self) -> (t: &'static str) {
        match self {
            SyncOption::Sync => "--sync",
        }
    }
}

/// How `set_desktop` reads its desktop number.
#[derive(Clone, Copy, Debug, PartialEq, Eq, Structural)]
pub enum SetDesktopOption {
    /// Move relative to the current desktop.
    Relative,
}

impl Flag for SetDesktopOption {
    open spec fn token_text(&self) -> Seq<char> {
        match self {
            SetDesktopOption::Relative => "--relative"@,
        }
    }

    proof fn lemma_token_is_word(&self) {
        reveal_strlit("--relative");
    }

    fn token(&self) -> (t: &'static str) {
        match self {
            SetDesktopOption::Relative => "--relative",
        }
    }
}

/// How keystrokes are sent.
#[derive(Clone, Copy, Debug, PartialEq, Eq, Structural)]
pub enum KeyboardOption {
    /// Release the modifiers that are held down before sending.
    ClearModifiers,
}

impl Flag for KeyboardOption {
    open spec fn token_text(&self) -> Seq<char> {
        match self {
            KeyboardOption::ClearModifiers => "--clearmodifiers"@,
        }
    }

    proof fn lemma_token_is_word(&self) {
        reveal_strlit("--clearmodifiers");
    }

    fn token(&self) -> (t: &'static str) {
        match self {
            KeyboardOption::ClearModifiers => "--clearmodifiers",
        }
    }
}

/// How the pointer is moved.
#[derive(Clone, Copy, Debug, PartialEq, Eq, Structural)]
pub enum MouseMoveOption {
    /// Read the coordinates as an angle and a distance.
    Polar,
    /// Release the modifiers that are held down before moving.
    ClearModifiers,
    /// Return only once the pointer has moved.
    Sync,
}

impl Flag for MouseMoveOption {
    open spec fn token_text(&self) -> Seq<char> {
        match self {
            MouseMoveOption::Polar => "--polar"@,
            MouseMoveOption::ClearModifiers => "--clearmodifiers"@,
            MouseMoveOption::Sync => "--sync"@,
        }
    }

    proof fn lemma_token_is_word(&self) {
        reveal_strlit("--polar");
        reveal_strlit("--clearmodifiers");
        reveal_strlit("--sync");
    }

    fn token(&self) -> (t: &'static str) {
        match self {
            MouseMoveOption::Polar => "--polar",
            MouseMoveOption::ClearModifiers => "--clearmodifiers",
            MouseMoveOption::Sync => "--sync",
        }
    }
}

/// How mouse buttons are pressed.
#[derive(Clone, Copy, Debug, PartialEq, Eq, Structural)]
pub enum ClickOption {
    /// Release the modifiers that are held down before pressing.
    ClearModifiers,
}

impl Flag for ClickOption {
    open spec fn token_text(&self) -> Seq<char> {
        match self {
            ClickOption::ClearModifiers => "--clearmodifiers"@,
        }
    }

    proof fn lemma_token_is_word(&self) {
        reveal_strlit("--clearmodifiers");
    }

    fn token(&self) -> (t: &'static str) {
        match self {
            ClickOption::ClearModifiers => "--clearmodifiers",
        }
    }
}

/// The form in which a query reports its answer.
#[derive(Clone, Copy, Debug, PartialEq, Eq, Structural)]
pub enum ShellOption {
    /// Print the answer as shell variable assignments.
    Shell,
}

impl Flag for ShellOption {
    open spec fn token_text(&self) -> Seq<char> {
        match self {
            ShellOption::Shell => "--shell"@,
        }
    }

    proof fn lemma_token_is_word(&self) {
        reveal_strlit("--shell");
    }

    fn token(&self) -> (t: &'static str) {
        match self {
            ShellOption::Shell => "--shell",
        }
    }
}

/// How `search` matches windows against its pattern.
#[derive(Clone, Copy, Debug, PartialEq, Eq, Structural)]
pub enum SearchOption {
    /// Match against the window class.
    Class,
    /// Match against the window class name.
    ClassName,
    /// Match against the window role.
    Role,
    /// Match against the window name.
    Name,
    /// Match against the window title.
    Title,
    /// Report only visible windows.
    OnlyVisible,
    /// Require every condition to match.
    All,
    /// Accept a match of any condition.
    Any,
    /// Block until a window matches.
    Sync,
}

impl Flag for SearchOption {
    open spec fn token_text(&self) -> Seq<char> {
        match self {
            SearchOption::Class => "--class"@,
            SearchOption::ClassName => "--classname"@,
            SearchOption::Role => "--role"@,
            SearchOption::Name => "--name"@,
            SearchOption::Title => "--title"@,
            SearchOption::OnlyVisible => "--onlyvisible"@,
            SearchOption::All => "--all"@,
            SearchOption::Any => "--any"@,
            SearchOption::Sync => "--sync"@,
        }
    }

    proof fn lemma_token_is_word(&self) {
        reveal_strlit("--class");
        reveal_strlit("--classname");
        reveal_strlit("--role");
        reveal_strlit("--name");
        reveal_strlit("--title");
        reveal_strlit("--onlyvisible");
        reveal_strlit("--all");
        reveal_strlit("--any");
        reveal_strlit("--sync");
    }

    fn token(&self) -> (t: &'static str) {
        match self {
            SearchOption::Class => "--class",
            SearchOption::ClassName => "--classname",
            SearchOption::Role => "--role",
            SearchOption::Name => "--name",
            SearchOption::Title => "--title",
            SearchOption::OnlyVisible => "--onlyvisible",
            SearchOption::All => "--all",
            SearchOption::Any => "--any",
            SearchOption::Sync => "--sync",
        }
    }
}

/// Which window `getwindowfocus` reports.
#[derive(Clone, Copy, Debug, PartialEq, Eq, Structural)]
pub enum GetWindowFocusOption {
    /// Report the focused window itself, even where it is not a top-level window.
    Exact,
}

impl Flag for GetWindowFocusOption {
    open spec fn token_text(&self) -> Seq<char> {
        match self {
            GetWindowFocusOption::Exact => "-f"@,
        }
    }

    proof fn lemma_token_is_word(&self) {
        reveal_strlit("-f");
    }

    fn token(&self) -> (t: &'static str) {
        match self {
            GetWindowFocusOption::Exact => "-f",
        }
    }
}

/// How `windowsize` reads and applies the size.
#[derive(Clone, Copy, Debug, PartialEq, Eq, Structural)]
pub enum WindowSizeOption {
    /// Read the size in units of the window's size hints.
    UseHints,
    /// Return only once the size has changed.
    Sync,
}

impl Flag for WindowSizeOption {
    open spec fn token_text(&self) -> Seq<char> {
        match self {
            WindowSizeOption::UseHints => "--usehints"@,
            WindowSizeOption::Sync => "--sync"@,
        }
    }

    proof fn lemma_token_is_word(&self) {
        reveal_strlit("--usehints");
        reveal_strlit("--sync");
    }

    fn token(&self) -> (t: &'static str) {
        match self {
            WindowSizeOption::UseHints => "--usehints",
            WindowSizeOption::Sync => "--sync",
        }
    }
}

/// How `windowmove` reads and applies the position.
#[derive(Clone, Copy, Debug, PartialEq, Eq, Structural)]
pub enum WindowMoveOption {
    /// Return only once the window has moved.
    Sync,
    /// Move relative to the window's current position.
    Relative,
}

impl Flag for WindowMoveOption {
    open spec fn token_text(&self) -> Seq<char> {
        match self {
            WindowMoveOption::Sync => "--sync"@,
            WindowMoveOption::Relative => "--relative"@,
        }
    }

    proof fn lemma_token_is_word(&self) {
        reveal_strlit("--sync");
        reveal_strlit("--relative");
    }

    fn token(&self) -> (t: &'static str) {
        match self {
            WindowMoveOption::Sync => "--sync",
            WindowMoveOption::Relative => "--relative",
        }
    }
}

} // verus!
