//! The actions of each command category.

use crate::command::options::{
    ClickOption, GetWindowFocusOption, KeyboardOption, MouseMoveOption, SearchOption,
    SetDesktopOption, ShellOption, SyncOption, WindowMoveOption, WindowSizeOption,
};
use crate::optionvec::OptionVec;
use crate::tokens::{all_words, is_word, join};
use vstd::prelude::*;

verus! {

/// Commands on desktops and on the windows they show.
#[derive(Clone, Debug)]
pub enum Desktop {
    /// Activate a window, switching to its desktop where needed.
    WindowActivate(OptionVec<SyncOption>),
    /// Report the active window.
    GetActiveWindow,
    /// Change the number of desktops.
    SetNumDesktops,
    /// Report the number of desktops.
    GetNumDesktops,
    /// Report the position of the viewport.
    GetDesktopViewport,
    /// Move the viewport.
    SetDesktopViewport,
    /// Switch to a desktop.
    SetDesktop(OptionVec<SetDesktopOption>),
    /// Report the desktop in view.
    GetDesktop,
    /// Move a window to a desktop.
    SetDesktopForWindow,
    /// Report the desktop that holds a window.
    GetDesktopForWindow,
}

impl Desktop {
    /// The name of the action on the command line.
    pub open spec fn name_text(&self) -> Seq<char> {
        match self {
            Desktop::WindowActivate(_) => "windowactivate"@,
            Desktop::GetActiveWindow => "getactivewindow"@,
            Desktop::SetNumDesktops => "set_num_desktops"@,
            Desktop::GetNumDesktops => "get_num_desktops"@,
            Desktop::GetDesktopViewport => "get_desktop_viewport"@,
            Desktop::SetDesktopViewport => "set_desktop_viewport"@,
            Desktop::SetDesktop(_) => "set_desktop"@,
            Desktop::GetDesktop => "get_desktop"@,
            Desktop::SetDesktopForWindow => "set_desktop_for_window"@,
            Desktop::GetDesktopForWindow => "get_desktop_for_window"@,
        }
    }

    /// The tokens of the options that the action carries, in their order.
    pub open spec fn flag_tokens(&self) -> Seq<Seq<char>> {
        match self {
            Desktop::WindowActivate(options) => options.tokens(),
            Desktop::SetDesktop(options) => options.tokens(),
            _ => Seq::empty(),
        }
    }

    /// The action's name followed by the tokens of its options.
    pub open spec fn tokens(&self) -> Seq<Seq<char>> {
        seq![self.name_text()] + self.flag_tokens()
    }

    /// The name of an action is never empty and holds no space.
    pub proof fn lemma_name_is_word(&self)
        ensures
            is_word(self.name_text()),
    {
        reveal_strlit("windowactivate");
        reveal_strlit("getactivewindow");
        reveal_strlit("set_num_desktops");
        reveal_strlit("get_num_desktops");
        reveal_strlit("get_desktop_viewport");
        reveal_strlit("set_desktop_viewport");
        reveal_strlit("set_desktop");
        reveal_strlit("get_desktop");
        reveal_strlit("set_desktop_for_window");
        reveal_strlit("get_desktop_for_window");
    }

    /// Every token of an action is a word.
    pub proof fn lemma_tokens_are_words(&self)
        ensures
            all_words(self.tokens()),
    {
        self.lemma_name_is_word();
        match self {
            Desktop::WindowActivate(options) => options.lemma_tokens_are_words(),
            Desktop::SetDesktop(options) => options.lemma_tokens_are_words(),
            _ => {},
        }
    }

    /// The name of the action on the command line.
    pub fn name(&self) -> (name: &'static str)
        ensures
            name@ == self.name_text(),
    {
        match self {
            Desktop::WindowActivate(_) => "windowactivate",
            Desktop::GetActiveWindow => "getactivewindow",
            Desktop::SetNumDesktops => "set_num_desktops",
            Desktop::GetNumDesktops => "get_num_desktops",
            Desktop::GetDesktopViewport => "get_desktop_viewport",
            Desktop::SetDesktopViewport => "set_desktop_viewport",
            Desktop::SetDesktop(_) => "set_desktop",
            Desktop::GetDesktop => "get_desktop",
            Desktop::SetDesktopForWindow => "set_desktop_for_window",
            Desktop::GetDesktopForWindow => "get_desktop_for_window",
        }
    }

    /// The action's name and the tokens of its options, separated by single
    /// spaces.
    pub fn render(&self) -> (text: String)
        ensures
            text@ == join(self.tokens()),
    {
        let mut text = String::from_str(self.name());
        let ghost head = seq![self.name_text()];
        match self {
            Desktop::WindowActivate(options) => {
                options.append_to(&mut text, Ghost(head));
            },
            Desktop::SetDesktop(options) => {
                options.append_to(&mut text, Ghost(head));
            },
            _ => {
                assert(head + self.flag_tokens() =~= head);
            },
        }
        text
    }
}

/// Commands that send keystrokes.
#[derive(Clone, Debug)]
pub enum Keyboard {
    /// Press and release a keystroke.
    Key(OptionVec<KeyboardOption>),
    /// Press a keystroke without releasing it.
    KeyDown(OptionVec<KeyboardOption>),
    /// Release a keystroke.
    KeyUp(OptionVec<KeyboardOption>),
    /// Type a text.
    Type(OptionVec<KeyboardOption>),
}

impl Keyboard {
    /// The name of the action on the command line.
    pub open spec fn name_text(&self) -> Seq<char> {
        match self {
            Keyboard::Key(_) => "key"@,
            Keyboard::KeyDown(_) => "keydown"@,
            Keyboard::KeyUp(_) => "keyup"@,
            Keyboard::Type(_) => "type"@,
        }
    }

    /// The tokens of the options that the action carries, in their order.
    pub open spec fn flag_tokens(&self) -> Seq<Seq<char>> {
        match self {
            Keyboard::Key(options) => options.tokens(),
            Keyboard::KeyDown(options) => options.tokens(),
            Keyboard::KeyUp(options) => options.tokens(),
            Keyboard::Type(options) => options.tokens(),
        }
    }

    /// The action's name followed by the tokens of its options.
    pub open spec fn tokens(&self) -> Seq<Seq<char>> {
        seq![self.name_text()] + self.flag_tokens()
    }

    /// The name of an action is never empty and holds no space.
    pub proof fn lemma_name_is_word(&self)
        ensures
            is_word(self.name_text()),
    {
        reveal_strlit("key");
        reveal_strlit("keydown");
        reveal_strlit("keyup");
        reveal_strlit("type");
    }

    /// Every token of an action is a word.
    pub proof fn lemma_tokens_are_words(&self)
        ensures
            all_words(self.tokens()),
    {
        self.lemma_name_is_word();
        match self {
            Keyboard::Key(options) => options.lemma_tokens_are_words(),
            Keyboard::KeyDown(options) => options.lemma_tokens_are_words(),
            Keyboard::KeyUp(options) => options.lemma_tokens_are_words(),
            Keyboard::Type(options) => options.lemma_tokens_are_words(),
        }
    }

    /// The name of the action on the command line.
    pub fn name(&self) -> (name: &'static str)
        ensures
            name@ == self.name_text(),
    {
        match self {
            Keyboard::Key(_) => "key",
            Keyboard::KeyDown(_) => "keydown",
            Keyboard::KeyUp(_) => "keyup",
            Keyboard::Type(_) => "type",
        }
    }

    /// The action's name and the tokens of its options, separated by single
    /// spaces.
    pub fn render(&self) -> (text: String)
        ensures
            text@ == join(self.tokens()),
    {
        let mut text = String::from_str(self.name());
        let ghost head = seq![self.name_text()];
        match self {
            Keyboard::Key(options) => {
                options.append_to(&mut text, Ghost(head));
            },
            Keyboard::KeyDown(options) => {
                options.append_to(&mut text, Ghost(head));
            },
            Keyboard::KeyUp(options) => {
                options.append_to(&mut text, Ghost(head));
            },
            Keyboard::Type(options) => {
                options.append_to(&mut text, Ghost(head));
            },
        }
        text
    }
}

/// Commands on the pointer and its buttons.
#[derive(Clone, Debug)]
pub enum Mouse {
    /// Move the pointer to a position.
    MouseMove(OptionVec<MouseMoveOption>),
    /// Move the pointer relative to where it is.
    MouseMoveRelative(OptionVec<MouseMoveOption>),
    /// Press and release a button.
    Click(OptionVec<ClickOption>),
    /// Press a button without releasing it.
    MouseDown(OptionVec<ClickOption>),
    /// Release a button.
    MouseUp(OptionVec<ClickOption>),
    /// Report the position of the pointer.
    GetMouseLocation(OptionVec<ShellOption>),
    /// Bind a command to the pointer reaching a screen edge.
    BehaveScreenEdge,
}

impl Mouse {
    /// The name of the action on the command line.
    pub open spec fn name_text(&self) -> Seq<char> {
        match self {
            Mouse::MouseMove(_) => "mousemove"@,
            Mouse::MouseMoveRelative(_) => "mousemove_relative"@,
            Mouse::Click(_) => "click"@,
            Mouse::MouseDown(_) => "mousedown"@,
            Mouse::MouseUp(_) => "mouseup"@,
            Mouse::GetMouseLocation(_) => "getmouselocation"@,
            Mouse::BehaveScreenEdge => "behave_screen_edge"@,
        }
    }

    /// The tokens of the options that the action carries, in their order.
    pub open spec fn flag_tokens(&self) -> Seq<Seq<char>> {
        match self {
            Mouse::MouseMove(options) => options.tokens(),
            Mouse::MouseMoveRelative(options) => options.tokens(),
            Mouse::Click(options) => options.tokens(),
            Mouse::MouseDown(options) => options.tokens(),
            Mouse::MouseUp(options) => options.tokens(),
            Mouse::GetMouseLocation(options) => options.tokens(),
            _ => Seq::empty(),
        }
    }

    /// The action's name followed by the tokens of its options.
    pub open spec fn tokens(&self) -> Seq<Seq<char>> {
        seq![self.name_text()] + self.flag_tokens()
    }

    /// The name of an action is never empty and holds no space.
    pub proof fn lemma_name_is_word(&self)
        ensures
            is_word(self.name_text()),
    {
        reveal_strlit("mousemove");
        reveal_strlit("mousemove_relative");
        reveal_strlit("click");
        reveal_strlit("mousedown");
        reveal_strlit("mouseup");
        reveal_strlit("getmouselocation");
        reveal_strlit("behave_screen_edge");
    }

    /// Every token of an action is a word.
    pub proof fn lemma_tokens_are_words(&self)
        ensures
            all_words(self.tokens()),
    {
        self.lemma_name_is_word();
        match self {
            Mouse::MouseMove(options) => options.lemma_tokens_are_words(),
            Mouse::MouseMoveRelative(options) => options.lemma_tokens_are_words(),
            Mouse::Click(options) => options.lemma_tokens_are_words(),
            Mouse::MouseDown(options) => options.lemma_tokens_are_words(),
            Mouse::MouseUp(options) => options.lemma_tokens_are_words(),
            Mouse::GetMouseLocation(options) => options.lemma_tokens_are_words(),
            _ => {},
        }
    }

    /// The name of the action on the command line.
    pub fn name(&self) -> (name: &'static str)
        ensures
            name@ == self.name_text(),
    {
        match self {
            Mouse::MouseMove(_) => "mousemove",
            Mouse::MouseMoveRelative(_) => "mousemove_relative",
            Mouse::Click(_) => "click",
            Mouse::MouseDown(_) => "mousedown",
            Mouse::MouseUp(_) => "mouseup",
            Mouse::GetMouseLocation(_) => "getmouselocation",
            Mouse::BehaveScreenEdge => "behave_screen_edge",
        }
    }

    /// The action's name and the tokens of its options, separated by single
    /// spaces.
    pub fn render(&self) -> (text: String)
        ensures
            text@ == join(self.tokens()),
    {
        let mut text = String::from_str(self.name());
        let ghost head = seq![self.name_text()];
        match self {
            Mouse::MouseMove(options) => {
                options.append_to(&mut text, Ghost(head));
            },
            Mouse::MouseMoveRelative(options) => {
                options.append_to(&mut text, Ghost(head));
            },
            Mouse::Click(options) => {
                options.append_to(&mut text, Ghost(head));
            },
            Mouse::MouseDown(options) => {
                options.append_to(&mut text, Ghost(head));
            },
            Mouse::MouseUp(options) => {
                options.append_to(&mut text, Ghost(head));
            },
            Mouse::GetMouseLocation(options) => {
                options.append_to(&mut text, Ghost(head));
            },
            _ => {
                assert(head + self.flag_tokens() =~= head);
            },
        }
        text
    }
}

/// Commands that find, query and change windows.
#[derive(Clone, Debug)]
pub enum Window {
    /// Find the windows that match a pattern.
    Search(OptionVec<SearchOption>),
    /// Report the window that is clicked next.
    SelectWindow,
    /// Bind a command to an event of a window.
    Behave,
    /// Report the process that owns a window.
    GetWindowPID,
    /// Report the name of a window.
    GetWindowName,
    /// Report the position and size of a window.
    GetWindowGeometry(OptionVec<ShellOption>),
    /// Report the window that has the focus.
    GetWindowFocus(OptionVec<GetWindowFocusOption>),
    /// Resize a window.
    WindowSize(OptionVec<WindowSizeOption>),
    /// Move a window.
    WindowMove(OptionVec<WindowMoveOption>),
    /// Give a window the focus.
    WindowFocus(OptionVec<SyncOption>),
    /// Make a window visible.
    WindowMap(OptionVec<SyncOption>),
    /// Minimize a window.
    WindowMinimize(OptionVec<SyncOption>),
    /// Raise a window to the top of the stack.
    WindowRaise,
    /// Give a window another parent.
    WindowReparent,
    /// Close a window.
    WindowClose,
    /// Close a window and end the client that owns it.
    WindowKill,
    /// Hide a window.
    WindowUnmap(OptionVec<SyncOption>),
    /// Set properties of a window.
    SetWindow,
}

impl Window {
    /// The name of the action on the command line.
    pub open spec fn name_text(&self) -> Seq<char> {
        match self {
            Window::Search(_) => "search"@,
            Window::SelectWindow => "selectwindow"@,
            Window::Behave => "behave"@,
            Window::GetWindowPID => "getwindowpid"@,
            Window::GetWindowName => "getwindowname"@,
            Window::GetWindowGeometry(_) => "getwindowgeometry"@,
            Window::GetWindowFocus(_) => "getwindowfocus"@,
            Window::WindowSize(_) => "windowsize"@,
            Window::WindowMove(_) => "windowmove"@,
            Window::WindowFocus(_) => "windowfocus"@,
            Window::WindowMap(_) => "windowmap"@,
            Window::WindowMinimize(_) => "windowminimize"@,
            Window::WindowRaise => "windowraise"@,
            Window::WindowReparent => "windowreparent"@,
            Window::WindowClose => "windowclose"@,
            Window::WindowKill => "windowkill"@,
            Window::WindowUnmap(_) => "windowunmap"@,
            Window::SetWindow => "set_window"@,
        }
    }

    /// The tokens of the options that the action carries, in their order.
    pub open spec fn flag_tokens(&self) -> Seq<Seq<char>> {
        match self {
            Window::Search(options) => options.tokens(),
            Window::GetWindowGeometry(options) => options.tokens(),
            Window::GetWindowFocus(options) => options.tokens(),
            Window::WindowSize(options) => options.tokens(),
            Window::WindowMove(options) => options.tokens(),
            Window::WindowFocus(options) => options.tokens(),
            Window::WindowMap(options) => options.tokens(),
            Window::WindowMinimize(options) => options.tokens(),
            Window::WindowUnmap(options) => options.tokens(),
            _ => Seq::empty(),
        }
    }

    /// The action's name followed by the tokens of its options.
    pub open spec fn tokens(&self) -> Seq<Seq<char>> {
        seq![self.name_text()] + self.flag_tokens()
    }

    /// The name of an action is never empty and holds no space.
    pub proof fn lemma_name_is_word(&self)
        ensures
            is_word(self.name_text()),
    {
        reveal_strlit("search");
        reveal_strlit("selectwindow");
        reveal_strlit("behave");
        reveal_strlit("getwindowpid");
        reveal_strlit("getwindowname");
        reveal_strlit("getwindowgeometry");
        reveal_strlit("getwindowfocus");
        reveal_strlit("windowsize");
        reveal_strlit("windowmove");
        reveal_strlit("windowfocus");
        reveal_strlit("windowmap");
        reveal_strlit("windowminimize");
        reveal_strlit("windowraise");
        reveal_strlit("windowreparent");
        reveal_strlit("windowclose");
        reveal_strlit("windowkill");
        reveal_strlit("windowunmap");
        reveal_strlit("set_window");
    }

    /// Every token of an action is a word.
    pub proof fn lemma_tokens_are_words(&self)
        ensures
            all_words(self.tokens()),
    {
        self.lemma_name_is_word();
        match self {
            Window::Search(options) => options.lemma_tokens_are_words(),
            Window::GetWindowGeometry(options) => options.lemma_tokens_are_words(),
            Window::GetWindowFocus(options) => options.lemma_tokens_are_words(),
            Window::WindowSize(options) => options.lemma_tokens_are_words(),
            Window::WindowMove(options) => options.lemma_tokens_are_words(),
            Window::WindowFocus(options) => options.lemma_tokens_are_words(),
            Window::WindowMap(options) => options.lemma_tokens_are_words(),
            Window::WindowMinimize(options) => options.lemma_tokens_are_words(),
            Window::WindowUnmap(options) => options.lemma_tokens_are_words(),
            _ => {},
        }
    }

    /// The name of the action on the command line.
    pub fn name(&self) -> (name: &'static str)
        ensures
            name@ == self.name_text(),
    {
        match self {
            Window::Search(_) => "search",
            Window::SelectWindow => "selectwindow",
            Window::Behave => "behave",
            Window::GetWindowPID => "getwindowpid",
            Window::GetWindowName => "getwindowname",
            Window::GetWindowGeometry(_) => "getwindowgeometry",
            Window::GetWindowFocus(_) => "getwindowfocus",
            Window::WindowSize(_) => "windowsize",
            Window::WindowMove(_) => "windowmove",
            Window::WindowFocus(_) => "windowfocus",
            Window::WindowMap(_) => "windowmap",
            Window::WindowMinimize(_) => "windowminimize",
            Window::WindowRaise => "windowraise",
            Window::WindowReparent => "windowreparent",
            Window::WindowClose => "windowclose",
            Window::WindowKill => "windowkill",
            Window::WindowUnmap(_) => "windowunmap",
            Window::SetWindow => "set_window",
        }
    }

    /// The action's name and the tokens of its options, separated by single
    /// spaces.
    pub fn render(&self) -> (text: String)
        ensures
            text@ == join(self.tokens()),
    {
        let mut text = String::from_str(self.name());
        let ghost head = seq![self.name_text()];
        match self {
            Window::Search(options) => {
                options.append_to(&mut text, Ghost(head));
            },
            Window::GetWindowGeometry(options) => {
                options.append_to(&mut text, Ghost(head));
            },
            Window::GetWindowFocus(options) => {
                options.append_to(&mut text, Ghost(head));
            },
            Window::WindowSize(options) => {
                options.append_to(&mut text, Ghost(head));
            },
            Window::WindowMove(options) => {
                options.append_to(&mut text, Ghost(head));
            },
            Window::WindowFocus(options) => {
                options.append_to(&mut text, Ghost(head));
            },
            Window::WindowMap(options) => {
                options.append_to(&mut text, Ghost(head));
            },
            Window::WindowMinimize(options) => {
                options.append_to(&mut text, Ghost(head));
            },
            Window::WindowUnmap(options) => {
                options.append_to(&mut text, Ghost(head));
            },
            _ => {
                assert(head + self.flag_tokens() =~= head);
            },
        }
        text
    }
}

/// Commands that act on no window.
#[derive(Clone, Debug)]
pub enum Misc {
    /// Run a program.
    Exec(OptionVec<SyncOption>),
    /// Pause for a number of seconds.
    Sleep,
}

impl Misc {
    /// The name of the action on the command line.
    pub open spec fn name_text(&self) -> Seq<char> {
        match self {
            Misc::Exec(_) => "exec"@,
            Misc::Sleep => "sleep"@,
        }
    }

    /// The tokens of the options that the action carries, in their order.
    pub open spec fn flag_tokens(&self) -> Seq<Seq<char>> {
        match self {
            Misc::Exec(options) => options.tokens(),
            _ => Seq::empty(),
        }
    }

    /// The action's name followed by the tokens of its options.
    pub open spec fn tokens(&self) -> Seq<Seq<char>> {
        seq![self.name_text()] + self.flag_tokens()
    }

    /// The name of an action is never empty and holds no space.
    pub proof fn lemma_name_is_word(&self)
        ensures
            is_word(self.name_text()),
    {
        reveal_strlit("exec");
        reveal_strlit("sleep");
    }

    /// Every token of an action is a word.
    pub proof fn lemma_tokens_are_words(&self)
        ensures
            all_words(self.tokens()),
    {
        self.lemma_name_is_word();
        match self {
            Misc::Exec(options) => options.lemma_tokens_are_words(),
            _ => {},
        }
    }

    /// The name of the action on the command line.
    pub fn name(&self) -> (name: &'static str)
        ensures
            name@ == self.name_text(),
    {
        match self {
            Misc::Exec(_) => "exec",
            Misc::Sleep => "sleep",
        }
    }

    /// The action's name and the tokens of its options, separated by single
    /// spaces.
    pub fn render(&self) -> (text: String)
        ensures
            text@ == join(self.tokens()),
    {
        let mut text = String::from_str(self.name());
        let ghost head = seq![self.name_text()];
        match self {
            Misc::Exec(options) => {
                options.append_to(&mut text, Ghost(head));
            },
            _ => {
                assert(head + self.flag_tokens() =~= head);
            },
        }
        text
    }
}

} // verus!
