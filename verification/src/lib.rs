//! Typed construction of `xdotool` and `xwd` invocations for an X11 session.
//!
//! A [`command::Command`] names an action of the tool together with its
//! option flags and renders itself to the text that the tool reads. An
//! [`XServer`] turns a command and its positional arguments into the
//! [`invocation::Invocation`] that runs it against that session.

use crate::command::Command;
use crate::decimal::{decimal, to_decimal};
use crate::invocation::{EnvVar, Invocation, InvocationView};
use crate::tokens::{
    all_words, join, lemma_join_concat, lemma_join_single_spaced, lemma_space_between,
    lemma_split_concat, lemma_split_join, no_double_space, split,
};
use vstd::prelude::*;

pub mod command;
pub mod decimal;
pub mod desktop;
pub mod invocation;
pub mod optionvec;
pub mod tokens;

verus! {

/// The X11 session that commands are addressed to: a display number and the
/// path of the authority file that grants access to it.
#[derive(Clone, Debug)]
pub struct XServer {
    pub display: u32,
    pub auth: String,
}

/// The line that a shell is given to run `command` with the positional
/// arguments `args`: the tool's name, the command's text and the arguments,
/// with one space after each of the first two.
pub open spec fn command_line(command: Command, args: Seq<char>) -> Seq<char> {
    "xdotool"@ + seq![' '] + command.text() + seq![' '] + args
}

/// The tokens of the tool's name and of a command, in the order in which
/// they stand on the line.
pub open spec fn line_head(command: Command) -> Seq<Seq<char>> {
    seq!["xdotool"@] + command.tokens()
}

/// The part of a command line before the space that precedes the
/// arguments is the joined tokens of the tool's name and the command, all of
/// them words.
proof fn lemma_line_head(command: Command, args: Seq<char>)
    ensures
        all_words(line_head(command)),
        command_line(command, args) == join(line_head(command)) + seq![' '] + args,
{
    reveal_strlit("xdotool");
    command.lemma_tokens_are_words();
    lemma_join_concat(seq!["xdotool"@], command.tokens());
    assert(command_line(command, args) =~= join(line_head(command)) + seq![' '] + args);
}

/// Split at its spaces, a command line gives the tool's name, the
/// command's name, one token for each option in the options' order, and
/// then the pieces of the arguments.
pub proof fn lemma_line_tokens(command: Command, args: Seq<char>)
    ensures
        split(command_line(command, args)) == line_head(command) + split(args),
{
    lemma_line_head(command, args);
    lemma_split_join(line_head(command));
    lemma_split_concat(join(line_head(command)), args);
}

/// A command line does not start with a space, and it holds two spaces in
/// a row only where the arguments start with a space or hold two in a row
/// themselves. Empty arguments leave the one space that follows the
/// command at the end of the line, and no second one.
pub proof fn lemma_line_spacing(command: Command, args: Seq<char>)
    requires
        args.len() > 0 ==> args[0] != ' ',
        no_double_space(args),
    ensures
        command_line(command, args)[0] != ' ',
        no_double_space(command_line(command, args)),
{
    lemma_line_head(command, args);
    lemma_join_single_spaced(line_head(command));
    lemma_space_between(join(line_head(command)), args);
}

impl XServer {
    /// The value of the display variable: a colon and the display number in
    /// decimal notation.
    pub open spec fn display_text(&self) -> Seq<char> {
        seq![':'] + decimal(self.display as nat)
    }

    /// The variables set for every child process: the display, then the
    /// authority file.
    pub open spec fn environment(&self) -> Seq<(Seq<char>, Seq<char>)> {
        seq![("DISPLAY"@, self.display_text()), ("XAUTHORITY"@, self.auth@)]
    }

    /// The invocation that [`XServer::run`] builds.
    pub open spec fn run_view(&self, command: Command, args: Seq<char>) -> InvocationView {
        InvocationView {
            program: "sh"@,
            args: seq!["-c"@, command_line(command, args)],
            env: self.environment(),
        }
    }

    /// The invocation that [`XServer::screenshot`] builds.
    pub open spec fn screenshot_view(&self) -> InvocationView {
        InvocationView { program: "xwd"@, args: seq!["-root"@], env: self.environment() }
    }

    /// The display variable is set exactly once, to a colon and the display
    /// number: no other entry of the environment names it.
    pub proof fn lemma_display_set_once(&self)
        ensures
            self.environment()[0] == ("DISPLAY"@, self.display_text()),
            forall|i: int|
                0 <= i < self.environment().len() && (#[trigger] self.environment()[i]).0
                    == "DISPLAY"@ ==> i == 0,
    {
        reveal_strlit("DISPLAY");
        reveal_strlit("XAUTHORITY");
        assert("DISPLAY"@[0] != "XAUTHORITY"@[0]);
    }

    /// The variables set for every child process.
    fn child_environment(&self) -> (env: Vec<EnvVar>)
        ensures
            env@.map_values(|v: EnvVar| v@) == self.environment(),
    {
        let mut display = String::from_str(":");
        display.append(to_decimal(self.display as u64).as_str());
        proof {
            reveal_strlit(":");
            assert(display@ =~= self.display_text());
        }
        let mut env: Vec<EnvVar> = Vec::new();
        env.push(EnvVar { name: String::from_str("DISPLAY"), value: display });
        env.push(EnvVar { name: String::from_str("XAUTHORITY"), value: self.auth.clone() });
        assert(env@.map_values(|v: EnvVar| v@) =~= self.environment());
        env
    }

    /// The invocation that runs `command` with the positional arguments
    /// `args` on this session. The line is handed to a shell, which
    /// interprets whatever shell syntax `args` holds.
    pub fn run(&self, command: Command, args: &str) -> (inv: Invocation)
        ensures
            inv@ == self.run_view(command, args@),
    {
        let mut line = String::from_str("xdotool");
        line.append(" ");
        line.append(command.render().as_str());
        line.append(" ");
        line.append(args);
        proof {
            reveal_strlit(" ");
            assert(line@ =~= command_line(command, args@));
        }
        let mut argv: Vec<String> = Vec::new();
        argv.push(String::from_str("-c"));
        argv.push(line);
        let inv = Invocation {
            program: String::from_str("sh"),
            args: argv,
            env: self.child_environment(),
        };
        assert(inv@.args =~= self.run_view(command, args@).args);
        inv
    }

    /// The invocation that dumps the root window of this session as an image
    /// on its standard output.
    pub fn screenshot(&self) -> (inv: Invocation)
        ensures
            inv@ == self.screenshot_view(),
    {
        let mut argv: Vec<String> = Vec::new();
        argv.push(String::from_str("-root"));
        let inv = Invocation {
            program: String::from_str("xwd"),
            args: argv,
            env: self.child_environment(),
        };
        assert(inv@.args =~= self.screenshot_view().args);
        inv
    }
}

} // verus!
