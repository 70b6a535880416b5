//! Descriptions of child processes to start.

use vstd::prelude::*;

verus! {

/// A variable that is set in the environment of a child process.
#[derive(Clone, Debug, PartialEq, Eq)]
pub struct EnvVar {
    pub name: String,
    pub value: String,
}

impl View for EnvVar {
    type V = (Seq<char>, Seq<char>);

    open spec fn view(&self) -> (Seq<char>, Seq<char>) {
        (self.name@, self.value@)
    }
}

/// A child process to start: the program, its arguments, and the variables
/// that are set for the child alone, on top of the environment it inherits.
#[derive(Clone, Debug, PartialEq, Eq)]
pub struct Invocation {
    pub program: String,
    pub args: Vec<String>,
    pub env: Vec<EnvVar>,
}

/// What an [`Invocation`] holds, as plain sequences.
pub struct InvocationView {
    pub program: Seq<char>,
    pub args: Seq<Seq<char>>,
    pub env: Seq<(Seq<char>, Seq<char>)>,
}

impl View for Invocation {
    type V = InvocationView;

    open spec fn view(&self) -> InvocationView {
        InvocationView {
            program: self.program@,
            args: self.args@.map_values(|a: String| a@),
            env: self.env@.map_values(|v: EnvVar| v@),
        }
    }
}

} // verus!
