//! The description of a process that the host is asked to start.

use vstd::prelude::*;

verus! {

/// How to start a context server: what to run, with which arguments, and
/// which environment variables to set on top of the host's own.
#[derive(Debug, Clone, PartialEq, Eq)]
pub struct LaunchSpec {
    /// Name or path of the executable.
    pub command: String,
    /// Arguments, in the order in which they are passed.
    pub args: Vec<String>,
    /// Environment overrides, as pairs of variable name and value.
    pub env: Vec<(String, String)>,
}

/// A launch description as plain sequences of characters.
pub struct LaunchSpecView {
    pub command: Seq<char>,
    pub args: Seq<Seq<char>>,
    pub env: Seq<(Seq<char>, Seq<char>)>,
}

impl View for LaunchSpec {
    type V = LaunchSpecView;

    open spec fn view(&self) -> LaunchSpecView {
        LaunchSpecView {
            command: self.command@,
            args: Seq::new(self.args@.len(), |i: int| self.args@[i]@),
            env: Seq::new(self.env@.len(), |i: int| (self.env@[i].0@, self.env@[i].1@)),
        }
    }
}

impl LaunchSpec {
    /// A launch description that overrides no environment variable.
    pub fn new(command: String, args: Vec<String>) -> (spec: LaunchSpec)
        ensures
            spec.command == command,
            spec.args == args,
            spec.env@.len() == 0,
            spec@.command == command@,
            spec@.args == Seq::new(args@.len(), |i: int| args@[i]@),
            spec@.env == Seq::<(Seq<char>, Seq<char>)>::empty(),
    {
        let spec = LaunchSpec { command, args, env: Vec::new() };
        assert(spec@.env =~= Seq::<(Seq<char>, Seq<char>)>::empty());
        spec
    }
}

} // verus!
