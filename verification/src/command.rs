//! What is launched: a command name and its arguments.

use vstd::prelude::*;
use crate::text::owned_texts;
use crate::text::texts;

verus! {

/// A command name and its arguments, as plain text.
pub struct CommandLine {
    pub command: Seq<char>,
    pub args: Seq<Seq<char>>,
}

/// The line that runs `script` through the shell: `bash -c <script>`.
pub open spec fn shell_line(script: Seq<char>) -> CommandLine {
    CommandLine { command: "bash"@, args: seq!["-c"@, script] }
}

/// One child-process invocation: the executable's name, looked up on the
/// search path, and the arguments handed to it verbatim.
pub struct CommandSpec {
    command: String,
    args: Vec<String>,
}

impl View for CommandSpec {
    type V = CommandLine;

    closed spec fn view(&self) -> CommandLine {
        CommandLine { command: self.command@, args: owned_texts(self.args@) }
    }
}

impl CommandSpec {
    /// The invocation of `command` with `args`.
    pub fn new(command: &str, args: &[&str]) -> (spec: CommandSpec)
        ensures
            spec@.command == command@,
            spec@.args == texts(args@),
    {
        let mut owned: Vec<String> = Vec::new();
        let mut i: usize = 0;
        while i < args.len()
            invariant
                i <= args.len(),
                owned@.len() == i,
                forall|k: int| 0 <= k < i ==> (#[trigger] owned@[k])@ == args@[k]@,
            decreases args.len() - i,
        {
            owned.push(args[i].to_owned());
            i += 1;
        }
        CommandSpec { command: command.to_owned(), args: owned }
    }

    /// The invocation that runs `script` through the shell. The script is
    /// handed over as one argument, unread.
    pub fn shell(script: &str) -> (spec: CommandSpec)
        ensures
            spec@ == shell_line(script@),
    {
        let mut args: Vec<String> = Vec::new();
        args.push("-c".to_owned());
        args.push(script.to_owned());
        assert(owned_texts(args@) =~= seq!["-c"@, script@]);
        CommandSpec { command: "bash".to_owned(), args }
    }

    /// The executable's name.
    pub fn command(&self) -> (name: &str)
        ensures
            name@ == self@.command,
    {
        self.command.as_str()
    }

    /// The arguments, in the order in which the child receives them.
    pub fn args(&self) -> (args: &Vec<String>)
        ensures
            owned_texts(args@) == self@.args,
    {
        &self.args
    }
}

} // verus!
