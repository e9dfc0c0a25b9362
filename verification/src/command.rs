use vstd::prelude::*;

verus! {

/// The outcome of one command executed on a managed host.
#[derive(Clone, Debug)]
pub struct CommandResult {
    pub exit_code: i32,
    pub stdout: String,
    pub stderr: String,
}

/// The mathematical image of a `CommandResult`.
pub struct CommandResultV {
    pub exit_code: int,
    pub stdout: Seq<char>,
    pub stderr: Seq<char>,
}

impl View for CommandResult {
    type V = CommandResultV;

    open spec fn view(&self) -> CommandResultV {
        CommandResultV { exit_code: self.exit_code as int, stdout: self.stdout@, stderr: self.stderr@ }
    }
}

} // verus!
