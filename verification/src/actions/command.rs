//! Command run: hand one command line to the host's shell.

use vstd::prelude::*;
use vstd::string::*;
use crate::handler::{ActionHandler, SpecStep, Step, after_exit};
use crate::host::{Context, Reply, Request, SpecContext, SpecReply, SpecRequest, push_text, reply_views};

verus! {

/// A command line for the host's shell.
#[derive(Debug, Clone, PartialEq, Eq)]
pub struct CommandRun {
    pub command: String,
}

/// The request that hands `command` to the shell.
pub open spec fn shell_request(command: Seq<char>) -> SpecRequest {
    SpecRequest::Run { program: "cmd"@, args: seq!["/C"@, command], dir: None }
}

/// The reason given where the command ran and reported no success.
pub open spec fn unknown_reason() -> Seq<char> {
    "failed to execute command for unknown reason"@
}

fn shell_command(command: &str) -> (request: Request)
    ensures
        request@ == shell_request(command@),
{
    let mut args: Vec<String> = Vec::new();
    push_text(&mut args, "/C");
    push_text(&mut args, command);
    let request = Request::Run { program: String::from_str("cmd"), args, dir: None };
    assert(request@->Run_args =~= seq!["/C"@, command@]);
    request
}

impl ActionHandler for CommandRun {
    open spec fn plan(&self, ctx: SpecContext, replies: Seq<SpecReply>) -> SpecStep {
        if replies.len() == 0 {
            SpecStep::Ask(shell_request(self.command@))
        } else {
            after_exit(replies[0], unknown_reason())
        }
    }

    fn run(&self, ctx: &Context, replies: &Vec<Reply>) -> (step: Step) {
        let ghost seen = reply_views(replies@);
        if replies.len() == 0 {
            Step::Ask(shell_command(self.command.as_str()))
        } else {
            assert(seen[0] == replies@[0]@);
            Step::after_exit(&replies[0], "failed to execute command for unknown reason")
        }
    }
}

} // verus!
