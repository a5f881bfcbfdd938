//! Package install: ask the package manager whether the package is there,
//! and install it where it is not.

use vstd::prelude::*;
use vstd::string::*;
use crate::handler::{
    ActionHandler, SpecStep, Step, after_exit, answered_at, plan_of, requests_of, unexpected,
    whole_run,
};
use crate::host::{Context, Reply, Request, SpecContext, SpecReply, SpecRequest, push_text, reply_views};
use crate::outcome::Outcome;

verus! {

/// A package, known to the package manager by `winget_id`; `name` is for the operator.
#[derive(Debug, Clone, PartialEq, Eq)]
pub struct PackageInstall {
    pub name: String,
    pub winget_id: String,
}

/// The request that asks the package manager whether `id` is installed.
pub open spec fn query_request(id: Seq<char>) -> SpecRequest {
    SpecRequest::Run { program: "winget"@, args: seq!["list"@, "--id"@, id], dir: None }
}

/// The request that installs `id`: matched by identifier and exactly,
/// silently, with every agreement accepted and no prompt.
pub open spec fn install_request(id: Seq<char>) -> SpecRequest {
    SpecRequest::Run {
        program: "winget"@,
        args: seq![
            "install"@,
            "--id"@,
            id,
            "--exact"@,
            "--silent"@,
            "--accept-package-agreements"@,
            "--disable-interactivity"@,
        ],
        dir: None,
    }
}

/// The reason given where the package is there already.
pub open spec fn already_installed() -> Seq<char> {
    "already installed"@
}

/// The reason given where the install ran and reported no success.
pub open spec fn unknown_error() -> Seq<char> {
    "unknown error"@
}

fn query_command(id: &str) -> (request: Request)
    ensures
        request@ == query_request(id@),
{
    let mut args: Vec<String> = Vec::new();
    push_text(&mut args, "list");
    push_text(&mut args, "--id");
    push_text(&mut args, id);
    let request = Request::Run { program: String::from_str("winget"), args, dir: None };
    assert(request@->Run_args =~= seq!["list"@, "--id"@, id@]);
    request
}

fn install_command(id: &str) -> (request: Request)
    ensures
        request@ == install_request(id@),
{
    let mut args: Vec<String> = Vec::new();
    push_text(&mut args, "install");
    push_text(&mut args, "--id");
    push_text(&mut args, id);
    push_text(&mut args, "--exact");
    push_text(&mut args, "--silent");
    push_text(&mut args, "--accept-package-agreements");
    push_text(&mut args, "--disable-interactivity");
    let request = Request::Run { program: String::from_str("winget"), args, dir: None };
    assert(request@->Run_args =~= seq![
        "install"@,
        "--id"@,
        id@,
        "--exact"@,
        "--silent"@,
        "--accept-package-agreements"@,
        "--disable-interactivity"@,
    ]);
    request
}

impl ActionHandler for PackageInstall {
    open spec fn plan(&self, ctx: SpecContext, replies: Seq<SpecReply>) -> SpecStep {
        if replies.len() == 0 {
            SpecStep::Ask(query_request(self.winget_id@))
        } else {
            match replies[0] {
                SpecReply::Exited(true) => SpecStep::Finish(Outcome::Skipped(already_installed())),
                SpecReply::Exited(false) | SpecReply::Failed(_) => {
                    if replies.len() == 1 {
                        SpecStep::Ask(install_request(self.winget_id@))
                    } else {
                        after_exit(replies[1], unknown_error())
                    }
                },
                _ => unexpected(),
            }
        }
    }

    fn run(&self, ctx: &Context, replies: &Vec<Reply>) -> (step: Step) {
        let ghost seen = reply_views(replies@);
        if replies.len() == 0 {
            return Step::Ask(query_command(self.winget_id.as_str()));
        }
        assert(seen[0] == replies@[0]@);
        match &replies[0] {
            Reply::Exited(true) => Step::skip("already installed"),
            Reply::Exited(false) | Reply::Failed(_) => {
                if replies.len() == 1 {
                    Step::Ask(install_command(self.winget_id.as_str()))
                } else {
                    assert(seen[1] == replies@[1]@);
                    Step::after_exit(&replies[1], "unknown error")
                }
            },
            _ => Step::unexpected(),
        }
    }
}

/// Where the query finds the package, a whole run makes the query and no
/// other request, so it does not install, and ends as skipped.
pub proof fn lemma_installed_package_is_skipped(
    action: PackageInstall,
    ctx: SpecContext,
    replies: Seq<SpecReply>,
)
    requires
        whole_run(plan_of(action, ctx), replies),
        replies.len() >= 1,
        replies[0] == SpecReply::Exited(true),
    ensures
        requests_of(plan_of(action, ctx), replies) == seq![query_request(action.winget_id@)],
        action.plan(ctx, replies) == SpecStep::Finish(Outcome::Skipped(already_installed())),
{
    let plan = plan_of(action, ctx);
    assert(replies.len() == 1) by {
        if replies.len() > 1 {
            assert(answered_at(plan, replies, 1));
        }
    }
    assert(requests_of(plan, replies) =~= seq![query_request(action.winget_id@)]);
}

/// Where the query does not find the package, or cannot be made, a whole run
/// makes the query, then the install, and ends as the install ends.
pub proof fn lemma_missing_package_is_installed(
    action: PackageInstall,
    ctx: SpecContext,
    replies: Seq<SpecReply>,
)
    requires
        whole_run(plan_of(action, ctx), replies),
        replies.len() >= 1,
        replies[0] == SpecReply::Exited(false) || replies[0] is Failed,
    ensures
        requests_of(plan_of(action, ctx), replies) == seq![
            query_request(action.winget_id@),
            install_request(action.winget_id@),
        ],
        action.plan(ctx, replies) == after_exit(replies[1], unknown_error()),
{
    let plan = plan_of(action, ctx);
    assert(replies.len() == 2) by {
        if replies.len() > 2 {
            assert(answered_at(plan, replies, 2));
        }
    }
    assert(requests_of(plan, replies) =~= seq![
        query_request(action.winget_id@),
        install_request(action.winget_id@),
    ]);
}

} // verus!
