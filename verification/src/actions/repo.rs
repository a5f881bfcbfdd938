//! Repository sync: clone a repository where it is missing, pull where it is there.

use vstd::prelude::*;
use vstd::string::*;
use crate::handler::{
    ActionHandler, SpecStep, Step, after_exit, answered_at, plan_of, requests_of, unexpected,
    whole_run,
};
use crate::host::{
    Context, Location, Reply, Request, SpecContext, SpecLocation, SpecReply, SpecRequest,
    push_text, reply_views,
};
use crate::outcome::Outcome;
use crate::text::{last_segment, last_segment_of};
use crate::vars::{evaluate_vars, resolved};

verus! {

/// A repository, named `owner/name`, kept as a directory of that name below `dest`.
#[derive(Debug, Clone, PartialEq, Eq)]
pub struct GitHubRepo {
    pub repo: String,
    pub dest: String,
}

/// The address from which the repository `repo` is cloned.
pub open spec fn remote_url(repo: Seq<char>) -> Seq<char> {
    "https://github.com/"@ + repo + ".git"@
}

/// The request to clone `url` from inside the directory `dir`.
pub open spec fn clone_request(url: Seq<char>, dir: SpecLocation) -> SpecRequest {
    SpecRequest::Run { program: "git"@, args: seq!["clone"@, url], dir: Some(dir) }
}

/// The request to fetch and merge inside the repository at `dir`.
pub open spec fn pull_request(dir: SpecLocation) -> SpecRequest {
    SpecRequest::Run { program: "git"@, args: seq!["pull"@], dir: Some(dir) }
}

/// The reason given where the source-control tool ran and reported no success.
pub open spec fn unknown_error() -> Seq<char> {
    "unknown error"@
}

/// The reason given where the target is there and is no repository.
pub open spec fn not_a_repository() -> Seq<char> {
    "directory exists but isn't git repository"@
}

fn clone_command(url: &str, dir: Location) -> (request: Request)
    ensures
        request@ == clone_request(url@, dir@),
{
    let mut args: Vec<String> = Vec::new();
    push_text(&mut args, "clone");
    push_text(&mut args, url);
    let request = Request::Run { program: String::from_str("git"), args, dir: Some(dir) };
    assert(request@->Run_args =~= seq!["clone"@, url@]);
    request
}

fn pull_command(dir: Location) -> (request: Request)
    ensures
        request@ == pull_request(dir@),
{
    let mut args: Vec<String> = Vec::new();
    push_text(&mut args, "pull");
    let request = Request::Run { program: String::from_str("git"), args, dir: Some(dir) };
    assert(request@->Run_args =~= seq!["pull"@]);
    request
}

impl GitHubRepo {
    /// The directory below which the repository is kept.
    pub open spec fn base(&self, ctx: SpecContext) -> SpecLocation {
        SpecLocation::at(resolved(self.dest@, ctx.home))
    }

    /// The directory of the repository itself: named by the last segment of
    /// the reference, below the destination.
    pub open spec fn target(&self, ctx: SpecContext) -> SpecLocation {
        self.base(ctx).child(last_segment(self.repo@))
    }

    /// The entry whose presence marks the target as a repository.
    pub open spec fn marker(&self, ctx: SpecContext) -> SpecLocation {
        self.target(ctx).child(".git"@)
    }

    /// The address from which the repository is cloned.
    pub fn url(&self) -> (url: String)
        ensures
            url@ == remote_url(self.repo@),
    {
        let mut url = String::from_str("https://github.com/");
        url.append(self.repo.as_str());
        url.append(".git");
        url
    }
}

impl ActionHandler for GitHubRepo {
    open spec fn plan(&self, ctx: SpecContext, replies: Seq<SpecReply>) -> SpecStep {
        if replies.len() == 0 {
            SpecStep::Ask(SpecRequest::Exists { path: self.target(ctx) })
        } else {
            match replies[0] {
                SpecReply::Flag(true) => {
                    if replies.len() == 1 {
                        SpecStep::Ask(SpecRequest::Exists { path: self.marker(ctx) })
                    } else {
                        match replies[1] {
                            SpecReply::Flag(true) => {
                                if replies.len() == 2 {
                                    SpecStep::Ask(pull_request(self.target(ctx)))
                                } else {
                                    after_exit(replies[2], unknown_error())
                                }
                            },
                            SpecReply::Flag(false) => SpecStep::Finish(
                                Outcome::Failure(not_a_repository()),
                            ),
                            SpecReply::Failed(message) => SpecStep::Finish(
                                Outcome::Failure(message),
                            ),
                            _ => unexpected(),
                        }
                    }
                },
                SpecReply::Flag(false) => {
                    if replies.len() == 1 {
                        SpecStep::Ask(clone_request(remote_url(self.repo@), self.base(ctx)))
                    } else {
                        after_exit(replies[1], unknown_error())
                    }
                },
                SpecReply::Failed(message) => SpecStep::Finish(Outcome::Failure(message)),
                _ => unexpected(),
            }
        }
    }

    fn run(&self, ctx: &Context, replies: &Vec<Reply>) -> (step: Step) {
        let ghost seen = reply_views(replies@);
        let base = Location::at(evaluate_vars(self.dest.as_str(), ctx.home.as_str()));
        let segment = last_segment_of(self.repo.as_str());
        let target = base.child(segment.as_str());
        if replies.len() == 0 {
            return Step::Ask(Request::Exists { path: target });
        }
        assert(seen[0] == replies@[0]@);
        match &replies[0] {
            Reply::Flag(true) => {
                if replies.len() == 1 {
                    return Step::Ask(Request::Exists { path: target.child(".git") });
                }
                assert(seen[1] == replies@[1]@);
                match &replies[1] {
                    Reply::Flag(true) => {
                        if replies.len() == 2 {
                            Step::Ask(pull_command(target))
                        } else {
                            assert(seen[2] == replies@[2]@);
                            Step::after_exit(&replies[2], "unknown error")
                        }
                    },
                    Reply::Flag(false) => Step::fail("directory exists but isn't git repository"),
                    Reply::Failed(message) => Step::fail(message.as_str()),
                    _ => Step::unexpected(),
                }
            },
            Reply::Flag(false) => {
                if replies.len() == 1 {
                    let url = self.url();
                    Step::Ask(clone_command(url.as_str(), base))
                } else {
                    assert(seen[1] == replies@[1]@);
                    Step::after_exit(&replies[1], "unknown error")
                }
            },
            Reply::Failed(message) => Step::fail(message.as_str()),
            _ => Step::unexpected(),
        }
    }
}

/// Where the target is there and holds the marker, a whole run asks after the
/// target, asks after the marker and pulls inside the target: it makes no
/// other request, so it does not clone. It ends as the pull ends.
pub proof fn lemma_existing_repository_is_pulled(
    action: GitHubRepo,
    ctx: SpecContext,
    replies: Seq<SpecReply>,
)
    requires
        whole_run(plan_of(action, ctx), replies),
        replies.len() >= 2,
        replies[0] == SpecReply::Flag(true),
        replies[1] == SpecReply::Flag(true),
    ensures
        requests_of(plan_of(action, ctx), replies) == seq![
            SpecRequest::Exists { path: action.target(ctx) },
            SpecRequest::Exists { path: action.marker(ctx) },
            pull_request(action.target(ctx)),
        ],
        action.plan(ctx, replies) == after_exit(replies[2], unknown_error()),
{
    let plan = plan_of(action, ctx);
    assert(replies.len() == 3) by {
        if replies.len() > 3 {
            assert(answered_at(plan, replies, 3));
        }
    }
    assert(requests_of(plan, replies) =~= seq![
        SpecRequest::Exists { path: action.target(ctx) },
        SpecRequest::Exists { path: action.marker(ctx) },
        pull_request(action.target(ctx)),
    ]);
}

/// Where the target is there and holds no marker, a whole run asks after the
/// target and after the marker and fails: no command is run.
pub proof fn lemma_foreign_directory_is_refused(
    action: GitHubRepo,
    ctx: SpecContext,
    replies: Seq<SpecReply>,
)
    requires
        whole_run(plan_of(action, ctx), replies),
        replies.len() >= 2,
        replies[0] == SpecReply::Flag(true),
        replies[1] == SpecReply::Flag(false),
    ensures
        requests_of(plan_of(action, ctx), replies) == seq![
            SpecRequest::Exists { path: action.target(ctx) },
            SpecRequest::Exists { path: action.marker(ctx) },
        ],
        action.plan(ctx, replies) == SpecStep::Finish(Outcome::Failure(not_a_repository())),
{
    let plan = plan_of(action, ctx);
    assert(replies.len() == 2) by {
        if replies.len() > 2 {
            assert(answered_at(plan, replies, 2));
        }
    }
    assert(requests_of(plan, replies) =~= seq![
        SpecRequest::Exists { path: action.target(ctx) },
        SpecRequest::Exists { path: action.marker(ctx) },
    ]);
}

/// Where the target is missing, a whole run asks after the target and clones
/// from inside the destination. It ends as the clone ends.
pub proof fn lemma_missing_repository_is_cloned(
    action: GitHubRepo,
    ctx: SpecContext,
    replies: Seq<SpecReply>,
)
    requires
        whole_run(plan_of(action, ctx), replies),
        replies.len() >= 1,
        replies[0] == SpecReply::Flag(false),
    ensures
        requests_of(plan_of(action, ctx), replies) == seq![
            SpecRequest::Exists { path: action.target(ctx) },
            clone_request(remote_url(action.repo@), action.base(ctx)),
        ],
        action.plan(ctx, replies) == after_exit(replies[1], unknown_error()),
{
    let plan = plan_of(action, ctx);
    assert(replies.len() == 2) by {
        if replies.len() > 2 {
            assert(answered_at(plan, replies, 2));
        }
    }
    assert(requests_of(plan, replies) =~= seq![
        SpecRequest::Exists { path: action.target(ctx) },
        clone_request(remote_url(action.repo@), action.base(ctx)),
    ]);
}

/// Repository sync never ends as skipped.
pub proof fn lemma_repository_is_never_skipped(
    action: GitHubRepo,
    ctx: SpecContext,
    replies: Seq<SpecReply>,
)
    ensures
        !(action.plan(ctx, replies) matches SpecStep::Finish(Outcome::Skipped(_))),
{
}

} // verus!
