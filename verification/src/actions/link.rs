//! File link: put a link to a source at a destination, making room for it first.

use vstd::prelude::*;
use vstd::string::*;
use crate::handler::{
    ActionHandler, SpecStep, Step, after_change, answered_at, plan_of, requests_of, unexpected,
    whole_run,
};
use crate::host::{
    Context, Location, Reply, Request, SpecContext, SpecLocation, SpecReply, SpecRequest,
    reply_views,
};
use crate::outcome::Outcome;
use crate::vars::{evaluate_vars, resolved};

verus! {

/// A link at `dest` to `src`: a hard link where `hard` is set, else a symbolic one.
#[derive(Debug, Clone, PartialEq, Eq)]
pub struct FileLink {
    pub src: String,
    pub dest: String,
    pub hard: bool,
}

/// Whether a link is a hard link where the configuration does not say.
pub fn default_hard() -> (hard: bool)
    ensures
        !hard,
{
    false
}

/// What is appended to the name of a file that is moved out of the way.
pub open spec fn backup_suffix() -> Seq<char> {
    ".bak"@
}

impl FileLink {
    /// A symbolic or hard link at `dest` to `src`, as the configuration
    /// describes it: `hard` is `None` where it does not say.
    pub fn new(src: String, dest: String, hard: Option<bool>) -> (link: FileLink)
        ensures
            link.src == src,
            link.dest == dest,
            link.hard == (hard == Some(true)),
    {
        let hard = match hard {
            Some(flag) => flag,
            None => default_hard(),
        };
        FileLink { src, dest, hard }
    }

    /// What the link points to.
    pub open spec fn source(&self, ctx: SpecContext) -> SpecLocation {
        SpecLocation::at(resolved(self.src@, ctx.home))
    }

    /// Where the link is put.
    pub open spec fn destination(&self, ctx: SpecContext) -> SpecLocation {
        SpecLocation::at(resolved(self.dest@, ctx.home))
    }

    /// Where what was at the destination is moved to: beside it, under its
    /// own name with the backup suffix.
    pub open spec fn backup(&self, ctx: SpecContext) -> SpecLocation {
        self.destination(ctx).with_suffix(backup_suffix())
    }

    /// The request that creates the link.
    pub open spec fn link_request(&self, ctx: SpecContext) -> SpecRequest {
        if self.hard {
            SpecRequest::HardLink { src: self.source(ctx), dest: self.destination(ctx) }
        } else {
            SpecRequest::Symlink { src: self.source(ctx), dest: self.destination(ctx) }
        }
    }

    /// The request that makes room at the destination: what is itself a
    /// symbolic link is removed, anything else is moved to the backup.
    pub open spec fn clearing_request(&self, ctx: SpecContext, is_link: bool) -> SpecRequest {
        if is_link {
            SpecRequest::Remove { path: self.destination(ctx) }
        } else {
            SpecRequest::Rename { from: self.destination(ctx), to: self.backup(ctx) }
        }
    }

    fn link_command(&self, src: Location, dest: Location) -> (request: Request)
        ensures
            request@ == (if self.hard {
                SpecRequest::HardLink { src: src@, dest: dest@ }
            } else {
                SpecRequest::Symlink { src: src@, dest: dest@ }
            }),
    {
        if self.hard {
            Request::HardLink { src, dest }
        } else {
            Request::Symlink { src, dest }
        }
    }
}

impl ActionHandler for FileLink {
    open spec fn plan(&self, ctx: SpecContext, replies: Seq<SpecReply>) -> SpecStep {
        let dest = self.destination(ctx);
        if replies.len() == 0 {
            SpecStep::Ask(SpecRequest::Exists { path: dest })
        } else {
            match replies[0] {
                SpecReply::Flag(false) => {
                    if replies.len() == 1 {
                        SpecStep::Ask(self.link_request(ctx))
                    } else {
                        after_change(replies[1])
                    }
                },
                SpecReply::Flag(true) => {
                    if replies.len() == 1 {
                        SpecStep::Ask(SpecRequest::IsSymlink { path: dest })
                    } else {
                        match replies[1] {
                            SpecReply::Flag(is_link) => {
                                if replies.len() == 2 {
                                    SpecStep::Ask(self.clearing_request(ctx, is_link))
                                } else {
                                    match replies[2] {
                                        SpecReply::Done => {
                                            if replies.len() == 3 {
                                                SpecStep::Ask(self.link_request(ctx))
                                            } else {
                                                after_change(replies[3])
                                            }
                                        },
                                        SpecReply::Failed(message) => SpecStep::Finish(
                                            Outcome::Failure(message),
                                        ),
                                        _ => unexpected(),
                                    }
                                }
                            },
                            SpecReply::Failed(message) => SpecStep::Finish(
                                Outcome::Failure(message),
                            ),
                            _ => unexpected(),
                        }
                    }
                },
                SpecReply::Failed(message) => SpecStep::Finish(Outcome::Failure(message)),
                _ => unexpected(),
            }
        }
    }

    fn run(&self, ctx: &Context, replies: &Vec<Reply>) -> (step: Step) {
        let ghost seen = reply_views(replies@);
        let src = Location::at(evaluate_vars(self.src.as_str(), ctx.home.as_str()));
        let dest = Location::at(evaluate_vars(self.dest.as_str(), ctx.home.as_str()));
        if replies.len() == 0 {
            return Step::Ask(Request::Exists { path: dest });
        }
        assert(seen[0] == replies@[0]@);
        match &replies[0] {
            Reply::Flag(false) => {
                if replies.len() == 1 {
                    Step::Ask(self.link_command(src, dest))
                } else {
                    assert(seen[1] == replies@[1]@);
                    Step::after_change(&replies[1])
                }
            },
            Reply::Flag(true) => {
                if replies.len() == 1 {
                    return Step::Ask(Request::IsSymlink { path: dest });
                }
                assert(seen[1] == replies@[1]@);
                match &replies[1] {
                    Reply::Flag(is_link) => {
                        if replies.len() == 2 {
                            if *is_link {
                                return Step::Ask(Request::Remove { path: dest });
                            }
                            let backup = dest.with_suffix(".bak");
                            assert(Seq::<char>::empty() + ".bak"@ == ".bak"@);
                            return Step::Ask(Request::Rename { from: dest, to: backup });
                        }
                        assert(seen[2] == replies@[2]@);
                        match &replies[2] {
                            Reply::Done => {
                                if replies.len() == 3 {
                                    Step::Ask(self.link_command(src, dest))
                                } else {
                                    assert(seen[3] == replies@[3]@);
                                    Step::after_change(&replies[3])
                                }
                            },
                            Reply::Failed(message) => Step::fail(message.as_str()),
                            _ => Step::unexpected(),
                        }
                    },
                    Reply::Failed(message) => Step::fail(message.as_str()),
                    _ => Step::unexpected(),
                }
            },
            Reply::Failed(message) => Step::fail(message.as_str()),
            _ => Step::unexpected(),
        }
    }
}

impl FileLink {
    /// The requests of a run that finds something at the destination, in
    /// order: the two questions, the request that makes room, the link.
    pub open spec fn replacing_requests(&self, ctx: SpecContext, is_link: bool) -> Seq<
        SpecRequest,
    > {
        seq![
            SpecRequest::Exists { path: self.destination(ctx) },
            SpecRequest::IsSymlink { path: self.destination(ctx) },
            self.clearing_request(ctx, is_link),
            self.link_request(ctx),
        ]
    }
}

/// Where something is at the destination, a whole run asks the two
/// questions and makes room, and where that was done it creates the link;
/// it makes no other request, and it ends in success only with the link made.
pub proof fn lemma_occupied_destination_is_cleared(
    action: FileLink,
    ctx: SpecContext,
    replies: Seq<SpecReply>,
    is_link: bool,
)
    requires
        whole_run(plan_of(action, ctx), replies),
        replies.len() >= 2,
        replies[0] == SpecReply::Flag(true),
        replies[1] == SpecReply::Flag(is_link),
    ensures
        replies.len() == 3 || replies.len() == 4,
        requests_of(plan_of(action, ctx), replies) == action.replacing_requests(ctx, is_link).take(
            replies.len() as int,
        ),
        action.plan(ctx, replies) == SpecStep::Finish(Outcome::Success) ==> replies.len() == 4,
{
    let plan = plan_of(action, ctx);
    assert(replies.len() <= 4) by {
        if replies.len() > 4 {
            assert(answered_at(plan, replies, 4));
        }
    }
    if replies.len() == 4 {
        assert(answered_at(plan, replies, 3));
    }
    assert(requests_of(plan, replies) =~= action.replacing_requests(ctx, is_link).take(
        replies.len() as int,
    ));
}

/// Where the destination is there and is no symbolic link, a whole run moves
/// it to the backup beside it, whose name is its own with the backup suffix,
/// and removes nothing; where the run ends in success, the link was then
/// created at the destination.
pub proof fn lemma_existing_file_is_backed_up(
    action: FileLink,
    ctx: SpecContext,
    replies: Seq<SpecReply>,
)
    requires
        whole_run(plan_of(action, ctx), replies),
        replies.len() >= 2,
        replies[0] == SpecReply::Flag(true),
        replies[1] == SpecReply::Flag(false),
    ensures
        replies.len() >= 3,
        requests_of(plan_of(action, ctx), replies)[2] == (SpecRequest::Rename {
            from: action.destination(ctx),
            to: action.backup(ctx),
        }),
        action.backup(ctx) == (SpecLocation {
            suffix: backup_suffix(),
            ..action.destination(ctx)
        }),
        forall|i: int|
            0 <= i < replies.len() ==> !(#[trigger] requests_of(plan_of(action, ctx), replies)[i]
                is Remove),
        action.plan(ctx, replies) == SpecStep::Finish(Outcome::Success) ==> replies.len() == 4
            && requests_of(plan_of(action, ctx), replies)[3] == action.link_request(ctx),
{
    lemma_occupied_destination_is_cleared(action, ctx, replies, false);
    assert(Seq::<char>::empty() + backup_suffix() == backup_suffix());
}

/// Where the destination is there and is itself a symbolic link, a whole run
/// removes it and renames nothing, so no backup is made; where the run ends
/// in success, the one link was then created at the destination.
pub proof fn lemma_existing_link_is_replaced(
    action: FileLink,
    ctx: SpecContext,
    replies: Seq<SpecReply>,
)
    requires
        whole_run(plan_of(action, ctx), replies),
        replies.len() >= 2,
        replies[0] == SpecReply::Flag(true),
        replies[1] == SpecReply::Flag(true),
    ensures
        replies.len() >= 3,
        requests_of(plan_of(action, ctx), replies)[2] == (SpecRequest::Remove {
            path: action.destination(ctx),
        }),
        forall|i: int|
            0 <= i < replies.len() ==> !(#[trigger] requests_of(plan_of(action, ctx), replies)[i]
                is Rename),
        action.plan(ctx, replies) == SpecStep::Finish(Outcome::Success) ==> replies.len() == 4
            && requests_of(plan_of(action, ctx), replies)[3] == action.link_request(ctx),
{
    lemma_occupied_destination_is_cleared(action, ctx, replies, true);
}

/// Where nothing is at the destination, a whole run asks after it and
/// creates the link: it removes and renames nothing.
pub proof fn lemma_free_destination_is_linked(
    action: FileLink,
    ctx: SpecContext,
    replies: Seq<SpecReply>,
)
    requires
        whole_run(plan_of(action, ctx), replies),
        replies.len() >= 1,
        replies[0] == SpecReply::Flag(false),
    ensures
        requests_of(plan_of(action, ctx), replies) == seq![
            SpecRequest::Exists { path: action.destination(ctx) },
            action.link_request(ctx),
        ],
        action.plan(ctx, replies) == after_change(replies[1]),
{
    let plan = plan_of(action, ctx);
    assert(replies.len() == 2) by {
        if replies.len() > 2 {
            assert(answered_at(plan, replies, 2));
        }
    }
    assert(requests_of(plan, replies) =~= seq![
        SpecRequest::Exists { path: action.destination(ctx) },
        action.link_request(ctx),
    ]);
}

} // verus!
