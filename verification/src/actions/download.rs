//! File download: fetch an address into a file that must not be there yet.

use vstd::prelude::*;
use vstd::string::*;
use crate::handler::{
    ActionHandler, SpecStep, Step, after_change, answered_at, plan_of, requests_of, unexpected,
    whole_run,
};
use crate::host::{
    Context, Location, Reply, Request, SpecContext, SpecLocation, SpecReply, SpecRequest,
    reply_views,
};
use crate::outcome::Outcome;
use crate::vars::{evaluate_vars, resolved};

verus! {

/// A file at `dest`, to be filled with what `url` serves.
#[derive(Debug, Clone, PartialEq, Eq)]
pub struct FileDownload {
    pub url: String,
    pub dest: String,
}

/// The reason given where the destination is there already.
pub open spec fn already_exists() -> Seq<char> {
    "target file already exists"@
}

/// The reason given where the address could not be fetched.
pub open spec fn download_failed() -> Seq<char> {
    "error downloading file"@
}

/// The reason given where the destination could not be created.
pub open spec fn create_failed() -> Seq<char> {
    "error creating file"@
}

/// A copy of `bytes`.
fn copy_bytes(bytes: &Vec<u8>) -> (copy: Vec<u8>)
    ensures
        copy@ == bytes@,
{
    let mut copy: Vec<u8> = Vec::new();
    let mut i: usize = 0;
    while i < bytes.len()
        invariant
            i <= bytes.len(),
            copy@ == bytes@.take(i as int),
        decreases bytes.len() - i,
    {
        copy.push(bytes[i]);
        i += 1;
        assert(bytes@.take(i as int) == bytes@.take(i - 1).push(bytes@[i - 1]));
    }
    assert(bytes@.take(bytes.len() as int) == bytes@);
    copy
}

impl FileDownload {
    /// The file that is written.
    pub open spec fn destination(&self, ctx: SpecContext) -> SpecLocation {
        SpecLocation::at(resolved(self.dest@, ctx.home))
    }
}

impl ActionHandler for FileDownload {
    open spec fn plan(&self, ctx: SpecContext, replies: Seq<SpecReply>) -> SpecStep {
        let dest = self.destination(ctx);
        if replies.len() == 0 {
            SpecStep::Ask(SpecRequest::Exists { path: dest })
        } else {
            match replies[0] {
                SpecReply::Flag(true) => SpecStep::Finish(Outcome::Failure(already_exists())),
                SpecReply::Flag(false) => {
                    if replies.len() == 1 {
                        SpecStep::Ask(SpecRequest::Get { url: self.url@ })
                    } else {
                        match replies[1] {
                            SpecReply::Body(bytes) => {
                                if replies.len() == 2 {
                                    SpecStep::Ask(SpecRequest::Create { path: dest })
                                } else {
                                    match replies[2] {
                                        SpecReply::Done => {
                                            if replies.len() == 3 {
                                                SpecStep::Ask(
                                                    SpecRequest::Write { path: dest, bytes },
                                                )
                                            } else {
                                                after_change(replies[3])
                                            }
                                        },
                                        SpecReply::Failed(_) => SpecStep::Finish(
                                            Outcome::Failure(create_failed()),
                                        ),
                                        _ => unexpected(),
                                    }
                                }
                            },
                            SpecReply::Failed(_) => SpecStep::Finish(
                                Outcome::Failure(download_failed()),
                            ),
                            _ => unexpected(),
                        }
                    }
                },
                SpecReply::Failed(message) => SpecStep::Finish(Outcome::Failure(message)),
                _ => unexpected(),
            }
        }
    }

    fn run(&self, ctx: &Context, replies: &Vec<Reply>) -> (step: Step) {
        let ghost seen = reply_views(replies@);
        let dest = Location::at(evaluate_vars(self.dest.as_str(), ctx.home.as_str()));
        if replies.len() == 0 {
            return Step::Ask(Request::Exists { path: dest });
        }
        assert(seen[0] == replies@[0]@);
        match &replies[0] {
            Reply::Flag(true) => Step::fail("target file already exists"),
            Reply::Flag(false) => {
                if replies.len() == 1 {
                    return Step::Ask(Request::Get { url: self.url.clone() });
                }
                assert(seen[1] == replies@[1]@);
                match &replies[1] {
                    Reply::Body(bytes) => {
                        if replies.len() == 2 {
                            return Step::Ask(Request::Create { path: dest });
                        }
                        assert(seen[2] == replies@[2]@);
                        match &replies[2] {
                            Reply::Done => {
                                if replies.len() == 3 {
                                    Step::Ask(
                                        Request::Write { path: dest, bytes: copy_bytes(bytes) },
                                    )
                                } else {
                                    assert(seen[3] == replies@[3]@);
                                    Step::after_change(&replies[3])
                                }
                            },
                            Reply::Failed(_) => Step::fail("error creating file"),
                            _ => Step::unexpected(),
                        }
                    },
                    Reply::Failed(_) => Step::fail("error downloading file"),
                    _ => Step::unexpected(),
                }
            },
            Reply::Failed(message) => Step::fail(message.as_str()),
            _ => Step::unexpected(),
        }
    }
}

/// Where the destination is there already, a whole run asks after it and
/// fails: it makes no other request, so nothing is fetched and nothing written.
pub proof fn lemma_existing_destination_is_refused(
    action: FileDownload,
    ctx: SpecContext,
    replies: Seq<SpecReply>,
)
    requires
        whole_run(plan_of(action, ctx), replies),
        replies.len() >= 1,
        replies[0] == SpecReply::Flag(true),
    ensures
        requests_of(plan_of(action, ctx), replies) == seq![
            SpecRequest::Exists { path: action.destination(ctx) },
        ],
        action.plan(ctx, replies) == SpecStep::Finish(Outcome::Failure(already_exists())),
{
    let plan = plan_of(action, ctx);
    assert(replies.len() == 1) by {
        if replies.len() > 1 {
            assert(answered_at(plan, replies, 1));
        }
    }
    assert(requests_of(plan, replies) =~= seq![
        SpecRequest::Exists { path: action.destination(ctx) },
    ]);
}

/// A whole run that ends in success has fetched the address, created the
/// destination and written to it the whole body that the fetch brought.
pub proof fn lemma_download_writes_the_body(
    action: FileDownload,
    ctx: SpecContext,
    replies: Seq<SpecReply>,
)
    requires
        whole_run(plan_of(action, ctx), replies),
        action.plan(ctx, replies) == SpecStep::Finish(Outcome::Success),
    ensures
        replies.len() == 4,
        replies[1] is Body,
        requests_of(plan_of(action, ctx), replies) == seq![
            SpecRequest::Exists { path: action.destination(ctx) },
            SpecRequest::Get { url: action.url@ },
            SpecRequest::Create { path: action.destination(ctx) },
            SpecRequest::Write { path: action.destination(ctx), bytes: replies[1]->Body_0 },
        ],
{
    let plan = plan_of(action, ctx);
    assert(replies.len() == 4) by {
        if replies.len() > 4 {
            assert(answered_at(plan, replies, 4));
        }
    }
    assert(requests_of(plan, replies) =~= seq![
        SpecRequest::Exists { path: action.destination(ctx) },
        SpecRequest::Get { url: action.url@ },
        SpecRequest::Create { path: action.destination(ctx) },
        SpecRequest::Write { path: action.destination(ctx), bytes: replies[1]->Body_0 },
    ]);
}

} // verus!
