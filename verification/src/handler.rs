//! What every action has in common: it is run in steps, each step decided
//! from the replies that the host has given so far.

use vstd::prelude::*;
use vstd::string::*;
use crate::host::{
    Context, Reply, Request, SpecContext, SpecReply, SpecRequest, answers, reply_views, texts,
};
use crate::outcome::{ActionResult, Outcome};

verus! {

/// What an action does next.
#[derive(Debug, Clone, PartialEq, Eq)]
pub enum Step {
    /// The host is asked to carry this request out and to reply.
    Ask(Request),
    /// The action is over, with this outcome.
    Finish(ActionResult),
}

/// A [`Step`] as a mathematical value.
pub enum SpecStep {
    Ask(SpecRequest),
    Finish(Outcome),
}

impl View for Step {
    type V = SpecStep;

    open spec fn view(&self) -> SpecStep {
        match self {
            Step::Ask(request) => SpecStep::Ask(request@),
            Step::Finish(result) => SpecStep::Finish(result@),
        }
    }
}

/// The reason given where a reply does not answer the request that was made.
pub open spec fn unexpected_reason() -> Seq<char> {
    "unexpected reply from the host"@
}

/// The step taken where a reply does not answer the request that was made.
pub open spec fn unexpected() -> SpecStep {
    SpecStep::Finish(Outcome::Failure(unexpected_reason()))
}

/// How an action ends on the reply to a process that it ran: success where
/// the process reported it, `unknown` as the reason where it ran and did not,
/// the host's message where it could not be started.
pub open spec fn after_exit(reply: SpecReply, unknown: Seq<char>) -> SpecStep {
    match reply {
        SpecReply::Exited(true) => SpecStep::Finish(Outcome::Success),
        SpecReply::Exited(false) => SpecStep::Finish(Outcome::Failure(unknown)),
        SpecReply::Failed(message) => SpecStep::Finish(Outcome::Failure(message)),
        _ => unexpected(),
    }
}

/// How an action ends on the reply to its last change: success where the
/// change was made, the host's message where it was not.
pub open spec fn after_change(reply: SpecReply) -> SpecStep {
    match reply {
        SpecReply::Done => SpecStep::Finish(Outcome::Success),
        SpecReply::Failed(message) => SpecStep::Finish(Outcome::Failure(message)),
        _ => unexpected(),
    }
}

impl Step {
    /// The action is over and has failed for `reason`.
    pub fn fail(reason: &str) -> (step: Step)
        ensures
            step@ == SpecStep::Finish(Outcome::Failure(reason@)),
    {
        Step::Finish(ActionResult::failure(reason))
    }

    /// The action is over and was skipped for `reason`.
    pub fn skip(reason: &str) -> (step: Step)
        ensures
            step@ == SpecStep::Finish(Outcome::Skipped(reason@)),
    {
        Step::Finish(ActionResult::skipped(reason))
    }

    /// The step taken where a reply does not answer the request that was made.
    pub fn unexpected() -> (step: Step)
        ensures
            step@ == unexpected(),
    {
        Step::fail("unexpected reply from the host")
    }

    /// The end of an action on the reply to a process that it ran.
    pub fn after_exit(reply: &Reply, unknown: &str) -> (step: Step)
        ensures
            step@ == after_exit(reply@, unknown@),
    {
        match reply {
            Reply::Exited(true) => Step::Finish(ActionResult::Success),
            Reply::Exited(false) => Step::fail(unknown),
            Reply::Failed(message) => Step::fail(message.as_str()),
            _ => Step::unexpected(),
        }
    }

    /// The end of an action on the reply to its last change.
    pub fn after_change(reply: &Reply) -> (step: Step)
        ensures
            step@ == after_change(reply@),
    {
        match reply {
            Reply::Done => Step::Finish(ActionResult::Success),
            Reply::Failed(message) => Step::fail(message.as_str()),
            _ => Step::unexpected(),
        }
    }
}

/// The logic of one kind of action.
pub trait ActionHandler {
    /// What the action does next, once the host has answered its requests so
    /// far with `replies`, in order.
    spec fn plan(&self, ctx: SpecContext, replies: Seq<SpecReply>) -> SpecStep;

    /// Takes the next step of the action. The caller carries out the request
    /// of an [`Step::Ask`], appends the reply to `replies` and calls again,
    /// until the step is a [`Step::Finish`].
    fn run(&self, ctx: &Context, replies: &Vec<Reply>) -> (step: Step)
        ensures
            step@ == self.plan(ctx@, reply_views(replies@)),
    ;
}

/// An action together with the conditions under which it is attempted at all.
pub trait ActionRunner {
    /// What the action does next under the active filter `tags`.
    spec fn filtered_plan(
        &self,
        tags: Seq<Seq<char>>,
        ctx: SpecContext,
        replies: Seq<SpecReply>,
    ) -> SpecStep;

    /// Takes the next step of the action under the active filter `tags`.
    fn run(&self, tags: &[String], ctx: &Context, replies: &Vec<Reply>) -> (step: Step)
        ensures
            step@ == self.filtered_plan(texts(tags@), ctx@, reply_views(replies@)),
    ;
}

/// The plan of `action` in the environment `ctx`, as a function of the replies.
pub open spec fn plan_of<T: ActionHandler>(action: T, ctx: SpecContext) -> spec_fn(
    Seq<SpecReply>,
) -> SpecStep {
    |replies: Seq<SpecReply>| action.plan(ctx, replies)
}

/// Whether, in the run `replies`, `plan` makes a request at step `i` and
/// the reply at `i` answers it.
pub open spec fn answered_at(
    plan: spec_fn(Seq<SpecReply>) -> SpecStep,
    replies: Seq<SpecReply>,
    i: int,
) -> bool {
    &&& plan(replies.take(i)) is Ask
    &&& answers(plan(replies.take(i))->Ask_0, replies[i])
}

/// Whether `replies` is a whole run of `plan`: every reply answers the
/// request that the plan made on the replies before it, and on all of them
/// the plan is over.
pub open spec fn whole_run(
    plan: spec_fn(Seq<SpecReply>) -> SpecStep,
    replies: Seq<SpecReply>,
) -> bool {
    &&& forall|i: int| 0 <= i < replies.len() ==> answered_at(plan, replies, i)
    &&& plan(replies) is Finish
}

/// The requests that `plan` makes in the run `replies`, in order.
pub open spec fn requests_of(plan: spec_fn(Seq<SpecReply>) -> SpecStep, replies: Seq<SpecReply>) -> Seq<
    SpecRequest,
> {
    Seq::new(replies.len(), |i: int| plan(replies.take(i))->Ask_0)
}

} // verus!
