//! The action set and the run over it: every action once, in the order of
//! the configuration, whatever the outcome of the one before.

use vstd::prelude::*;
use vstd::string::*;
use crate::actions::command::CommandRun;
use crate::actions::download::FileDownload;
use crate::actions::install::PackageInstall;
use crate::actions::link::FileLink;
use crate::actions::repo::GitHubRepo;
use crate::filter::{ActionContainer, no_matching_tags, shares_tag};
use crate::handler::{ActionRunner, SpecStep, Step};
use crate::host::{Context, Reply, Request, SpecContext, SpecReply, SpecRequest, reply_views, texts};
use crate::outcome::{ActionResult, Outcome};

verus! {

/// One entry of the configuration: an action of one of five kinds, behind its filter.
#[derive(Debug, Clone, PartialEq, Eq)]
pub enum Action {
    PackageInstall(ActionContainer<PackageInstall>),
    FileDownload(ActionContainer<FileDownload>),
    FileLink(ActionContainer<FileLink>),
    GitHubRepo(ActionContainer<GitHubRepo>),
    CommandRun(ActionContainer<CommandRun>),
}

/// The wrapped action inside an [`Action`], whatever its kind.
pub struct Inner<'a> {
    pub runner: &'a dyn ActionRunner,
}

impl Action {
    /// What the action does next under the active filter `tags`.
    pub open spec fn plan(
        &self,
        tags: Seq<Seq<char>>,
        ctx: SpecContext,
        replies: Seq<SpecReply>,
    ) -> SpecStep {
        match self {
            Action::PackageInstall(wrapped) => wrapped.filtered_plan(tags, ctx, replies),
            Action::FileDownload(wrapped) => wrapped.filtered_plan(tags, ctx, replies),
            Action::FileLink(wrapped) => wrapped.filtered_plan(tags, ctx, replies),
            Action::GitHubRepo(wrapped) => wrapped.filtered_plan(tags, ctx, replies),
            Action::CommandRun(wrapped) => wrapped.filtered_plan(tags, ctx, replies),
        }
    }

    /// The tags that the action declares.
    pub open spec fn declared_tags(&self) -> Seq<Seq<char>> {
        match self {
            Action::PackageInstall(wrapped) => wrapped.declared_tags(),
            Action::FileDownload(wrapped) => wrapped.declared_tags(),
            Action::FileLink(wrapped) => wrapped.declared_tags(),
            Action::GitHubRepo(wrapped) => wrapped.declared_tags(),
            Action::CommandRun(wrapped) => wrapped.declared_tags(),
        }
    }

    /// The wrapped action inside, whatever its kind: it plans as this action does.
    pub fn inner_ref(&self) -> (inner: Inner<'_>)
        ensures
            forall|tags: Seq<Seq<char>>, ctx: SpecContext, replies: Seq<SpecReply>|
                #[trigger] inner.runner.filtered_plan(tags, ctx, replies) == self.plan(
                    tags,
                    ctx,
                    replies,
                ),
    {
        match self {
            Action::PackageInstall(wrapped) => Inner { runner: wrapped },
            Action::FileDownload(wrapped) => Inner { runner: wrapped },
            Action::FileLink(wrapped) => Inner { runner: wrapped },
            Action::GitHubRepo(wrapped) => Inner { runner: wrapped },
            Action::CommandRun(wrapped) => Inner { runner: wrapped },
        }
    }

    /// Takes the next step of the action under the active filter `tags`.
    pub fn run(&self, tags: &[String], ctx: &Context, replies: &Vec<Reply>) -> (step: Step)
        ensures
            step@ == self.plan(texts(tags@), ctx@, reply_views(replies@)),
    {
        self.inner_ref().runner.run(tags, ctx, replies)
    }
}

/// The configuration: the actions, in the order in which they are run.
#[derive(Debug, Clone, PartialEq, Eq)]
pub struct Config {
    pub actions: Vec<Action>,
}

/// Where a run stands: the action it is at, and the replies that the host
/// has given to that action so far.
#[derive(Debug, Clone, PartialEq, Eq)]
pub struct Cursor {
    pub position: usize,
    pub replies: Vec<Reply>,
}

/// What a run does next.
#[derive(Debug, Clone, PartialEq, Eq)]
pub enum Turn {
    /// The action at the cursor asks this of the host.
    Ask(Request),
    /// The action at the cursor is over with this outcome, and the cursor
    /// has moved on to the next.
    Settled(ActionResult),
    /// Every action has been run.
    Finished,
}

/// A [`Turn`] as a mathematical value.
pub enum SpecTurn {
    Ask(SpecRequest),
    Settled(Outcome),
    Finished,
}

impl View for Turn {
    type V = SpecTurn;

    open spec fn view(&self) -> SpecTurn {
        match self {
            Turn::Ask(request) => SpecTurn::Ask(request@),
            Turn::Settled(result) => SpecTurn::Settled(result@),
            Turn::Finished => SpecTurn::Finished,
        }
    }
}

impl Cursor {
    /// The start of a run: at the first action, with nothing replied.
    pub fn new() -> (cursor: Cursor)
        ensures
            cursor.position == 0,
            cursor.replies@.len() == 0,
    {
        Cursor { position: 0, replies: Vec::new() }
    }

    /// Records the reply of the host to the request that was last asked.
    pub fn answer(&mut self, reply: Reply)
        ensures
            final(self).position == old(self).position,
            final(self).replies@ == old(self).replies@.push(reply),
    {
        self.replies.push(reply);
    }
}

impl Config {
    /// What the run does next when it stands at `position` with `replies`:
    /// past the last action it is finished; else the action there asks or is over.
    pub open spec fn turn(
        &self,
        tags: Seq<Seq<char>>,
        ctx: SpecContext,
        position: int,
        replies: Seq<SpecReply>,
    ) -> SpecTurn {
        if position >= self.actions@.len() {
            SpecTurn::Finished
        } else {
            match self.actions@[position].plan(tags, ctx, replies) {
                SpecStep::Ask(request) => SpecTurn::Ask(request),
                SpecStep::Finish(outcome) => SpecTurn::Settled(outcome),
            }
        }
    }

    /// Takes the next turn of the run. On [`Turn::Ask`] the caller carries the
    /// request out and records the reply with [`Cursor::answer`]; on
    /// [`Turn::Settled`] the cursor has moved to the next action, whatever the
    /// outcome was; on [`Turn::Finished`] the run is over.
    pub fn step(&self, tags: &[String], ctx: &Context, cursor: &mut Cursor) -> (turn: Turn)
        ensures
            turn@ == self.turn(
                texts(tags@),
                ctx@,
                old(cursor).position as int,
                reply_views(old(cursor).replies@),
            ),
            turn is Settled ==> final(cursor).position == old(cursor).position + 1,
            turn is Settled ==> final(cursor).replies@.len() == 0,
            !(turn is Settled) ==> *final(cursor) == *old(cursor),
    {
        if cursor.position >= self.actions.len() {
            return Turn::Finished;
        }
        match self.actions[cursor.position].run(tags, ctx, &cursor.replies) {
            Step::Ask(request) => Turn::Ask(request),
            Step::Finish(result) => {
                cursor.position = cursor.position + 1;
                cursor.replies = Vec::new();
                Turn::Settled(result)
            },
        }
    }
}

/// An action that declares none of the tags of a filter that is not empty
/// ends as skipped for want of a matching tag: whatever its kind, whether it
/// declares other tags or none, whatever the host and its replies.
pub proof fn lemma_unmatched_action_is_skipped(
    action: Action,
    tags: Seq<Seq<char>>,
    ctx: SpecContext,
    replies: Seq<SpecReply>,
)
    requires
        tags.len() > 0,
        !shares_tag(tags, action.declared_tags()),
    ensures
        action.plan(tags, ctx, replies) == SpecStep::Finish(Outcome::Skipped(no_matching_tags())),
{
}

/// Under the empty filter no action, of any kind, ends as skipped for want
/// of a matching tag.
pub proof fn lemma_empty_filter_skips_none_for_tags(
    action: Action,
    ctx: SpecContext,
    replies: Seq<SpecReply>,
)
    ensures
        action.plan(Seq::empty(), ctx, replies) != SpecStep::Finish(
            Outcome::Skipped(no_matching_tags()),
        ),
{
    reveal_strlit("no matching tags");
    reveal_strlit("not for this platform");
    reveal_strlit("already installed");
    assert("no matching tags"@.len() == 16);
    assert("not for this platform"@.len() == 21);
    assert("already installed"@.len() == 17);
}

/// No action asks more than four times: on four replies or more it is over.
pub proof fn lemma_action_ends_within_four(
    action: Action,
    tags: Seq<Seq<char>>,
    ctx: SpecContext,
    replies: Seq<SpecReply>,
)
    requires
        replies.len() >= 4,
    ensures
        action.plan(tags, ctx, replies) is Finish,
{
}

/// An action that is over stays over, with the outcome it had: no reply
/// that comes later starts it again or changes what it reported.
pub proof fn lemma_outcome_is_final(
    action: Action,
    tags: Seq<Seq<char>>,
    ctx: SpecContext,
    replies: Seq<SpecReply>,
    later: Seq<SpecReply>,
)
    requires
        action.plan(tags, ctx, replies) is Finish,
    ensures
        action.plan(tags, ctx, replies + later) == action.plan(tags, ctx, replies),
{
    let longer = replies + later;
    assert forall|i: int| 0 <= i < replies.len() implies longer[i] == replies[i] by {}
    if replies.len() > 0 {
        assert(longer[0] == replies[0]);
    }
    if replies.len() > 1 {
        assert(longer[1] == replies[1]);
    }
    if replies.len() > 2 {
        assert(longer[2] == replies[2]);
    }
    if replies.len() > 3 {
        assert(longer[3] == replies[3]);
    }
}

/// Under a filter that is not empty and of which no action declares a tag,
/// a run settles every action as skipped and asks nothing of the host.
pub proof fn lemma_unmatched_run_asks_nothing(
    config: Config,
    tags: Seq<Seq<char>>,
    ctx: SpecContext,
    position: int,
    replies: Seq<SpecReply>,
)
    requires
        tags.len() > 0,
        forall|i: int|
            0 <= i < config.actions@.len() ==> !shares_tag(
                tags,
                (#[trigger] config.actions@[i]).declared_tags(),
            ),
        0 <= position < config.actions@.len(),
    ensures
        config.turn(tags, ctx, position, replies) == SpecTurn::Settled(
            Outcome::Skipped(no_matching_tags()),
        ),
{
    lemma_unmatched_action_is_skipped(config.actions@[position], tags, ctx, replies);
}

} // verus!
