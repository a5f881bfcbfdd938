//! The filter in front of every action: the active tags and the host's
//! platform decide whether the action is attempted at all.

use vstd::prelude::*;
use vstd::string::*;
use crate::handler::{ActionHandler, ActionRunner, SpecStep, Step};
use crate::host::{Context, Reply, SpecContext, SpecReply, texts};
use crate::outcome::Outcome;

verus! {

/// A platform that an action can be restricted to.
#[derive(Clone, Copy, Debug, PartialEq, Eq, Structural)]
pub enum Platform {
    Windows,
    MacOS,
    Linux,
}

impl Platform {
    /// The identifier by which a host names this platform.
    pub open spec fn name(self) -> Seq<char> {
        match self {
            Platform::Windows => "windows"@,
            Platform::MacOS => "macos"@,
            Platform::Linux => "linux"@,
        }
    }

    /// The identifier by which a host names this platform.
    pub fn as_str(&self) -> (name: &'static str)
        ensures
            name@ == self.name(),
    {
        match self {
            Platform::Windows => "windows",
            Platform::MacOS => "macos",
            Platform::Linux => "linux",
        }
    }
}

/// Whether some tag of `filter` is among `declared`.
pub open spec fn shares_tag(filter: Seq<Seq<char>>, declared: Seq<Seq<char>>) -> bool {
    exists|i: int, j: int|
        #![trigger filter[i], declared[j]]
        0 <= i < filter.len() && 0 <= j < declared.len() && filter[i] == declared[j]
}

/// Whether an action that declares `declared` is let through by the active
/// filter: an empty filter lets every action through, any other only those
/// that declare one of its tags.
pub open spec fn passes_tags(filter: Seq<Seq<char>>, declared: Seq<Seq<char>>) -> bool {
    filter.len() == 0 || shares_tag(filter, declared)
}

/// The identifiers of `platforms`, in order.
pub open spec fn names(platforms: Seq<Platform>) -> Seq<Seq<char>> {
    platforms.map_values(|p: Platform| p.name())
}

/// Whether an action restricted to `platforms` is let through on a host
/// whose operating system is `os`: no restriction lets it through anywhere.
pub open spec fn passes_platform(platforms: Option<Seq<Platform>>, os: Seq<char>) -> bool {
    platforms matches Some(allowed) ==> names(allowed).contains(os)
}

/// The reason given where the active filter keeps an action out.
pub open spec fn no_matching_tags() -> Seq<char> {
    "no matching tags"@
}

/// The reason given where the host's platform keeps an action out.
pub open spec fn wrong_platform() -> Seq<char> {
    "not for this platform"@
}

/// Whether `tag` is among `declared`.
fn declares(declared: &Vec<String>, tag: &String) -> (found: bool)
    ensures
        found == (exists|j: int| 0 <= j < declared.len() && #[trigger] declared@[j]@ == tag@),
{
    let mut j: usize = 0;
    while j < declared.len()
        invariant
            j <= declared.len(),
            forall|k: int| 0 <= k < j ==> #[trigger] declared@[k]@ != tag@,
        decreases declared.len() - j,
    {
        if declared[j] == *tag {
            return true;
        }
        j += 1;
    }
    false
}

/// Whether some tag of `filter` is among `declared`.
pub fn any_tag_declared(filter: &[String], declared: &Vec<String>) -> (found: bool)
    ensures
        found == shares_tag(texts(filter@), texts(declared@)),
{
    let mut i: usize = 0;
    while i < filter.len()
        invariant
            i <= filter.len(),
            forall|a: int, b: int|
                #![trigger texts(filter@)[a], texts(declared@)[b]]
                0 <= a < i && 0 <= b < declared.len() ==> texts(filter@)[a] != texts(
                    declared@,
                )[b],
        decreases filter.len() - i,
    {
        if declares(declared, &filter[i]) {
            let ghost j = choose|j: int| 0 <= j < declared.len() && #[trigger] declared@[j]@ == filter@[i as int]@;
            assert(texts(filter@)[i as int] == texts(declared@)[j]);
            return true;
        }
        assert forall|b: int| 0 <= b < declared.len() implies texts(filter@)[i as int] != (
        #[trigger] texts(declared@)[b]) by {
            assert(declared@[b]@ != filter@[i as int]@);
        }
        i += 1;
    }
    false
}

/// Whether a host whose operating system is `os` is among `allowed`.
pub fn any_platform_is(allowed: &Vec<Platform>, os: &String) -> (found: bool)
    ensures
        found == passes_platform(Some(allowed@), os@),
{
    let mut k: usize = 0;
    while k < allowed.len()
        invariant
            k <= allowed.len(),
            forall|m: int| 0 <= m < k ==> #[trigger] names(allowed@)[m] != os@,
        decreases allowed.len() - k,
    {
        let name = String::from_str(allowed[k].as_str());
        if name == *os {
            assert(names(allowed@)[k as int] == os@);
            return true;
        }
        k += 1;
    }
    false
}

/// An action behind its filter: the tags it declares and the platforms it is
/// restricted to. No tags is an empty set; no platforms is no restriction.
#[derive(Debug, Clone, PartialEq, Eq)]
pub struct ActionContainer<T> {
    pub action: T,
    pub tags: Option<Vec<String>>,
    pub platforms: Option<Vec<Platform>>,
}

impl<T> ActionContainer<T> {
    /// The tags that the action declares.
    pub open spec fn declared_tags(&self) -> Seq<Seq<char>> {
        match self.tags {
            Some(tags) => texts(tags@),
            None => Seq::empty(),
        }
    }

    /// The platforms that the action is restricted to, if it is restricted.
    pub open spec fn declared_platforms(&self) -> Option<Seq<Platform>> {
        match self.platforms {
            Some(platforms) => Some(platforms@),
            None => None,
        }
    }

    /// The reason for which the filter keeps the action out, if it does: the
    /// tags are tested first, the platform second.
    pub open spec fn refusal(&self, tags: Seq<Seq<char>>, ctx: SpecContext) -> Option<Seq<char>> {
        if !passes_tags(tags, self.declared_tags()) {
            Some(no_matching_tags())
        } else if !passes_platform(self.declared_platforms(), ctx.os) {
            Some(wrong_platform())
        } else {
            None
        }
    }

    /// The filter alone: the skip with which the action ends where it is kept
    /// out, and nothing where it is let through. The host is not asked.
    pub fn evaluate(&self, tags: &[String], ctx: &Context) -> (skip: Option<Step>)
        ensures
            match self.refusal(texts(tags@), ctx@) {
                Some(reason) => skip matches Some(step) && step@ == SpecStep::Finish(
                    Outcome::Skipped(reason),
                ),
                None => skip is None,
            },
    {
        if tags.len() > 0 {
            let shared = match &self.tags {
                Some(declared) => any_tag_declared(tags, declared),
                None => false,
            };
            if !shared {
                return Some(Step::skip("no matching tags"));
            }
        }
        match &self.platforms {
            Some(allowed) => {
                if !any_platform_is(allowed, &ctx.os) {
                    return Some(Step::skip("not for this platform"));
                }
            },
            None => {},
        }
        None
    }
}

impl<T: ActionHandler> ActionRunner for ActionContainer<T> {
    open spec fn filtered_plan(
        &self,
        tags: Seq<Seq<char>>,
        ctx: SpecContext,
        replies: Seq<SpecReply>,
    ) -> SpecStep {
        match self.refusal(tags, ctx) {
            Some(reason) => SpecStep::Finish(Outcome::Skipped(reason)),
            None => self.action.plan(ctx, replies),
        }
    }

    fn run(&self, tags: &[String], ctx: &Context, replies: &Vec<Reply>) -> (step: Step) {
        match self.evaluate(tags, ctx) {
            Some(skip) => skip,
            None => self.action.run(ctx, replies),
        }
    }
}

/// An action whose declared tags share none with a filter that is not empty
/// ends as skipped for want of a matching tag, whatever its kind, whatever
/// the host and whatever the host has replied.
pub proof fn lemma_disjoint_tags_are_skipped<T: ActionHandler>(
    wrapped: ActionContainer<T>,
    tags: Seq<Seq<char>>,
    ctx: SpecContext,
    replies: Seq<SpecReply>,
)
    requires
        tags.len() > 0,
        forall|i: int, j: int|
            #![trigger tags[i], wrapped.declared_tags()[j]]
            0 <= i < tags.len() && 0 <= j < wrapped.declared_tags().len() ==> tags[i]
                != wrapped.declared_tags()[j],
    ensures
        wrapped.filtered_plan(tags, ctx, replies) == SpecStep::Finish(
            Outcome::Skipped(no_matching_tags()),
        ),
{
}

/// An action that declares no tags ends as skipped for want of a matching
/// tag under every filter that is not empty.
pub proof fn lemma_undeclared_tags_are_skipped<T: ActionHandler>(
    wrapped: ActionContainer<T>,
    tags: Seq<Seq<char>>,
    ctx: SpecContext,
    replies: Seq<SpecReply>,
)
    requires
        tags.len() > 0,
        wrapped.declared_tags().len() == 0,
    ensures
        wrapped.filtered_plan(tags, ctx, replies) == SpecStep::Finish(
            Outcome::Skipped(no_matching_tags()),
        ),
{
}

/// Under the empty filter the tags keep no action out: the action is wrapped
/// by its platforms alone, and is never skipped for want of a matching tag.
pub proof fn lemma_empty_filter_lets_through<T: ActionHandler>(
    wrapped: ActionContainer<T>,
    ctx: SpecContext,
    replies: Seq<SpecReply>,
)
    ensures
        passes_tags(Seq::empty(), wrapped.declared_tags()),
        wrapped.refusal(Seq::empty(), ctx) != Some(no_matching_tags()),
        wrapped.filtered_plan(Seq::empty(), ctx, replies) == (if passes_platform(
            wrapped.declared_platforms(),
            ctx.os,
        ) {
            wrapped.action.plan(ctx, replies)
        } else {
            SpecStep::Finish(Outcome::Skipped(wrong_platform()))
        }),
{
    reveal_strlit("no matching tags");
    reveal_strlit("not for this platform");
    assert(no_matching_tags().len() != wrong_platform().len());
}

/// An action that is let through does exactly what its kind does: the filter
/// changes nothing of its steps or its outcome.
pub proof fn lemma_filter_is_transparent<T: ActionHandler>(
    wrapped: ActionContainer<T>,
    tags: Seq<Seq<char>>,
    ctx: SpecContext,
    replies: Seq<SpecReply>,
)
    requires
        passes_tags(tags, wrapped.declared_tags()),
        passes_platform(wrapped.declared_platforms(), ctx.os),
    ensures
        wrapped.filtered_plan(tags, ctx, replies) == wrapped.action.plan(ctx, replies),
{
}

/// An action that is kept out is skipped before the host is asked anything.
pub proof fn lemma_skip_asks_nothing<T: ActionHandler>(
    wrapped: ActionContainer<T>,
    tags: Seq<Seq<char>>,
    ctx: SpecContext,
)
    requires
        wrapped.refusal(tags, ctx) is Some,
    ensures
        wrapped.filtered_plan(tags, ctx, Seq::empty()) is Finish,
{
}

} // verus!
