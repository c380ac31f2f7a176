//! Requests, pages and the outcomes of a fetch, with their mathematical models.

use crate::item::Item;
use crate::item::{deletable, unlikable};
use crate::item::{is_deletable, is_unlikable};
use vstd::prelude::*;

verus! {

/// The remote collection that a sweep walks.
#[derive(Clone, Copy, Debug, PartialEq, Eq, Structural)]
pub enum SweepKind {
    /// The caller's own timeline; eligible items are deleted.
    Timeline,
    /// The items the caller has liked; eligible items are unliked.
    Likes,
}

/// What is done to an eligible item.
#[derive(Clone, Copy, Debug, PartialEq, Eq, Structural)]
pub enum ActionKind {
    /// Remove the item from the caller's timeline.
    Delete,
    /// Remove the caller's like from the item.
    Unlike,
}

/// One call that the program is asked to make on the remote service.
#[derive(Clone, Copy, Debug, PartialEq, Eq, Structural)]
pub struct Action {
    pub kind: ActionKind,
    pub item_id: u64,
}

/// The fixed parameters of one sweep.
#[derive(Clone, Copy, Debug, PartialEq, Eq, Structural)]
pub struct SweepConfig {
    /// Which collection is walked, and so which predicate and action apply.
    pub kind: SweepKind,
    /// Identity of the caller, owner of the collection.
    pub owner_id: u64,
    /// Largest number of items asked for in one request.
    pub page_size: u32,
    /// Age in seconds beyond which an item has expired.
    pub span_seconds: i64,
    /// When set, eligible items are counted but no action is dispatched.
    pub dry_run: bool,
}

/// One request for a page of the remote collection.
#[derive(Clone, Copy, Debug, PartialEq, Eq, Structural)]
pub struct PageRequest {
    pub owner_id: u64,
    pub page_size: u32,
    /// Only items strictly older than this id are asked for; `None` asks for
    /// the newest items.
    pub cursor: Option<u64>,
}

/// One page as the remote service returned it.
#[derive(Clone, Debug)]
pub struct PageResult {
    /// The items of the page, newest first.
    pub items: Vec<Item>,
    /// Where the next request continues; `None` when no older items remain.
    pub cursor: Option<u64>,
}

/// Mathematical model of a [`PageResult`].
pub struct PageModel {
    pub items: Seq<Item>,
    pub cursor: Option<u64>,
}

impl View for PageResult {
    type V = PageModel;

    open spec fn view(&self) -> PageModel {
        PageModel { items: self.items@, cursor: self.cursor }
    }
}

/// How a fetch ended.
#[derive(Clone, Debug)]
pub enum FetchOutcome {
    /// The service returned a page.
    Page(PageResult),
    /// The service refused the request until the given Unix time.
    RateLimited(i64),
    /// The fetch failed for any other reason.
    Failed,
}

/// Mathematical model of a [`FetchOutcome`].
pub enum OutcomeModel {
    Page(PageModel),
    RateLimited(int),
    Failed,
}

impl View for FetchOutcome {
    type V = OutcomeModel;

    open spec fn view(&self) -> OutcomeModel {
        match *self {
            FetchOutcome::Page(page) => OutcomeModel::Page(page@),
            FetchOutcome::RateLimited(reset) => OutcomeModel::RateLimited(reset as int),
            FetchOutcome::Failed => OutcomeModel::Failed,
        }
    }
}

/// The action that a sweep of the given kind takes on an eligible item.
pub open spec fn action_for(kind: SweepKind) -> ActionKind {
    match kind {
        SweepKind::Timeline => ActionKind::Delete,
        SweepKind::Likes => ActionKind::Unlike,
    }
}

/// Whether a sweep with the given parameters acts on `item` at the instant
/// `now`: a timeline sweep deletes what has expired and is not protected, a
/// likes sweep unlikes what has expired and is owned by somebody else.
pub open spec fn eligible(config: SweepConfig, item: Item, now: int) -> bool {
    match config.kind {
        SweepKind::Timeline => deletable(item, config.span_seconds as int, now),
        SweepKind::Likes => unlikable(item, config.span_seconds as int, now, config.owner_id),
    }
}

/// The eligibility test of a sweep as a predicate on items.
pub open spec fn eligibility(config: SweepConfig, now: int) -> spec_fn(Item) -> bool {
    |item: Item| eligible(config, item, now)
}

/// The items of `items` on which the sweep acts, in their order.
pub open spec fn eligible_items(config: SweepConfig, items: Seq<Item>, now: int) -> Seq<Item> {
    items.filter(eligibility(config, now))
}

/// The actions that a page gives rise to: none in a dry run, else one per
/// eligible item, in the order of the page.
pub open spec fn actions_for(config: SweepConfig, items: Seq<Item>, now: int) -> Seq<Action> {
    if config.dry_run {
        Seq::empty()
    } else {
        eligible_items(config, items, now).map_values(
            |item: Item| Action { kind: action_for(config.kind), item_id: item.id },
        )
    }
}

/// Extending a prefix of a page by its next item extends the eligible items
/// and the actions by that item exactly when it is eligible.
pub proof fn lemma_prefix_step(config: SweepConfig, items: Seq<Item>, i: int, now: int)
    requires
        0 <= i < items.len(),
    ensures
        eligible_items(config, items.take(i + 1), now) == if eligible(config, items[i], now) {
            eligible_items(config, items.take(i), now).push(items[i])
        } else {
            eligible_items(config, items.take(i), now)
        },
        actions_for(config, items.take(i + 1), now) == if eligible(config, items[i], now)
            && !config.dry_run {
            actions_for(config, items.take(i), now).push(
                Action { kind: action_for(config.kind), item_id: items[i].id },
            )
        } else {
            actions_for(config, items.take(i), now)
        },
{
    assert(items.take(i + 1) =~= items.take(i).push(items[i]));
    items.take(i).lemma_filter_push(items[i], eligibility(config, now));
    if eligible(config, items[i], now) && !config.dry_run {
        assert(actions_for(config, items.take(i + 1), now) =~= actions_for(
            config,
            items.take(i),
            now,
        ).push(Action { kind: action_for(config.kind), item_id: items[i].id }));
    }
}

/// A prefix of a page holds no more eligible items than the page.
pub proof fn lemma_prefix_bound(config: SweepConfig, items: Seq<Item>, i: int, now: int)
    requires
        0 <= i <= items.len(),
    ensures
        eligible_items(config, items.take(i), now).len() <= eligible_items(
            config,
            items,
            now,
        ).len(),
{
    items.lemma_filter_take_len(eligibility(config, now), i);
}

/// Returns the action that a sweep of the given kind takes.
pub fn action_kind(kind: SweepKind) -> (action: ActionKind)
    ensures
        action == action_for(kind),
{
    match kind {
        SweepKind::Timeline => ActionKind::Delete,
        SweepKind::Likes => ActionKind::Unlike,
    }
}

/// Decides whether the sweep acts on `item` at the instant `now`.
pub fn is_eligible(config: &SweepConfig, item: &Item, now: i64) -> (acts: bool)
    ensures
        acts == eligible(*config, *item, now as int),
        acts == eligibility(*config, now as int)(*item),
{
    match config.kind {
        SweepKind::Timeline => is_deletable(item, config.span_seconds, now),
        SweepKind::Likes => is_unlikable(item, config.span_seconds, now, config.owner_id),
    }
}

} // verus!
