//! The page walker: a state machine that requests one page after another,
//! counts and dispatches what is eligible, and pauses on a rate limit.

use crate::clock::unix_now;
use crate::governor::{handle_rate_limit, pause_seconds};
use crate::item::Item;
use crate::page::{action_kind, is_eligible};
use crate::page::{actions_for, eligibility, eligible_items};
use crate::page::{lemma_prefix_bound, lemma_prefix_step};
use crate::page::{action_for, Action, ActionKind, FetchOutcome, PageRequest, PageResult, SweepConfig};
use crate::page::{OutcomeModel, PageModel};
use vstd::prelude::*;

verus! {

/// Where a sweep stands.
#[derive(Clone, Debug)]
pub enum Phase {
    /// A request for the page at the current cursor is due or under way.
    Fetching,
    /// The service signalled a rate limit; the sweep waits this many seconds
    /// and then fetches again at the same cursor.
    Suspended { seconds: u64 },
    /// A page has arrived and awaits evaluation.
    Advancing { page: PageResult },
    /// The collection is exhausted.
    Done,
    /// A fetch failed for a reason other than a rate limit.
    Failed,
}

/// Mathematical model of a [`Phase`].
pub enum PhaseModel {
    Fetching,
    Suspended { seconds: nat },
    Advancing { page: PageModel },
    Done,
    Failed,
}

impl View for Phase {
    type V = PhaseModel;

    open spec fn view(&self) -> PhaseModel {
        match *self {
            Phase::Fetching => PhaseModel::Fetching,
            Phase::Suspended { seconds } => PhaseModel::Suspended { seconds: seconds as nat },
            Phase::Advancing { page } => PhaseModel::Advancing { page: page@ },
            Phase::Done => PhaseModel::Done,
            Phase::Failed => PhaseModel::Failed,
        }
    }
}

/// What a caller reads off a sweep: the cursor, whether the collection is
/// exhausted, and how many eligible items were found so far.
#[derive(Clone, Copy, Debug, PartialEq, Eq, Structural)]
pub struct SweepState {
    pub cursor: Option<u64>,
    pub exhausted: bool,
    pub eligible_count: u64,
}

/// Mathematical model of a [`Walker`].
pub struct WalkerModel {
    pub config: SweepConfig,
    pub phase: PhaseModel,
    /// Lower bound of the next request: the cursor of the last page evaluated.
    pub cursor: Option<u64>,
    /// Number of eligible items in the pages evaluated so far.
    pub eligible_count: nat,
}

impl WalkerModel {
    /// A sweep starts by fetching, with no cursor and nothing counted.
    pub open spec fn start(config: SweepConfig) -> WalkerModel {
        WalkerModel { config, phase: PhaseModel::Fetching, cursor: None, eligible_count: 0 }
    }

    /// The request that is due: one while fetching, none in any other phase.
    pub open spec fn request(self) -> Option<PageRequest> {
        if self.phase is Fetching {
            Some(
                PageRequest {
                    owner_id: self.config.owner_id,
                    page_size: self.config.page_size,
                    cursor: self.cursor,
                },
            )
        } else {
            None
        }
    }

    /// The sweep after a fetch ended with `outcome` at the instant `now`.
    ///
    /// While fetching, a page moves the sweep to `Advancing`, a rate limit to
    /// `Suspended` for the pause that the governor computes, any other failure
    /// to `Failed`. Cursor and count stay as they are. In any other phase the
    /// outcome is ignored.
    pub open spec fn receive(self, outcome: OutcomeModel, now: int) -> WalkerModel {
        if self.phase is Fetching {
            match outcome {
                OutcomeModel::Page(page) => WalkerModel {
                    phase: PhaseModel::Advancing { page },
                    ..self
                },
                OutcomeModel::RateLimited(reset) => WalkerModel {
                    phase: PhaseModel::Suspended { seconds: pause_seconds(reset, now) as nat },
                    ..self
                },
                OutcomeModel::Failed => WalkerModel { phase: PhaseModel::Failed, ..self },
            }
        } else {
            self
        }
    }

    /// The sweep after a pause: fetching again, all else unchanged. Outside
    /// `Suspended` nothing changes.
    pub open spec fn resume(self) -> WalkerModel {
        if self.phase is Suspended {
            WalkerModel { phase: PhaseModel::Fetching, ..self }
        } else {
            self
        }
    }

    /// The sweep after the pending page was evaluated at the instant `now`.
    ///
    /// The count grows by the number of eligible items on the page. A page
    /// without a cursor ends the sweep; otherwise its cursor becomes the
    /// sweep's and the next fetch is due. Outside `Advancing` nothing changes.
    pub open spec fn advance(self, now: int) -> WalkerModel {
        match self.phase {
            PhaseModel::Advancing { page } => {
                let count = self.eligible_count + eligible_items(
                    self.config,
                    page.items,
                    now,
                ).len();
                match page.cursor {
                    Some(cursor) => WalkerModel {
                        phase: PhaseModel::Fetching,
                        cursor: Some(cursor),
                        eligible_count: count,
                        ..self
                    },
                    None => WalkerModel {
                        phase: PhaseModel::Done,
                        eligible_count: count,
                        ..self
                    },
                }
            },
            _ => self,
        }
    }

    /// The actions that evaluating the pending page at `now` dispatches.
    pub open spec fn dispatched(self, now: int) -> Seq<Action> {
        match self.phase {
            PhaseModel::Advancing { page } => actions_for(self.config, page.items, now),
            _ => Seq::empty(),
        }
    }

    /// The items of the pending page, none when no page is pending.
    pub open spec fn pending_items(self) -> Seq<Item> {
        match self.phase {
            PhaseModel::Advancing { page } => page.items,
            _ => Seq::empty(),
        }
    }

    /// The number of items on the pending page, zero when none is pending.
    pub open spec fn pending_len(self) -> nat {
        match self.phase {
            PhaseModel::Advancing { page } => page.items.len(),
            _ => 0,
        }
    }

    /// The number of eligible items on the pending page, zero when none is
    /// pending.
    pub open spec fn pending_eligible(self, now: int) -> nat {
        match self.phase {
            PhaseModel::Advancing { page } => eligible_items(self.config, page.items, now).len(),
            _ => 0,
        }
    }
}

impl WalkerModel {
    /// The same sweep with the dry-run flag set to `flag`.
    pub open spec fn with_dry_run(self, flag: bool) -> WalkerModel {
        WalkerModel { config: SweepConfig { dry_run: flag, ..self.config }, ..self }
    }
}

/// A rate limit makes no progress: the sweep is suspended for the pause the
/// governor computes, with cursor and count untouched, and after the pause
/// it is exactly where it was, so the retry asks for the same page with the
/// same cursor as the attempt that failed.
pub proof fn lemma_rate_limit_keeps_cursor(sweep: WalkerModel, reset: int, now: int)
    requires
        sweep.phase is Fetching,
    ensures
        sweep.receive(OutcomeModel::RateLimited(reset), now).phase == (PhaseModel::Suspended {
            seconds: pause_seconds(reset, now) as nat,
        }),
        sweep.receive(OutcomeModel::RateLimited(reset), now).request() is None,
        sweep.receive(OutcomeModel::RateLimited(reset), now).cursor == sweep.cursor,
        sweep.receive(OutcomeModel::RateLimited(reset), now).eligible_count
            == sweep.eligible_count,
        sweep.receive(OutcomeModel::RateLimited(reset), now).resume() == sweep,
        sweep.receive(OutcomeModel::RateLimited(reset), now).resume().request()
            == sweep.request(),
{
}

/// Whether a sweep is a dry run changes nothing about what counts as
/// eligible.
pub proof fn lemma_dry_run_same_eligible(config: SweepConfig, items: Seq<Item>, now: int)
    ensures
        eligible_items(SweepConfig { dry_run: true, ..config }, items, now) == eligible_items(
            SweepConfig { dry_run: false, ..config },
            items,
            now,
        ),
{
    assert(eligibility(SweepConfig { dry_run: true, ..config }, now) =~= eligibility(
        SweepConfig { dry_run: false, ..config },
        now,
    ));
}

/// Evaluating a page in a dry run dispatches nothing and leaves the sweep in
/// the state that the live evaluation reaches, the flag apart; the live
/// evaluation dispatches one action per eligible item, each of the sweep's
/// kind and naming that item.
pub proof fn lemma_dry_run_step(sweep: WalkerModel, now: int)
    ensures
        sweep.with_dry_run(true).dispatched(now).len() == 0,
        sweep.with_dry_run(true).advance(now) == sweep.with_dry_run(false).advance(
            now,
        ).with_dry_run(true),
        sweep.with_dry_run(true).advance(now).eligible_count == sweep.with_dry_run(false).advance(
            now,
        ).eligible_count,
        sweep.with_dry_run(false).dispatched(now).len() == sweep.with_dry_run(
            false,
        ).pending_eligible(now),
        forall|i: int|
            0 <= i < sweep.with_dry_run(false).dispatched(now).len() ==> {
                &&& (#[trigger] sweep.with_dry_run(false).dispatched(now)[i]).kind == action_for(
                    sweep.config.kind,
                )
                &&& sweep.with_dry_run(false).dispatched(now)[i].item_id == eligible_items(
                    sweep.config,
                    sweep.pending_items(),
                    now,
                )[i].id
            },
{
    match sweep.phase {
        PhaseModel::Advancing { page } => {
            lemma_dry_run_same_eligible(sweep.config, page.items, now);
            assert(eligibility(sweep.config, now) =~= eligibility(
                SweepConfig { dry_run: false, ..sweep.config },
                now,
            ));
        },
        _ => {},
    }
}

/// The page walker of one sweep.
#[derive(Clone, Debug)]
pub struct Walker {
    config: SweepConfig,
    phase: Phase,
    cursor: Option<u64>,
    eligible_count: u64,
}

impl View for Walker {
    type V = WalkerModel;

    closed spec fn view(&self) -> WalkerModel {
        WalkerModel {
            config: self.config,
            phase: self.phase@,
            cursor: self.cursor,
            eligible_count: self.eligible_count as nat,
        }
    }
}

impl Walker {
    /// Starts a sweep with the given parameters.
    pub fn new(config: SweepConfig) -> (walker: Walker)
        ensures
            walker@ == WalkerModel::start(config),
    {
        Walker { config, phase: Phase::Fetching, cursor: None, eligible_count: 0 }
    }

    /// The parameters the sweep was started with.
    pub fn config(&self) -> (config: SweepConfig)
        ensures
            config == self@.config,
    {
        self.config
    }

    /// The phase the sweep is in.
    pub fn phase(&self) -> (phase: &Phase)
        ensures
            phase@ == self@.phase,
    {
        &self.phase
    }

    /// Cursor, exhaustion and count of the sweep.
    pub fn state(&self) -> (state: SweepState)
        ensures
            state.cursor == self@.cursor,
            state.exhausted == (self@.phase is Done),
            state.eligible_count == self@.eligible_count,
    {
        let exhausted: bool = match self.phase {
            Phase::Done => true,
            _ => false,
        };
        SweepState { cursor: self.cursor, exhausted, eligible_count: self.eligible_count }
    }

    /// Whether the sweep has reached `Done`.
    pub fn is_done(&self) -> (done: bool)
        ensures
            done == (self@.phase is Done),
    {
        match self.phase {
            Phase::Done => true,
            _ => false,
        }
    }

    /// The request to issue now, if the sweep is fetching.
    pub fn request(&self) -> (request: Option<PageRequest>)
        ensures
            request == self@.request(),
    {
        match self.phase {
            Phase::Fetching => Some(
                PageRequest {
                    owner_id: self.config.owner_id,
                    page_size: self.config.page_size,
                    cursor: self.cursor,
                },
            ),
            _ => None,
        }
    }

    /// Takes in the outcome of the fetch that ended at the instant `now`.
    pub fn receive_at(&mut self, outcome: FetchOutcome, now: i64)
        ensures
            final(self)@ == old(self)@.receive(outcome@, now as int),
    {
        let fetching: bool = match self.phase {
            Phase::Fetching => true,
            _ => false,
        };
        if fetching {
            match outcome {
                FetchOutcome::Page(page) => {
                    self.phase = Phase::Advancing { page };
                },
                FetchOutcome::RateLimited(reset) => {
                    let seconds: u64 = handle_rate_limit(reset, now);
                    self.phase = Phase::Suspended { seconds };
                },
                FetchOutcome::Failed => {
                    self.phase = Phase::Failed;
                },
            }
        }
    }

    /// Evaluates the pending page at the instant `now` and returns the actions
    /// to dispatch: one per eligible item, none in a dry run.
    ///
    /// The count of eligible items must stay within `u64`.
    pub fn advance_at(&mut self, now: i64) -> (actions: Vec<Action>)
        requires
            old(self)@.eligible_count + old(self)@.pending_eligible(now as int) <= u64::MAX,
        ensures
            final(self)@ == old(self)@.advance(now as int),
            actions@ == old(self)@.dispatched(now as int),
    {
        let mut actions: Vec<Action> = Vec::new();
        let mut count: u64 = self.eligible_count;
        let mut next: Option<Phase> = None;
        let mut cursor: Option<u64> = self.cursor;
        match &self.phase {
            Phase::Advancing { page } => {
                let config: SweepConfig = self.config;
                let kind: ActionKind = action_kind(config.kind);
                let ghost items = page.items@;
                let ghost base = self.eligible_count as nat;
                let mut i: usize = 0;
                proof {
                    assert(items.take(0) =~= Seq::<Item>::empty());
                    reveal(Seq::filter);
                    assert(eligible_items(config, items.take(0), now as int) =~= Seq::<
                        Item,
                    >::empty());
                    assert(actions_for(config, items.take(0), now as int) =~= Seq::<
                        Action,
                    >::empty());
                }
                while i < page.items.len()
                    invariant
                        i <= items.len(),
                        items == page.items@,
                        kind == action_for(config.kind),
                        base + eligible_items(config, items, now as int).len() <= u64::MAX,
                        count == base + eligible_items(
                            config,
                            items.take(i as int),
                            now as int,
                        ).len(),
                        actions@ == actions_for(config, items.take(i as int), now as int),
                    decreases items.len() - i,
                {
                    let item: &Item = &page.items[i];
                    proof {
                        lemma_prefix_step(config, items, i as int, now as int);
                        lemma_prefix_bound(config, items, i + 1, now as int);
                    }
                    if is_eligible(&config, item, now) {
                        count = count + 1;
                        if !config.dry_run {
                            actions.push(Action { kind, item_id: item.id });
                        }
                    }
                    i = i + 1;
                }
                proof {
                    assert(items.take(i as int) =~= items);
                }
                match page.cursor {
                    Some(older) => {
                        cursor = Some(older);
                        next = Some(Phase::Fetching);
                    },
                    None => {
                        next = Some(Phase::Done);
                    },
                }
            },
            _ => {},
        }
        match next {
            Some(phase) => {
                self.phase = phase;
                self.cursor = cursor;
                self.eligible_count = count;
            },
            None => {},
        }
        actions
    }

    /// Takes in the outcome of a fetch that has just ended. The wall clock
    /// gives the instant, which only the pause after a rate limit depends on.
    pub fn receive(&mut self, outcome: FetchOutcome)
        ensures
            exists|now: i64| final(self)@ == #[trigger] old(self)@.receive(outcome@, now as int),
    {
        let now: i64 = unix_now();
        let ghost before = self@;
        let ghost event = outcome@;
        self.receive_at(outcome, now);
        assert(self@ == before.receive(event, now as int));
    }

    /// Evaluates the pending page at the instant the wall clock gives.
    ///
    /// The count of eligible items must stay within `u64` however many items
    /// of the page turn out eligible.
    pub fn advance(&mut self) -> (actions: Vec<Action>)
        requires
            old(self)@.eligible_count + old(self)@.pending_len() <= u64::MAX,
        ensures
            exists|now: i64|
                {
                    &&& final(self)@ == #[trigger] old(self)@.advance(now as int)
                    &&& actions@ == old(self)@.dispatched(now as int)
                },
    {
        let now: i64 = unix_now();
        let ghost before = self@;
        proof {
            match before.phase {
                PhaseModel::Advancing { page } => {
                    page.items.lemma_filter_len(eligibility(before.config, now as int));
                },
                _ => {},
            }
        }
        let actions: Vec<Action> = self.advance_at(now);
        assert(self@ == before.advance(now as int));
        actions
    }

    /// Ends a pause: the sweep fetches again at the cursor it had.
    pub fn resume(&mut self)
        ensures
            final(self)@ == old(self)@.resume(),
    {
        let suspended: bool = match self.phase {
            Phase::Suspended { .. } => true,
            _ => false,
        };
        if suspended {
            self.phase = Phase::Fetching;
        }
    }
}

} // verus!
