//! Whole sweeps: a walker run against a model of the remote collection.
//!
//! Nothing here is executable. The module states what the walker's steps add
//! up to when the remote service behaves as it promises: how many fetches a
//! sweep takes, and what it has counted at the end.

use crate::item::Item;
use crate::page::{eligibility, eligible_items};
use crate::page::{Action, OutcomeModel, PageModel, PageRequest, SweepConfig};
use crate::walker::{PhaseModel, WalkerModel};
use vstd::arithmetic::div_mod::{lemma_basic_div, lemma_div_plus_one, lemma_div_pos_is_pos};
use vstd::prelude::*;

verus! {

/// A remote collection lists its items newest first: ids strictly decrease.
pub open spec fn newest_first(collection: Seq<Item>) -> bool {
    forall|i: int, j: int|
        0 <= i < j < collection.len() ==> (#[trigger] collection[i]).id > (
        #[trigger] collection[j]).id
}

/// The predicate "strictly older than `cursor`".
pub open spec fn below(cursor: u64) -> spec_fn(Item) -> bool {
    |item: Item| item.id < cursor
}

/// The items that a request with the given cursor ranges over: all of them
/// without a cursor, else those strictly older than the cursor.
pub open spec fn older_items(collection: Seq<Item>, cursor: Option<u64>) -> Seq<Item> {
    match cursor {
        Some(bound) => collection.filter(below(bound)),
        None => collection,
    }
}

/// The page that the remote service returns for `request`: the newest
/// `page_size` of the items the request ranges over, and as cursor the id of
/// the oldest item returned, or none if no older items remain.
pub open spec fn served_page(collection: Seq<Item>, request: PageRequest) -> PageModel {
    let older = older_items(collection, request.cursor);
    if older.len() > request.page_size {
        PageModel {
            items: older.take(request.page_size as int),
            cursor: Some(older[request.page_size - 1].id),
        }
    } else {
        PageModel { items: older, cursor: None }
    }
}

/// One round of a sweep at the instant `now`: the due request is served and
/// the page evaluated. A sweep that is not fetching stays as it is.
pub open spec fn round(sweep: WalkerModel, collection: Seq<Item>, now: int) -> WalkerModel {
    match sweep.request() {
        Some(request) => sweep.receive(
            OutcomeModel::Page(served_page(collection, request)),
            now,
        ).advance(now),
        None => sweep,
    }
}

/// The sweep after one round at each of the instants `nows`, in turn.
pub open spec fn rounds(sweep: WalkerModel, collection: Seq<Item>, nows: Seq<int>) -> WalkerModel
    decreases nows.len(),
{
    if nows.len() == 0 {
        sweep
    } else {
        rounds(round(sweep, collection, nows[0]), collection, nows.drop_first())
    }
}

/// The number of fetches that those rounds issue: rounds in which a request
/// was due.
pub open spec fn fetches(sweep: WalkerModel, collection: Seq<Item>, nows: Seq<int>) -> nat
    decreases nows.len(),
{
    if nows.len() == 0 {
        0
    } else {
        let here: nat = if sweep.request() is Some {
            1
        } else {
            0
        };
        here + fetches(round(sweep, collection, nows[0]), collection, nows.drop_first())
    }
}

/// The actions that those rounds dispatch, in order.
pub open spec fn dispatched_in(sweep: WalkerModel, collection: Seq<Item>, nows: Seq<int>) -> Seq<
    Action,
>
    decreases nows.len(),
{
    if nows.len() == 0 {
        Seq::empty()
    } else {
        let here = match sweep.request() {
            Some(request) => sweep.receive(
                OutcomeModel::Page(served_page(collection, request)),
                nows[0],
            ).dispatched(nows[0]),
            None => Seq::empty(),
        };
        here + dispatched_in(round(sweep, collection, nows[0]), collection, nows.drop_first())
    }
}

/// The number of pages of `page_size` that `count` items fill, the last one
/// perhaps in part.
pub open spec fn pages_needed(count: nat, page_size: nat) -> nat {
    ((count + page_size - 1) / (page_size as int)) as nat
}

/// Whether every instant of `nows` is `now`.
pub open spec fn all_at(nows: Seq<int>, now: int) -> bool {
    forall|i: int| 0 <= i < nows.len() ==> nows[i] == now
}

/// In a collection listed newest first, the items older than the item at
/// position `k - 1` are those from position `k` on.
pub proof fn lemma_older_is_suffix(collection: Seq<Item>, k: int)
    requires
        newest_first(collection),
        0 < k <= collection.len(),
    ensures
        older_items(collection, Some(collection[k - 1].id)) == collection.skip(k),
    decreases collection.len(),
{
    let bound = collection[k - 1].id;
    let keep = below(bound);
    reveal(Seq::filter);
    if k == collection.len() {
        assert forall|i: int| 0 <= i < collection.len() implies !keep(collection[i]) by {
            if i < k - 1 {
                assert(collection[i].id > collection[k - 1].id);
            }
        }
        collection.lemma_all_neg_filter_empty(keep);
        assert(collection.filter(keep) =~= collection.skip(k));
    } else {
        let init = collection.drop_last();
        assert(newest_first(init)) by {
            assert forall|i: int, j: int| 0 <= i < j < init.len() implies (#[trigger] init[i]).id
                > (#[trigger] init[j]).id by {
                assert(collection[i].id > collection[j].id);
            }
        }
        assert(init[k - 1] == collection[k - 1]);
        lemma_older_is_suffix(init, k);
        assert(collection[k - 1].id > collection[collection.len() - 1].id);
        assert(keep(collection.last()));
        assert(collection.filter(keep) == init.filter(keep).push(collection.last()));
        assert(init.skip(k).push(collection.last()) =~= collection.skip(k));
    }
}

/// A sweep that is not fetching issues no fetch and stays as it is.
pub proof fn lemma_idle_rounds(sweep: WalkerModel, collection: Seq<Item>, nows: Seq<int>)
    requires
        !(sweep.phase is Fetching),
    ensures
        rounds(sweep, collection, nows) == sweep,
        fetches(sweep, collection, nows) == 0,
    decreases nows.len(),
{
    if nows.len() > 0 {
        lemma_idle_rounds(sweep, collection, nows.drop_first());
    }
}

/// The number of pages needed shrinks by one with each full page taken.
pub proof fn lemma_pages_needed_step(count: nat, page_size: nat)
    requires
        page_size > 0,
    ensures
        count == 0 ==> pages_needed(count, page_size) == 0,
        0 < count <= page_size ==> pages_needed(count, page_size) == 1,
        count > page_size ==> pages_needed(count, page_size) == 1 + pages_needed(
            (count - page_size) as nat,
            page_size,
        ),
{
    let p = page_size as int;
    if count == 0 {
        lemma_basic_div(p - 1, p);
    } else if count <= page_size {
        lemma_basic_div(count - 1, p);
        lemma_div_plus_one(count - 1, p);
    } else {
        lemma_div_pos_is_pos(count - 1, p);
        lemma_div_plus_one(count - 1, p);
        assert(count - p + p - 1 == count - 1);
    }
}

/// A sweep that is fetching at position `k` of a collection listed newest
/// first: its cursor is the id of the item before that position.
pub open spec fn fetching_at(sweep: WalkerModel, collection: Seq<Item>, k: int) -> bool {
    &&& sweep.phase is Fetching
    &&& 0 <= k <= collection.len()
    &&& k == 0 ==> sweep.cursor is None
    &&& k > 0 ==> sweep.cursor == Some(collection[k - 1].id)
}

/// One round moves a sweep forward by a page: either it is done, or it is
/// fetching again a full page further on, with a cursor strictly below the
/// one it had and below every item it has seen.
pub proof fn lemma_round_moves_on(sweep: WalkerModel, collection: Seq<Item>, k: int, now: int)
    requires
        sweep.config.page_size > 0,
        newest_first(collection),
        fetching_at(sweep, collection, k),
    ensures
        collection.len() - k <= sweep.config.page_size ==> round(
            sweep,
            collection,
            now,
        ).phase is Done,
        collection.len() - k > sweep.config.page_size ==> {
            &&& fetching_at(round(sweep, collection, now), collection, k + sweep.config.page_size)
            &&& round(sweep, collection, now).cursor is Some
            &&& sweep.cursor matches Some(before) ==> round(
                sweep,
                collection,
                now,
            ).cursor->Some_0 < before
        },
        served_page(collection, sweep.request()->Some_0).items == collection.subrange(
            k,
            if collection.len() - k > sweep.config.page_size {
                k + sweep.config.page_size
            } else {
                collection.len() as int
            },
        ),
{
    let p = sweep.config.page_size as int;
    let older = older_items(collection, sweep.cursor);
    assert(older == collection.skip(k)) by {
        if k > 0 {
            lemma_older_is_suffix(collection, k);
        } else {
            assert(collection.skip(0) =~= collection);
        }
    }
    let page = served_page(collection, sweep.request()->Some_0);
    if collection.len() - k > p {
        assert(older[p - 1] == collection[k + p - 1]);
        assert(page.items =~= collection.subrange(k, k + p));
        if k > 0 {
            assert(collection[k - 1].id > collection[k + p - 1].id);
        }
    } else {
        assert(page.items =~= collection.subrange(k, collection.len() as int));
    }
}

/// From position `k`, a sweep issues one fetch per page of what remains, and
/// one fetch when nothing remains; after that many rounds it is done. When
/// every round happens at the same instant, it has then counted the eligible
/// items among those that remained.
pub proof fn lemma_rounds_from(
    sweep: WalkerModel,
    collection: Seq<Item>,
    k: int,
    nows: Seq<int>,
)
    requires
        sweep.config.page_size > 0,
        newest_first(collection),
        fetching_at(sweep, collection, k),
    ensures
        collection.len() - k > 0 ==> fetches(sweep, collection, nows) <= pages_needed(
            (collection.len() - k) as nat,
            sweep.config.page_size as nat,
        ),
        collection.len() - k == 0 ==> fetches(sweep, collection, nows) <= 1,
        nows.len() >= 1 && nows.len() >= pages_needed(
            (collection.len() - k) as nat,
            sweep.config.page_size as nat,
        ) ==> {
            &&& rounds(sweep, collection, nows).phase is Done
            &&& rounds(sweep, collection, nows).config == sweep.config
            &&& forall|now: int| #[trigger]
                all_at(nows, now) ==> rounds(sweep, collection, nows).eligible_count
                    == sweep.eligible_count + eligible_items(
                    sweep.config,
                    collection.skip(k),
                    now,
                ).len()
        },
    decreases nows.len(),
{
    let p = sweep.config.page_size as nat;
    let left = (collection.len() - k) as nat;
    lemma_pages_needed_step(left, p);
    if nows.len() > 0 {
        let now0 = nows[0];
        let rest = nows.drop_first();
        let request = sweep.request()->Some_0;
        let older = older_items(collection, sweep.cursor);
        assert(older == collection.skip(k)) by {
            if k > 0 {
                lemma_older_is_suffix(collection, k);
            } else {
                assert(collection.skip(0) =~= collection);
            }
        }
        let page = served_page(collection, request);
        let next = round(sweep, collection, now0);
        assert(next == sweep.receive(OutcomeModel::Page(page), now0).advance(now0));
        let found = eligible_items(sweep.config, page.items, now0).len();
        assert(next.eligible_count == sweep.eligible_count + found);
        if left > p {
            assert(older[p - 1] == collection[k + p - 1]);
            assert(fetching_at(next, collection, k + p));
            lemma_pages_needed_step((left - p) as nat, p);
            lemma_rounds_from(next, collection, k + p, rest);
            assert(page.items + collection.skip(k + p) =~= collection.skip(k));
        } else {
            assert(page.items == collection.skip(k));
            assert(next.phase is Done);
            lemma_idle_rounds(next, collection, rest);
        }
        if nows.len() >= pages_needed(left, p) {
            assert forall|now: int| #[trigger] all_at(nows, now) implies rounds(
                sweep,
                collection,
                nows,
            ).eligible_count == sweep.eligible_count + eligible_items(
                sweep.config,
                collection.skip(k),
                now,
            ).len() by {
                assert(nows[0] == now);
                if left > p {
                    assert(all_at(rest, now)) by {
                        assert forall|i: int| 0 <= i < rest.len() implies rest[i] == now by {
                            assert(rest[i] == nows[i + 1]);
                        }
                    }
                    Seq::filter_distributes_over_add(
                        page.items,
                        collection.skip(k + p),
                        eligibility(sweep.config, now),
                    );
                }
            }
        }
    }
}

/// A sweep of a collection that is not empty ends after at most as many
/// fetches as the collection has pages, rounded up: however many rounds are
/// run, no more fetches than that are issued, and after that many rounds
/// the sweep is done.
pub proof fn lemma_sweep_terminates(config: SweepConfig, collection: Seq<Item>, nows: Seq<int>)
    requires
        config.page_size > 0,
        newest_first(collection),
        collection.len() > 0,
    ensures
        fetches(WalkerModel::start(config), collection, nows) <= pages_needed(
            collection.len(),
            config.page_size as nat,
        ),
        nows.len() >= pages_needed(collection.len(), config.page_size as nat) ==> rounds(
            WalkerModel::start(config),
            collection,
            nows,
        ).phase is Done,
{
    lemma_pages_needed_step(collection.len(), config.page_size as nat);
    lemma_rounds_from(WalkerModel::start(config), collection, 0, nows);
    if nows.len() == 0 {
        assert(pages_needed(collection.len(), config.page_size as nat) >= 1);
    }
}

/// A sweep of an empty collection takes one fetch, which finds it exhausted.
pub proof fn lemma_sweep_of_nothing(config: SweepConfig, nows: Seq<int>)
    requires
        nows.len() > 0,
    ensures
        fetches(WalkerModel::start(config), Seq::<Item>::empty(), nows) == 1,
        rounds(WalkerModel::start(config), Seq::<Item>::empty(), nows).phase is Done,
        rounds(WalkerModel::start(config), Seq::<Item>::empty(), nows).eligible_count == 0,
{
    let start = WalkerModel::start(config);
    let empty = Seq::<Item>::empty();
    let next = round(start, empty, nows[0]);
    reveal(Seq::filter);
    assert(next.phase is Done);
    assert(next.eligible_count == 0);
    lemma_idle_rounds(next, empty, nows.drop_first());
}

/// A finished sweep, every round of which happened at the instant `now`,
/// has counted exactly the eligible items of the collection.
pub proof fn lemma_sweep_counts_all(
    config: SweepConfig,
    collection: Seq<Item>,
    nows: Seq<int>,
    now: int,
)
    requires
        config.page_size > 0,
        newest_first(collection),
        nows.len() >= 1,
        nows.len() >= pages_needed(collection.len(), config.page_size as nat),
        all_at(nows, now),
    ensures
        rounds(WalkerModel::start(config), collection, nows).phase is Done,
        rounds(WalkerModel::start(config), collection, nows).eligible_count == eligible_items(
            config,
            collection,
            now,
        ).len(),
{
    lemma_rounds_from(WalkerModel::start(config), collection, 0, nows);
    assert(collection.skip(0) =~= collection);
}

/// A dry run and a live run of the same sweep, given the same pages at the
/// same instants, pass through the same states, the flag apart: they issue
/// the same requests and count the same number of eligible items. The dry
/// run dispatches nothing; the live run dispatches one action for each item
/// that it counts.
pub proof fn lemma_dry_run_same_rounds(sweep: WalkerModel, collection: Seq<Item>, nows: Seq<int>)
    ensures
        dispatched_in(sweep.with_dry_run(true), collection, nows).len() == 0,
        dispatched_in(sweep.with_dry_run(false), collection, nows).len() == rounds(
            sweep.with_dry_run(false),
            collection,
            nows,
        ).eligible_count - sweep.eligible_count,
        rounds(sweep.with_dry_run(true), collection, nows) == rounds(
            sweep.with_dry_run(false),
            collection,
            nows,
        ).with_dry_run(true),
        rounds(sweep.with_dry_run(true), collection, nows).eligible_count == rounds(
            sweep.with_dry_run(false),
            collection,
            nows,
        ).eligible_count,
        fetches(sweep.with_dry_run(true), collection, nows) == fetches(
            sweep.with_dry_run(false),
            collection,
            nows,
        ),
    decreases nows.len(),
{
    if nows.len() > 0 {
        let dry = sweep.with_dry_run(true);
        let live = sweep.with_dry_run(false);
        let now = nows[0];
        match sweep.request() {
            Some(request) => {
                let page = served_page(collection, request);
                let dry_pending = dry.receive(OutcomeModel::Page(page), now);
                let live_pending = live.receive(OutcomeModel::Page(page), now);
                assert(dry_pending == live_pending.with_dry_run(true));
                assert(live_pending == live_pending.with_dry_run(false));
                crate::walker::lemma_dry_run_step(live_pending, now);
            },
            None => {},
        }
        let next = round(live, collection, now);
        assert(round(dry, collection, now) == next.with_dry_run(true));
        assert(next == next.with_dry_run(false));
        lemma_dry_run_same_rounds(next, collection, nows.drop_first());
    }
}

} // verus!
