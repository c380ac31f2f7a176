use eggspire::item::Item;
use eggspire::page::{Action, ActionKind, FetchOutcome, PageRequest, PageResult};
use eggspire::page::{SweepConfig, SweepKind};
use eggspire::walker::{Phase, SweepState, Walker};

const NOW: i64 = 1_700_000_000;
const SPAN: i64 = 604_800;
const CALLER: u64 = 1;

fn config(kind: SweepKind, page_size: u32, dry_run: bool) -> SweepConfig {
    SweepConfig { kind, owner_id: CALLER, page_size, span_seconds: SPAN, dry_run }
}

fn expired_unfaved(id: u64) -> Item {
    Item { id, created_at: NOW - SPAN - 1, favorited: Some(false), owner_id: Some(CALLER) }
}

fn recent(id: u64) -> Item {
    Item { id, created_at: NOW - 60, favorited: Some(false), owner_id: Some(CALLER) }
}

/// A collection of `len` items, newest first; the item at position `i` has
/// id `10_000 - i` and is expired and unfavorited below `expired_below`.
fn collection(len: u64, expired_below: u64) -> Vec<Item> {
    let mut items: Vec<Item> = Vec::new();
    for i in 0..len {
        let id: u64 = 10_000 - i;
        items.push(if i < expired_below { expired_unfaved(id) } else { recent(id) });
    }
    items
}

/// The remote service: the newest `page_size` items older than the cursor,
/// and a cursor only if older items remain.
fn serve(collection: &[Item], request: &PageRequest) -> PageResult {
    let older: Vec<Item> = collection
        .iter()
        .filter(|item| request.cursor.map_or(true, |cursor| item.id < cursor))
        .copied()
        .collect();
    let size: usize = request.page_size as usize;
    if older.len() > size {
        let items: Vec<Item> = older[..size].to_vec();
        let cursor: Option<u64> = Some(items[size - 1].id);
        PageResult { items, cursor }
    } else {
        PageResult { items: older, cursor: None }
    }
}

/// Runs a sweep to its end and returns the walker, the number of fetches and
/// the actions dispatched.
fn run(config: SweepConfig, collection: &[Item]) -> (Walker, usize, Vec<Action>) {
    let mut walker = Walker::new(config);
    let mut fetches: usize = 0;
    let mut actions: Vec<Action> = Vec::new();
    while let Some(request) = walker.request() {
        fetches += 1;
        assert!(fetches <= collection.len() + 1);
        walker.receive_at(FetchOutcome::Page(serve(collection, &request)), NOW);
        actions.extend(walker.advance_at(NOW));
    }
    (walker, fetches, actions)
}

#[test]
fn a_new_walker_fetches_without_cursor() {
    let walker = Walker::new(config(SweepKind::Timeline, 100, false));
    assert!(matches!(walker.phase(), Phase::Fetching));
    assert_eq!(
        walker.request(),
        Some(PageRequest { owner_id: CALLER, page_size: 100, cursor: None })
    );
    assert_eq!(walker.state(), SweepState { cursor: None, exhausted: false, eligible_count: 0 });
    assert!(!walker.is_done());
    assert_eq!(walker.config(), config(SweepKind::Timeline, 100, false));
}

#[test]
fn two_pages_of_150_items() {
    let items = collection(150, 120);
    let mut walker = Walker::new(config(SweepKind::Timeline, 100, false));

    let first = walker.request().unwrap();
    assert_eq!(first.cursor, None);
    let page = serve(&items, &first);
    assert_eq!(page.items.len(), 100);
    walker.receive_at(FetchOutcome::Page(page), NOW);
    assert!(matches!(walker.phase(), Phase::Advancing { .. }));
    assert_eq!(walker.request(), None);
    let dispatched = walker.advance_at(NOW);
    assert_eq!(dispatched.len(), 100);
    assert!(matches!(walker.phase(), Phase::Fetching));
    // The cursor is the id of the hundredth item, the oldest seen so far.
    assert_eq!(walker.state().cursor, Some(items[99].id));
    assert_eq!(walker.state().eligible_count, 100);
    assert!(!walker.state().exhausted);

    let second = walker.request().unwrap();
    assert_eq!(second.cursor, Some(items[99].id));
    let page = serve(&items, &second);
    assert_eq!(page.items.len(), 50);
    assert_eq!(page.cursor, None);
    walker.receive_at(FetchOutcome::Page(page), NOW);
    let dispatched = walker.advance_at(NOW);
    assert_eq!(dispatched.len(), 20);
    assert!(matches!(walker.phase(), Phase::Done));
    assert!(walker.is_done());
    assert_eq!(walker.request(), None);
    assert_eq!(walker.state().eligible_count, 120);
    assert!(walker.state().exhausted);
}

#[test]
fn two_pages_of_150_items_take_two_fetches() {
    let (walker, fetches, actions) = run(config(SweepKind::Timeline, 100, false), &collection(150, 120));
    assert_eq!(fetches, 2);
    assert!(walker.is_done());
    assert_eq!(walker.state().eligible_count, 120);
    assert_eq!(actions.len(), 120);
}

#[test]
fn fetches_never_exceed_the_number_of_pages() {
    let sizes: [(u64, u32, usize); 9] = [
        (1, 100, 1),
        (99, 100, 1),
        (100, 100, 1),
        (101, 100, 2),
        (200, 100, 2),
        (201, 100, 3),
        (7, 1, 7),
        (7, 2, 4),
        (7, 7, 1),
    ];
    for (len, page_size, pages) in sizes {
        let (walker, fetches, _) = run(config(SweepKind::Timeline, page_size, true), &collection(len, len));
        assert_eq!(fetches, pages, "{} items in pages of {}", len, page_size);
        assert!(walker.is_done());
        assert_eq!(walker.state().eligible_count, len);
    }
}

#[test]
fn an_empty_collection_takes_one_fetch() {
    let (walker, fetches, actions) = run(config(SweepKind::Timeline, 100, false), &[]);
    assert_eq!(fetches, 1);
    assert!(walker.is_done());
    assert_eq!(walker.state(), SweepState { cursor: None, exhausted: true, eligible_count: 0 });
    assert!(actions.is_empty());
}

#[test]
fn rate_limit_on_the_first_fetch_keeps_the_absent_cursor() {
    let mut walker = Walker::new(config(SweepKind::Timeline, 100, false));
    let failed = walker.request().unwrap();
    walker.receive_at(FetchOutcome::RateLimited(NOW + 30), NOW);
    assert!(matches!(walker.phase(), Phase::Suspended { seconds: 30 }));
    assert_eq!(walker.request(), None);
    walker.resume();
    assert!(matches!(walker.phase(), Phase::Fetching));
    let retry = walker.request().unwrap();
    assert_eq!(retry, failed);
    assert_eq!(retry.cursor, None);
    assert_eq!(walker.state().eligible_count, 0);
}

#[test]
fn rate_limit_in_mid_sweep_keeps_the_cursor() {
    let items = collection(150, 120);
    let mut walker = Walker::new(config(SweepKind::Timeline, 100, false));
    let first = walker.request().unwrap();
    walker.receive_at(FetchOutcome::Page(serve(&items, &first)), NOW);
    walker.advance_at(NOW);
    let failed = walker.request().unwrap();
    assert_eq!(failed.cursor, Some(items[99].id));

    walker.receive_at(FetchOutcome::RateLimited(NOW + 900), NOW);
    assert!(matches!(walker.phase(), Phase::Suspended { seconds: 900 }));
    assert_eq!(walker.state().cursor, Some(items[99].id));
    assert_eq!(walker.state().eligible_count, 100);
    walker.resume();
    assert_eq!(walker.request().unwrap(), failed);

    // Twice in a row changes nothing either.
    walker.receive_at(FetchOutcome::RateLimited(NOW + 5), NOW + 900);
    assert!(matches!(walker.phase(), Phase::Suspended { seconds: 0 }));
    walker.resume();
    let retry = walker.request().unwrap();
    assert_eq!(retry, failed);

    walker.receive_at(FetchOutcome::Page(serve(&items, &retry)), NOW);
    walker.advance_at(NOW);
    assert!(walker.is_done());
    assert_eq!(walker.state().eligible_count, 120);
}

#[test]
fn a_reset_time_in_the_past_pauses_for_nothing() {
    let mut walker = Walker::new(config(SweepKind::Timeline, 100, false));
    walker.receive_at(FetchOutcome::RateLimited(NOW - 30), NOW);
    assert!(matches!(walker.phase(), Phase::Suspended { seconds: 0 }));
    walker.resume();
    assert!(matches!(walker.phase(), Phase::Fetching));
}

#[test]
fn any_other_failure_is_fatal() {
    let mut walker = Walker::new(config(SweepKind::Timeline, 100, false));
    walker.receive_at(FetchOutcome::Failed, NOW);
    assert!(matches!(walker.phase(), Phase::Failed));
    assert_eq!(walker.request(), None);
    assert!(!walker.is_done());
    assert!(!walker.state().exhausted);
    walker.resume();
    assert!(matches!(walker.phase(), Phase::Failed));
    assert!(walker.advance_at(NOW).is_empty());
    assert!(matches!(walker.phase(), Phase::Failed));
}

#[test]
fn dry_run_counts_the_same_and_dispatches_nothing() {
    let items = collection(150, 120);
    let (live, live_fetches, live_actions) = run(config(SweepKind::Timeline, 100, false), &items);
    let (dry, dry_fetches, dry_actions) = run(config(SweepKind::Timeline, 100, true), &items);
    assert_eq!(dry.state(), live.state());
    assert_eq!(dry.state().eligible_count, 120);
    assert_eq!(dry_fetches, live_fetches);
    assert!(dry_actions.is_empty());
    assert_eq!(live_actions.len(), 120);
}

#[test]
fn live_run_dispatches_one_action_per_eligible_item_in_order() {
    let items = vec![
        expired_unfaved(50),
        recent(49),
        Item { favorited: Some(true), ..expired_unfaved(48) },
        Item { favorited: None, ..expired_unfaved(47) },
        expired_unfaved(46),
    ];
    let mut walker = Walker::new(config(SweepKind::Timeline, 100, false));
    walker.receive_at(FetchOutcome::Page(PageResult { items, cursor: None }), NOW);
    let actions = walker.advance_at(NOW);
    assert_eq!(
        actions,
        vec![
            Action { kind: ActionKind::Delete, item_id: 50 },
            Action { kind: ActionKind::Delete, item_id: 46 },
        ]
    );
    assert_eq!(walker.state().eligible_count, 2);
    assert!(walker.is_done());
}

#[test]
fn likes_sweep_unlikes_what_others_own() {
    let items = vec![
        Item { id: 9, created_at: NOW - SPAN - 1, favorited: Some(true), owner_id: Some(2) },
        Item { id: 8, created_at: NOW - SPAN - 1, favorited: Some(true), owner_id: Some(CALLER) },
        Item { id: 7, created_at: NOW - SPAN - 1, favorited: Some(true), owner_id: None },
        Item { id: 6, created_at: NOW - SPAN, favorited: Some(true), owner_id: Some(2) },
        Item { id: 5, created_at: NOW - SPAN - 1, favorited: None, owner_id: Some(3) },
    ];
    let mut walker = Walker::new(config(SweepKind::Likes, 100, false));
    walker.receive_at(FetchOutcome::Page(PageResult { items, cursor: Some(5) }), NOW);
    let actions = walker.advance_at(NOW);
    assert_eq!(
        actions,
        vec![
            Action { kind: ActionKind::Unlike, item_id: 9 },
            Action { kind: ActionKind::Unlike, item_id: 5 },
        ]
    );
    assert_eq!(walker.state(), SweepState { cursor: Some(5), exhausted: false, eligible_count: 2 });
    assert_eq!(
        walker.request(),
        Some(PageRequest { owner_id: CALLER, page_size: 100, cursor: Some(5) })
    );
}

#[test]
fn an_empty_page_with_a_cursor_moves_on() {
    let mut walker = Walker::new(config(SweepKind::Timeline, 100, false));
    walker.receive_at(FetchOutcome::Page(PageResult { items: vec![], cursor: Some(3) }), NOW);
    assert!(walker.advance_at(NOW).is_empty());
    assert!(matches!(walker.phase(), Phase::Fetching));
    assert_eq!(walker.state().cursor, Some(3));
}

#[test]
fn the_pending_page_is_kept_until_it_is_evaluated() {
    let mut walker = Walker::new(config(SweepKind::Timeline, 100, false));
    let items = vec![expired_unfaved(3), recent(2)];
    walker.receive_at(FetchOutcome::Page(PageResult { items: items.clone(), cursor: None }), NOW);
    match walker.phase() {
        Phase::Advancing { page } => {
            assert_eq!(page.items, items);
            assert_eq!(page.cursor, None);
        }
        other => panic!("{:?}", other),
    }
    assert_eq!(walker.state().eligible_count, 0);
}

#[test]
fn steps_out_of_turn_change_nothing() {
    let mut walker = Walker::new(config(SweepKind::Timeline, 100, false));
    // Nothing is pending and nothing is suspended.
    assert!(walker.advance_at(NOW).is_empty());
    walker.resume();
    assert!(matches!(walker.phase(), Phase::Fetching));
    assert_eq!(walker.state(), SweepState { cursor: None, exhausted: false, eligible_count: 0 });

    // A second outcome while a page is pending is ignored.
    walker.receive_at(
        FetchOutcome::Page(PageResult { items: vec![expired_unfaved(4)], cursor: None }),
        NOW,
    );
    walker.receive_at(FetchOutcome::Failed, NOW);
    walker.receive_at(FetchOutcome::RateLimited(NOW + 10), NOW);
    assert!(matches!(walker.phase(), Phase::Advancing { .. }));
    assert_eq!(walker.advance_at(NOW).len(), 1);

    // A finished sweep stays finished.
    assert!(walker.is_done());
    walker.receive_at(FetchOutcome::Page(PageResult { items: vec![expired_unfaved(1)], cursor: None }), NOW);
    walker.resume();
    assert!(walker.advance_at(NOW).is_empty());
    assert!(walker.is_done());
    assert_eq!(walker.state(), SweepState { cursor: None, exhausted: true, eligible_count: 1 });
}

#[test]
fn receive_reads_the_clock_for_the_pause() {
    let mut walker = Walker::new(config(SweepKind::Timeline, 100, false));
    walker.receive(FetchOutcome::RateLimited(0));
    assert!(matches!(walker.phase(), Phase::Suspended { seconds: 0 }));
    walker.resume();
    walker.receive(FetchOutcome::RateLimited(i64::MAX));
    match walker.phase() {
        // The clock stands somewhere between 2020 and the end of time.
        Phase::Suspended { seconds } => {
            assert!(*seconds > 0);
            assert!(*seconds < i64::MAX as u64 - 1_577_836_800);
        }
        other => panic!("{:?}", other),
    }
}

#[test]
fn advance_reads_the_clock_for_the_age() {
    let items = vec![
        Item { id: 3, created_at: 0, favorited: Some(false), owner_id: None },
        Item { id: 2, created_at: i64::MAX / 2, favorited: Some(false), owner_id: None },
        Item { id: 1, created_at: 86_400, favorited: Some(false), owner_id: None },
    ];
    let mut walker = Walker::new(config(SweepKind::Timeline, 100, false));
    walker.receive(FetchOutcome::Page(PageResult { items, cursor: None }));
    let actions = walker.advance();
    assert_eq!(
        actions,
        vec![
            Action { kind: ActionKind::Delete, item_id: 3 },
            Action { kind: ActionKind::Delete, item_id: 1 },
        ]
    );
    assert_eq!(walker.state().eligible_count, 2);
    assert!(walker.is_done());
}
