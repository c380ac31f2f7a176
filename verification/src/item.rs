//! Items of a remote collection and the predicates that decide their fate.

use crate::clock::unix_now;
use vstd::prelude::*;

verus! {

/// One entry of a remote collection, reduced to what a sweep reads.
#[derive(Clone, Copy, Debug, PartialEq, Eq, Structural)]
pub struct Item {
    /// Identifier given by the remote service; newer items have larger ids.
    pub id: u64,
    /// Creation time in seconds since the Unix epoch.
    pub created_at: i64,
    /// Whether the caller has favorited the item, if the service said so.
    pub favorited: Option<bool>,
    /// Identifier of the item's owner, if the service said so.
    pub owner_id: Option<u64>,
}

/// Whether something created at `created` is older than `span_seconds` at
/// the instant `now`. An age equal to the span is not older.
pub open spec fn older_than(created: int, span_seconds: int, now: int) -> bool {
    now - created > span_seconds
}

/// An item has expired when its age exceeds the span; an age equal to the
/// span is not yet expired.
pub open spec fn expired_at(item: Item, span_seconds: int, now: int) -> bool {
    older_than(item.created_at as int, span_seconds, now)
}

/// An item is protected when it is favorited or when its status is unknown.
pub open spec fn protected(item: Item) -> bool {
    match item.favorited {
        Some(flag) => flag,
        None => true,
    }
}

/// An item counts as owned by the caller when the owner matches or is unknown.
pub open spec fn owned_by(item: Item, caller_id: u64) -> bool {
    match item.owner_id {
        Some(owner) => owner == caller_id,
        None => true,
    }
}

/// An item may be deleted when it has expired and is not protected.
pub open spec fn deletable(item: Item, span_seconds: int, now: int) -> bool {
    expired_at(item, span_seconds, now) && !protected(item)
}

/// An item may be unliked when it has expired and belongs to somebody else.
pub open spec fn unlikable(item: Item, span_seconds: int, now: int, caller_id: u64) -> bool {
    expired_at(item, span_seconds, now) && !owned_by(item, caller_id)
}

/// Decides whether `item` is older than `span_seconds` at the instant `now`.
pub fn is_expired(item: &Item, span_seconds: i64, now: i64) -> (expired: bool)
    ensures
        expired == expired_at(*item, span_seconds as int, now as int),
{
    let age: i128 = now as i128 - item.created_at as i128;
    age > span_seconds as i128
}

/// Decides whether `item` must be kept because it is, or may be, favorited.
pub fn is_protected(item: &Item) -> (kept: bool)
    ensures
        kept == protected(*item),
{
    match item.favorited {
        Some(flag) => flag,
        None => true,
    }
}

/// Decides whether `item` belongs, or may belong, to `caller_id`.
pub fn is_owned_by(item: &Item, caller_id: u64) -> (owned: bool)
    ensures
        owned == owned_by(*item, caller_id),
{
    match item.owner_id {
        Some(owner) => owner == caller_id,
        None => true,
    }
}

/// Decides whether `item` qualifies for deletion at the instant `now`.
pub fn is_deletable(item: &Item, span_seconds: i64, now: i64) -> (eligible: bool)
    ensures
        eligible == deletable(*item, span_seconds as int, now as int),
{
    is_expired(item, span_seconds, now) && !is_protected(item)
}

/// Decides whether the like on `item` qualifies for removal at the instant `now`.
pub fn is_unlikable(item: &Item, span_seconds: i64, now: i64, caller_id: u64) -> (eligible: bool)
    ensures
        eligible == unlikable(*item, span_seconds as int, now as int, caller_id),
{
    is_expired(item, span_seconds, now) && !is_owned_by(item, caller_id)
}

/// Expiry is strict: an item whose age equals the span has not expired, and
/// one second later it has.
pub proof fn lemma_expiry_boundary(item: Item, span_seconds: int, now: int)
    ensures
        now - item.created_at == span_seconds ==> !expired_at(item, span_seconds, now),
        now - item.created_at == span_seconds + 1 ==> expired_at(item, span_seconds, now),
{
}

/// An item whose favorited status is unknown is protected, and so is never
/// deletable, whatever its age.
pub proof fn lemma_unknown_favorite_is_kept(item: Item, span_seconds: int, now: int)
    requires
        item.favorited is None,
    ensures
        protected(item),
        !deletable(item, span_seconds, now),
{
}

/// An item whose owner is unknown counts as owned by every caller, and so
/// its like is never removed, whatever its age.
pub proof fn lemma_unknown_owner_is_kept(item: Item, span_seconds: int, now: int, caller_id: u64)
    requires
        item.owner_id is None,
    ensures
        owned_by(item, caller_id),
        !unlikable(item, span_seconds, now, caller_id),
{
}

/// The three questions a sweep asks of an item.
pub trait Eggspire {
    /// Creation time in seconds since the Unix epoch.
    spec fn created(&self) -> int;

    /// The favorited flag, where known.
    spec fn favorited_flag(&self) -> Option<bool>;

    /// The owner's id, where known.
    spec fn owner(&self) -> Option<u64>;

    /// Returns true if the item is older than `span` seconds by the wall
    /// clock. The clock is read once; [`is_expired`] gives the answer for a
    /// given instant.
    fn expired(&self, span: i64) -> (expired: bool)
        ensures
            exists|now: i64| expired == #[trigger] older_than(self.created(), span as int, now as int),
    ;

    /// Returns true if the item is favorited by the caller or if that is
    /// unknown.
    fn faved(&self) -> (kept: bool)
        ensures
            kept == match self.favorited_flag() {
                Some(flag) => flag,
                None => true,
            },
    ;

    /// Returns true if the owner of the item is `id` or is unknown.
    fn has_owner_id(&self, id: u64) -> (owned: bool)
        ensures
            owned == match self.owner() {
                Some(owner) => owner == id,
                None => true,
            },
    ;
}

impl Eggspire for Item {
    open spec fn created(&self) -> int {
        self.created_at as int
    }

    open spec fn favorited_flag(&self) -> Option<bool> {
        self.favorited
    }

    open spec fn owner(&self) -> Option<u64> {
        self.owner_id
    }

    fn expired(&self, span: i64) -> (expired: bool) {
        let now: i64 = unix_now();
        let expired: bool = is_expired(self, span, now);
        assert(expired == older_than(self.created(), span as int, now as int));
        expired
    }

    fn faved(&self) -> (kept: bool) {
        is_protected(self)
    }

    fn has_owner_id(&self, id: u64) -> (owned: bool) {
        is_owned_by(self, id)
    }
}

} // verus!
