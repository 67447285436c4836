//! Index-based enumeration: the facility is asked for item 0, 1, 2, ... until
//! it answers "no more items", which ends the sequence without an error.

use vstd::prelude::*;
use crate::status::{Error, ERROR_NO_MORE_ITEMS, facility_error, is_win32_error};

verus! {

/// The reply that marks the end of an enumeration.
pub open spec fn is_no_more_items(e: Error) -> bool {
    e == facility_error(ERROR_NO_MORE_ITEMS)
}

/// What one enumeration reply means to the sequence: an item, its end
/// (`None`), or an error that ends it.
pub open spec fn enum_item<T>(reply: Result<T, Error>) -> Option<Result<T, Error>> {
    match reply {
        Ok(t) => Some(Ok(t)),
        Err(e) => if is_no_more_items(e) {
            None
        } else {
            Some(Err(e))
        },
    }
}

/// Turns the reply to an index-based enumeration call into the next element
/// of the sequence: "no more items" becomes its end, every other failure is
/// handed on.
pub fn enum_reply<T>(reply: Result<T, Error>) -> (r: Option<Result<T, Error>>)
    ensures
        r == enum_item(reply),
{
    match reply {
        Ok(t) => Some(Ok(t)),
        Err(e) => if is_win32_error(e, ERROR_NO_MORE_ITEMS) {
            None
        } else {
            Some(Err(e))
        },
    }
}

/// The position of a forward-only enumeration: the next index to ask for,
/// until the sequence has ended.
pub struct EnumCursor {
    current: u32,
    finished: bool,
}

impl EnumCursor {
    /// The next index to ask the facility for, or `None` once the sequence
    /// has ended.
    pub closed spec fn view(&self) -> Option<u32> {
        if self.finished {
            None
        } else {
            Some(self.current)
        }
    }

    /// A cursor at index 0.
    pub fn new() -> (r: Self)
        ensures
            r.view() == Some(0u32),
    {
        EnumCursor { current: 0, finished: false }
    }

    /// The index that the next enumeration call is made at.
    pub fn next_index(&self) -> (r: Option<u32>)
        ensures
            r == self.view(),
    {
        if self.finished {
            None
        } else {
            Some(self.current)
        }
    }

    /// Takes the reply to the call made at the current index and moves past
    /// it. An item keeps the sequence going at the following index (there is
    /// none after `u32::MAX`); "no more items" ends it with `None`; any other
    /// failure is returned once and ends it too, with no retry.
    pub fn advance<T>(&mut self, reply: Result<T, Error>) -> (r: Option<Result<T, Error>>)
        requires
            old(self).view() is Some,
        ensures
            r == enum_item(reply),
            ({
                let i = old(self).view()->Some_0;
                final(self).view() == if r is Some && r->Some_0 is Ok && i < u32::MAX {
                    Some((i + 1) as u32)
                } else {
                    None::<u32>
                }
            }),
    {
        let r = enum_reply(reply);
        match r {
            Some(Ok(_)) => {
                if self.current < u32::MAX {
                    self.current = self.current + 1;
                } else {
                    self.finished = true;
                }
            },
            _ => {
                self.finished = true;
            },
        }
        r
    }
}

/// What a complete enumeration through `enum_at` returned: on success, each
/// item is a reply of the call at its index and the call after the last item
/// answered "no more items" (unless every index held an item); on failure,
/// the error is a reply of the call at some index and is not that sentinel.
pub open spec fn enumerated<T, E: Fn(u32) -> Result<T, Error>>(enum_at: E, r: Result<Vec<T>, Error>) -> bool {
    match r {
        Ok(items) => {
            &&& items.len() <= u32::MAX + 1
            &&& forall|j: int| 0 <= j < items.len() ==> enum_at.ensures((j as u32,), Ok::<T, Error>(#[trigger] items@[j]))
            &&& items.len() <= u32::MAX ==> exists|e: Error| is_no_more_items(e) && #[trigger] enum_at.ensures((items.len() as u32,), Err::<T, Error>(e))
        },
        Err(e) => {
            &&& !is_no_more_items(e)
            &&& exists|n: u32| #[trigger] enum_at.ensures((n,), Err::<T, Error>(e))
        },
    }
}

/// Enumerates every item that `enum_at` yields, from index 0 until "no more
/// items"; the first other failure is returned instead.
pub fn collect_all<T, E: Fn(u32) -> Result<T, Error>>(enum_at: E) -> (r: Result<Vec<T>, Error>)
    requires
        forall|i: u32| enum_at.requires((i,)),
    ensures
        enumerated(enum_at, r),
{
    let mut cursor = EnumCursor::new();
    let mut items: Vec<T> = Vec::new();
    loop
        invariant
            forall|i: u32| enum_at.requires((i,)),
            cursor.view() is Some ==> cursor.view()->Some_0 == items.len(),
            cursor.view() is None ==> items.len() == u32::MAX + 1,
            forall|j: int| 0 <= j < items.len() ==> enum_at.ensures((j as u32,), Ok::<T, Error>(#[trigger] items@[j])),
        decreases
            (if cursor.view() is Some { u32::MAX + 1 - cursor.view()->Some_0 } else { 0 }),
    {
        let i = match cursor.next_index() {
            None => {
                return Ok(items);
            },
            Some(i) => i,
        };
        let reply = enum_at(i);
        let ghost g = reply;
        match cursor.advance(reply) {
            None => {
                assert(g == Err::<T, Error>(g->Err_0));
                assert(i == items.len() as u32);
                assert(is_no_more_items(g->Err_0) && enum_at.ensures((items.len() as u32,), Err::<T, Error>(g->Err_0)));
                return Ok(items);
            },
            Some(Err(e)) => {
                return Err(e);
            },
            Some(Ok(t)) => {
                items.push(t);
            },
        }
    }
}

/// `enum_at` enumerates a collection holding `records` that nobody modifies:
/// the call at an index inside it returns that record, every call past it
/// answers "no more items".
pub open spec fn lists_records<T, E: Fn(u32) -> Result<T, Error>>(enum_at: E, records: Seq<T>) -> bool {
    forall|i: u32, reply: Result<T, Error>| #[trigger] enum_at.ensures((i,), reply) ==>
        if (i as int) < records.len() {
            reply == Ok::<T, Error>(records[i as int])
        } else {
            reply is Err && is_no_more_items(reply->Err_0)
        }
}

/// Enumerating a collection that is not modified meanwhile yields exactly its
/// records, in order, as many as it holds, and ends at the "no more items"
/// sentinel, never in an error.
pub proof fn lemma_enumeration_yields_every_record<T, E: Fn(u32) -> Result<T, Error>>(
    enum_at: E,
    records: Seq<T>,
    r: Result<Vec<T>, Error>,
)
    requires
        lists_records(enum_at, records),
        records.len() <= u32::MAX,
        enumerated(enum_at, r),
    ensures
        r is Ok,
        r->Ok_0@ == records,
{
    match r {
        Err(e) => {
            let n = choose|n: u32| #[trigger] enum_at.ensures((n,), Err::<T, Error>(e));
            assert(enum_at.ensures((n,), Err::<T, Error>(e)));
        },
        Ok(items) => {
            if items.len() > records.len() {
                let j = records.len() as int;
                assert(enum_at.ensures((j as u32,), Ok::<T, Error>(items@[j])));
            }
            if items.len() < records.len() {
                let e = choose|e: Error| is_no_more_items(e) && #[trigger] enum_at.ensures((items.len() as u32,), Err::<T, Error>(e));
                assert(enum_at.ensures((items.len() as u32,), Err::<T, Error>(e)));
            }
            assert forall|j: int| 0 <= j < items.len() implies items@[j] == records[j] by {
                assert(enum_at.ensures((j as u32,), Ok::<T, Error>(items@[j])));
            }
            assert(items@ =~= records);
        },
    }
}

} // verus!
