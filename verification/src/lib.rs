//! Event-driven core of a screen-freeze client for a layered display server.
//!
//! The library is the decision half of the client: it consumes decoded
//! protocol events as plain values, updates the per-output state machine,
//! and returns the requests that the transport half must issue.  Nothing
//! here touches the wire; the accompanying binary owns the connection and
//! performs each returned action.

use vstd::prelude::*;

pub mod event;
pub mod laws;
pub mod model;
pub mod session;
pub mod state;
pub mod types;

verus! {

/// Stores `value` at position `key` of an index-addressed table, growing
/// the table with empty slots as needed so that `key` is in range.
pub fn vec_insert<V>(entries: &mut Vec<Option<V>>, key: usize, value: V)
    requires
        key < usize::MAX,
    ensures
        final(entries)@.len() == if old(entries)@.len() <= key {
            key + 1
        } else {
            old(entries)@.len() as int
        },
        final(entries)@[key as int] == Some(value),
        forall|i: int|
            0 <= i < final(entries)@.len() && i != key ==> final(entries)@[i] == (
            if i < old(entries)@.len() {
                old(entries)@[i]
            } else {
                None
            }),
{
    while entries.len() <= key
        invariant
            key < usize::MAX,
            entries@.len() >= old(entries)@.len(),
            entries@.len() <= key + 1 || entries@.len() == old(entries)@.len(),
            forall|i: int|
                0 <= i < entries@.len() ==> entries@[i] == (if i < old(entries)@.len() {
                    old(entries)@[i]
                } else {
                    None
                }),
        decreases key + 1 - entries@.len(),
    {
        entries.push(None);
    }
    entries.set(key, Some(value));
}

} // verus!
