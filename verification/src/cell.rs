//! The shared latest-value cell and the notification listener that feeds it:
//! one inbound message at a time overwrites the cell with the decoded payload
//! text, under a lock that admits a single writer at a time.

use vstd::prelude::*;
use vstd::rwlock::RwLock;
use vstd::rwlock::RwLockPredicate;

use crate::codec::decode_or_placeholder;
use crate::codec::decoded_text;
use crate::message::Message;

verus! {

/// The cell's content after one inbound message: unchanged when the message
/// carries no payload, the decoded payload text otherwise.
pub open spec fn cell_update(prev: Option<Seq<char>>, payload: Option<Seq<u8>>) -> Option<
    Seq<char>,
> {
    match payload {
        None => prev,
        Some(b) => Some(decoded_text(b)),
    }
}

/// The cell's content after a batch of inbound messages applied in order.
pub open spec fn cell_after(init: Option<Seq<char>>, payloads: Seq<Option<Seq<u8>>>) -> Option<
    Seq<char>,
>
    decreases payloads.len(),
{
    if payloads.len() == 0 {
        init
    } else {
        cell_after(cell_update(init, payloads.first()), payloads.drop_first())
    }
}

/// Applies one received payload to the latest-value cell: a message with no
/// payload leaves the cell exactly as it was; one with a payload overwrites
/// the cell with the payload decoded as UTF-8 text, or with the placeholder
/// when the bytes are not well-formed UTF-8.
pub fn apply_received(cell: &mut Option<String>, payload: Option<Vec<u8>>)
    ensures
        final(cell).deep_view() == cell_update(old(cell).deep_view(), payload.deep_view()),
        payload is None ==> *final(cell) == *old(cell),
{
    match payload {
        None => {},
        Some(b) => {
            proof {
                assert(b.deep_view() =~= b@);
            }
            let text = decode_or_placeholder(b);
            *cell = Some(text);
        },
    }
}

/// Applies a batch of received payloads to the cell, in the given order: the
/// serialization the cell's lock imposes on overlapping deliveries.
pub fn apply_all(cell: &mut Option<String>, payloads: Vec<Option<Vec<u8>>>)
    ensures
        final(cell).deep_view() == cell_after(old(cell).deep_view(), payloads.deep_view()),
{
    let mut rest = payloads;
    while rest.len() > 0
        invariant
            cell_after(old(cell).deep_view(), payloads.deep_view()) == cell_after(
                cell.deep_view(),
                rest.deep_view(),
            ),
        decreases rest.len(),
    {
        let ghost before = rest.deep_view();
        let p = rest.remove(0);
        proof {
            assert(rest.deep_view() =~= before.drop_first());
            assert(p.deep_view() == before.first());
        }
        apply_received(cell, p);
    }
}

/// Law: however overlapping deliveries of payload-carrying messages are
/// serialized, the cell afterwards holds exactly the decoded text of the last
/// message in that order — one whole decoded value among those delivered,
/// never an interleaving of several.
pub proof fn lemma_last_writer_wins(init: Option<Seq<char>>, payloads: Seq<Option<Seq<u8>>>)
    requires
        payloads.len() > 0,
        forall|i: int| 0 <= i < payloads.len() ==> #[trigger] payloads[i] is Some,
    ensures
        cell_after(init, payloads) == Some(decoded_text(payloads.last().unwrap())),
        exists|i: int|
            0 <= i < payloads.len() && cell_after(init, payloads) == Some(
                decoded_text(#[trigger] payloads[i].unwrap()),
            ),
    decreases payloads.len(),
{
    let next = cell_update(init, payloads.first());
    if payloads.len() == 1 {
        assert(cell_after(init, payloads) == next);
    } else {
        lemma_last_writer_wins(next, payloads.drop_first());
        assert(payloads.drop_first().last() == payloads.last());
    }
    assert(cell_after(init, payloads) == Some(decoded_text(payloads[payloads.len() - 1].unwrap())));
}

/// The lock on the cell admits every value: the cell's guarantee is mutual
/// exclusion of writers, not a restriction on its content.
pub struct AnyContent {}

impl RwLockPredicate<Option<String>> for AnyContent {
    open spec fn inv(self, v: Option<String>) -> bool {
        true
    }
}

/// The shared latest-value cell: a single optional string behind a verified
/// reader-writer lock. Initialized empty, overwritten by the listener on
/// every payload-carrying message, read by the rest of the process; readers
/// observe the previous or the new value, never a partially written one.
pub struct LatestCell {
    lock: RwLock<Option<String>, AnyContent>,
}

impl LatestCell {
    /// A fresh, empty cell.
    pub fn new() -> LatestCell {
        LatestCell { lock: RwLock::new(None, Ghost(AnyContent {})) }
    }

    /// Folds one inbound message into the cell inside a single critical
    /// section: the write lock is acquired, the cell is overwritten as
    /// `apply_received` specifies, and the lock is released on every path.
    /// Because the cell is shared, no caller can be promised what it holds
    /// afterwards — a concurrent delivery may overwrite it at once.
    pub fn on_receive(&self, msg: Message) {
        let (mut value, handle) = self.lock.acquire_write();
        apply_received(&mut value, msg.payload);
        handle.release_write(value);
    }

    /// A snapshot of the cell: the latest value some delivery wrote, or
    /// nothing when no payload-carrying message has arrived yet. Concurrent
    /// writers may replace the value as soon as the read lock is dropped.
    pub fn read(&self) -> (r: Option<String>)
    {
        let handle = self.lock.acquire_read();
        let r = match handle.borrow() {
            None => None,
            Some(s) => Some(s.clone()),
        };
        handle.release_read();
        r
    }
}

/// The notification listener: invoked once per inbound message on the
/// subscribed topic, it keeps the latest decoded payload in its cell.
pub struct EngageListener {
    pub data: LatestCell,
}

impl EngageListener {
    /// A listener with an empty cell.
    pub fn new() -> EngageListener {
        EngageListener { data: LatestCell::new() }
    }

    /// One inbound message: decode its payload, if any, and store the text
    /// in the shared cell under the write lock.
    pub fn on_receive(&self, msg: Message) {
        self.data.on_receive(msg);
    }

    /// The latest value the listener has stored.
    pub fn latest(&self) -> (r: Option<String>)
    {
        self.data.read()
    }
}

} // verus!
