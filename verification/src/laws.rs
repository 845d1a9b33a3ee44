//! The adapter's laws, stated over the mathematical model of the queue: a
//! delivery step appends the translation of one notification, a whole
//! delivery sequence appends the translations in order, and a poll-mode
//! drain yields everything pending and leaves nothing behind.

use vstd::prelude::*;
use crate::events::Event;
use crate::events::MouseEvent;
use crate::events::events_of_notification;
use crate::events::is_recognized;
use crate::events::lemma_translation_cardinality;

verus! {

/// The queue after one native notification is delivered: its translation is
/// appended at the tail, and nothing else changes.
pub open spec fn delivered(q: Seq<Event>, kind: i32, ev: MouseEvent) -> Seq<Event> {
    q + events_of_notification(kind, ev)
}

/// The translation of a whole notification sequence, in delivery order.
pub open spec fn translation_of(notifs: Seq<(i32, MouseEvent)>) -> Seq<Event>
    decreases notifs.len(),
{
    if notifs.len() == 0 {
        Seq::empty()
    } else {
        events_of_notification(notifs[0].0, notifs[0].1) + translation_of(
            notifs.subrange(1, notifs.len() as int),
        )
    }
}

/// The queue after a whole notification sequence is delivered, head first.
pub open spec fn deliver_all(q: Seq<Event>, notifs: Seq<(i32, MouseEvent)>) -> Seq<Event>
    decreases notifs.len(),
{
    if notifs.len() == 0 {
        q
    } else {
        deliver_all(
            delivered(q, notifs[0].0, notifs[0].1),
            notifs.subrange(1, notifs.len() as int),
        )
    }
}

/// FIFO preservation: delivering any notification sequence appends exactly
/// its translation, in delivery order — no reordering, no loss, no
/// duplication, no coalescing.
pub proof fn lemma_fifo_order(q: Seq<Event>, notifs: Seq<(i32, MouseEvent)>)
    ensures
        deliver_all(q, notifs) =~= q + translation_of(notifs),
    decreases notifs.len(),
{
    if notifs.len() == 0 {
        assert(deliver_all(q, notifs) =~= q + translation_of(notifs));
    } else {
        let head = events_of_notification(notifs[0].0, notifs[0].1);
        let rest = notifs.subrange(1, notifs.len() as int);
        lemma_fifo_order(q + head, rest);
        assert((q + head) + translation_of(rest) =~= q + (head + translation_of(rest)));
    }
}

/// Whether every notification of the sequence is of a recognized kind.
pub open spec fn all_recognized(notifs: Seq<(i32, MouseEvent)>) -> bool {
    forall|i: int| 0 <= i < notifs.len() ==> is_recognized(#[trigger] notifs[i].0)
}

/// A sequence of recognized notifications contributes exactly one event
/// each: nothing is lost, merged or duplicated.
pub proof fn lemma_recognized_count(notifs: Seq<(i32, MouseEvent)>)
    requires
        all_recognized(notifs),
    ensures
        translation_of(notifs).len() == notifs.len(),
    decreases notifs.len(),
{
    if notifs.len() > 0 {
        lemma_translation_cardinality(notifs[0].0, notifs[0].1);
        let rest = notifs.subrange(1, notifs.len() as int);
        assert forall|i: int| 0 <= i < rest.len() implies is_recognized(
            #[trigger] rest[i].0,
        ) by {
            assert(rest[i] == notifs[i + 1]);
        }
        lemma_recognized_count(rest);
    }
}

/// End to end: delivering any notification sequence to a fresh queue and
/// then fully draining yields exactly the translations, in delivery order;
/// when every kind is recognized, that is exactly one event per
/// notification.
pub proof fn lemma_deliver_then_poll(notifs: Seq<(i32, MouseEvent)>)
    ensures
        poll_all(deliver_all(Seq::<Event>::empty(), notifs)) =~= translation_of(notifs),
        all_recognized(notifs) ==> poll_all(deliver_all(Seq::<Event>::empty(), notifs)).len()
            == notifs.len(),
{
    lemma_fifo_order(Seq::<Event>::empty(), notifs);
    lemma_poll_complete(deliver_all(Seq::<Event>::empty(), notifs));
    if all_recognized(notifs) {
        lemma_recognized_count(notifs);
    }
}

/// What one poll step yields: the head event, or `None` on an empty queue.
/// Removal is lazy — one event per step, and only when it is yielded.
pub open spec fn poll_step_yield(q: Seq<Event>) -> Option<Event> {
    if q.len() == 0 {
        None
    } else {
        Some(q[0])
    }
}

/// What one poll step leaves pending: everything but the yielded head; an
/// empty queue is left as it is.
pub open spec fn poll_step_rest(q: Seq<Event>) -> Seq<Event> {
    if q.len() == 0 {
        q
    } else {
        q.subrange(1, q.len() as int)
    }
}

/// Everything a full poll-mode drain yields: poll steps repeated until one
/// yields nothing.
pub open spec fn poll_all(q: Seq<Event>) -> Seq<Event>
    decreases q.len(),
{
    if q.len() == 0 {
        Seq::empty()
    } else {
        seq![q[0]] + poll_all(poll_step_rest(q))
    }
}

/// What a full poll-mode drain leaves pending: poll steps repeated until one
/// yields nothing.
pub open spec fn poll_rest_all(q: Seq<Event>) -> Seq<Event>
    decreases q.len(),
{
    if q.len() == 0 {
        q
    } else {
        poll_rest_all(poll_step_rest(q))
    }
}

/// A full poll-mode drain yields every pending event, head first, and no
/// others.
pub proof fn lemma_poll_complete(q: Seq<Event>)
    ensures
        poll_all(q) =~= q,
    decreases q.len(),
{
    if q.len() > 0 {
        lemma_poll_complete(poll_step_rest(q));
    }
}

/// Draining is destructive: a full drain leaves nothing pending, so a second
/// full drain yields no events until new notifications are delivered.
pub proof fn lemma_poll_destructive(q: Seq<Event>)
    ensures
        poll_rest_all(q) =~= Seq::<Event>::empty(),
        poll_all(poll_rest_all(q)) =~= Seq::<Event>::empty(),
    decreases q.len(),
{
    if q.len() > 0 {
        lemma_poll_destructive(poll_step_rest(q));
    }
}

/// Polling an empty queue yields nothing at the first step already, and a
/// full drain of it yields the empty sequence.
pub proof fn lemma_poll_empty(q: Seq<Event>)
    requires
        q =~= Seq::<Event>::empty(),
    ensures
        poll_step_yield(q) is None,
        poll_all(q) =~= Seq::<Event>::empty(),
{
}

} // verus!
