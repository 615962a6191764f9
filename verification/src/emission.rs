//! Batches of events on their way to the virtual keyboard.
//!
//! Some applications drop events that arrive faster than they read them. A
//! pause can therefore be configured; events then go out one key transition
//! at a time, each with its synchronization marker, and the pause is made
//! after every such pair. Without a pause a whole run goes out at once.

use crate::event::InputEvent;
use vstd::prelude::*;

verus! {

/// Events to write to the virtual keyboard: the batches, in order, and the
/// pause in milliseconds to make after each batch.
#[derive(Debug, Clone, PartialEq, Eq)]
pub struct Emission {
    pub batches: Vec<Vec<InputEvent>>,
    pub delay: Option<u64>,
}

/// An [`Emission`] as a mathematical value.
pub struct Paced {
    pub batches: Seq<Seq<InputEvent>>,
    pub delay: Option<u64>,
}

impl View for Emission {
    type V = Paced;

    open spec fn view(&self) -> Paced {
        Paced {
            batches: Seq::new(self.batches@.len(), |i: int| self.batches@[i]@),
            delay: self.delay,
        }
    }
}

/// `events` cut into runs of two; the last run is shorter where the length is odd.
pub open spec fn pairs(events: Seq<InputEvent>) -> Seq<Seq<InputEvent>> {
    Seq::new(
        ((events.len() + 1) / 2) as nat,
        |i: int|
            events.subrange(
                2 * i,
                if 2 * i + 2 <= events.len() {
                    2 * i + 2
                } else {
                    events.len() as int
                },
            ),
    )
}

/// How a run of events is batched: whole where no pause is configured, two
/// events at a time where one is.
pub open spec fn paced(events: Seq<InputEvent>, delay: Option<u64>) -> Paced {
    Paced {
        batches: if delay is Some {
            pairs(events)
        } else {
            seq![events]
        },
        delay,
    }
}

/// Batches `events` according to `delay`.
pub fn pace(events: Vec<InputEvent>, delay: Option<u64>) -> (emission: Emission)
    ensures
        emission@ == paced(events@, delay),
{
    let mut batches: Vec<Vec<InputEvent>> = Vec::new();
    if delay.is_some() {
        let n = events.len();
        let mut i: usize = 0;
        while i < n
            invariant
                n == events@.len(),
                i <= n,
                i % 2 == 0 || i == n,
                batches@.len() == (i + 1) / 2,
                forall|j: int|
                    0 <= j < batches@.len() ==> (#[trigger] batches@[j])@ == pairs(events@)[j],
            decreases n - i,
        {
            let mut chunk: Vec<InputEvent> = Vec::new();
            chunk.push(events[i]);
            if n - i >= 2 {
                chunk.push(events[i + 1]);
                i += 2;
            } else {
                i = n;
            }
            assert(chunk@ =~= pairs(events@)[batches@.len() as int]);
            batches.push(chunk);
        }
    } else {
        batches.push(events);
    }
    let emission = Emission { batches, delay };
    assert(emission@.batches =~= paced(events@, delay).batches);
    emission
}

proof fn lemma_pairs_flatten(events: Seq<InputEvent>)
    ensures
        pairs(events).flatten_alt() == events,
    decreases events.len(),
{
    let count = pairs(events).len() as int;
    if count == 0 {
        assert(events =~= Seq::<InputEvent>::empty());
    } else {
        let cut = 2 * (count - 1);
        let head = events.subrange(0, cut);
        assert(pairs(head).len() == count - 1);
        assert forall|i: int| 0 <= i < count - 1 implies pairs(events)[i] == pairs(head)[i] by {
            assert(events.subrange(2 * i, 2 * i + 2) =~= head.subrange(2 * i, 2 * i + 2));
        }
        assert(pairs(events).drop_last() =~= pairs(head));
        lemma_pairs_flatten(head);
        assert(head + pairs(events).last() =~= events);
    }
}

/// However a run is batched, the batches laid end to end are the run: the
/// pause changes when events arrive, never which events or in what order.
pub proof fn lemma_paced_flatten(events: Seq<InputEvent>, delay: Option<u64>)
    ensures
        paced(events, delay).batches.flatten() == events,
{
    let batches = paced(events, delay).batches;
    batches.lemma_flatten_and_flatten_alt_are_equivalent();
    if delay is Some {
        lemma_pairs_flatten(events);
    } else {
        assert(batches.drop_last() =~= Seq::<Seq<InputEvent>>::empty());
        assert(batches.drop_last().flatten_alt() =~= Seq::<InputEvent>::empty());
        assert(batches.last() == events);
        assert(batches.flatten_alt() =~= events);
    }
}

/// With a pause, a run of even length goes out in whole pairs: the batch
/// at `i` holds the events at `2 * i` and `2 * i + 1` and nothing else, so
/// no key transition is parted from its synchronization marker.
pub proof fn lemma_pairs_whole(events: Seq<InputEvent>, i: int)
    requires
        events.len() % 2 == 0,
        0 <= i < events.len() / 2,
    ensures
        pairs(events).len() == events.len() / 2,
        pairs(events)[i] == seq![events[2 * i], events[2 * i + 1]],
{
    assert(pairs(events)[i] =~= seq![events[2 * i], events[2 * i + 1]]);
}

} // verus!
