//! The subscribers of one tag and the publication of an event to them.
use vstd::prelude::*;

use crate::error::SpringError;
use crate::event::{Event, EventPush, Handed, spec_tag_of};

verus! {

/// The subscribers of one tag, in order of subscription.
pub struct Subscribers {
    event_push_list: Vec<EventPush>,
}

impl View for Subscribers {
    type V = Seq<EventPush>;

    closed spec fn view(&self) -> Seq<EventPush> {
        self.event_push_list@
    }
}

/// `handed` are the receipts of `event` taken by each of `subscribers`, one
/// each, in order.
pub open spec fn handed_to_each(handed: Seq<Handed>, subscribers: Seq<EventPush>, event: Event) -> bool {
    &&& handed.len() == subscribers.len()
    &&& forall|k: int|
        0 <= k < handed.len() ==> (#[trigger] handed[k]).event() == event && handed[k].sender()
            == subscribers[k].spec_sender()
}

impl Subscribers {
    pub fn new() -> (r: Subscribers)
        ensures
            r@ == Seq::<EventPush>::empty(),
    {
        Subscribers { event_push_list: Vec::new() }
    }

    /// Adds a subscriber after the others.
    pub fn add(&mut self, event_push: EventPush)
        ensures
            final(self)@ == old(self)@.push(event_push),
    {
        self.event_push_list.push(event_push);
    }

    /// Sends `event` to each subscriber in turn, each send waiting until
    /// the subscriber takes it; stops at the first subscriber that is gone.
    /// On success, gives the receipt of each subscriber, in order.
    pub fn push_all_blocking(&self, event: Event) -> (r: Result<Vec<Handed>, SpringError>)
        ensures
            r matches Err(e) ==> e == (SpringError::EventNotDelivered { tag: spec_tag_of(event) }),
            r matches Ok(handed) ==> handed_to_each(handed@, self@, event),
            self@.len() == 0 ==> r is Ok,
    {
        let mut handed: Vec<Handed> = Vec::new();
        let n = self.event_push_list.len();
        let mut i: usize = 0;
        while i < n
            invariant
                n == self.event_push_list@.len(),
                i <= n,
                handed_to_each(handed@, self@.subrange(0, i as int), event),
            decreases n - i,
        {
            let h = self.event_push_list[i].push_blocking(event.clone())?;
            handed.push(h);
            i = i + 1;
            assert forall|k: int| 0 <= k < handed@.len() implies (#[trigger] handed@[k]).event()
                == event && handed@[k].sender() == self@.subrange(0, i as int)[k].spec_sender() by {
                if k < i - 1 {
                    assert(self@.subrange(0, i - 1)[k] == self@.subrange(0, i as int)[k]);
                }
            }
        }
        assert(self@.subrange(0, n as int) =~= self@);
        Ok(handed)
    }
}

/// A publication reaches every subscriber once: the receipts of a
/// successful publication carry the event, one copy per subscriber, and
/// the i-th went through the i-th subscriber's channel.
pub proof fn law_publication_hands_one_copy_to_each(
    handed: Seq<Handed>,
    subscribers: Seq<EventPush>,
    event: Event,
)
    requires
        handed_to_each(handed, subscribers, event),
    ensures
        handed.map_values(|h: Handed| h.event()) == Seq::new(subscribers.len(), |i: int| event),
        handed.map_values(|h: Handed| h.sender()) == subscribers.map_values(
            |p: EventPush| p.spec_sender(),
        ),
{
    assert(handed.map_values(|h: Handed| h.event()) =~= Seq::new(subscribers.len(), |i: int| event));
    assert(handed.map_values(|h: Handed| h.sender()) =~= subscribers.map_values(
        |p: EventPush| p.spec_sender(),
    ));
}

} // verus!
