//! Events between the worker threads, and the blocking event queue (a
//! message broker) that hands each published event to the subscribers of
//! its tag.
use std::collections::HashMap;
use std::sync::Arc;
use std::sync::mpsc::{Receiver, SyncSender};

use vstd::prelude::*;
use vstd::rwlock::{RwLock, RwLockPredicate, WriteHandle};

use crate::error::SpringError;
pub use crate::subscribers::Subscribers;
use crate::pipeline::PipelineDerivatives;
use crate::task::MetricsUpdateByTaskExecution;

verus! {

broadcast use vstd::std_specs::hash::group_hash_axioms;

/// The memory pressure of the engine.
#[derive(Debug, Clone, Copy, PartialEq, Eq, Structural)]
pub enum MemoryState {
    Moderate,
    Severe,
    Critical,
}

/// A change of memory state.
#[derive(Debug, Clone, Copy, PartialEq, Eq, Structural)]
pub struct MemoryStateTransition {
    pub from_state: MemoryState,
    pub to_state: MemoryState,
}

impl MemoryStateTransition {
    pub fn to_state(&self) -> (r: MemoryState)
        ensures
            r == self.to_state,
    {
        self.to_state
    }
}

/// A summary of the performance metrics.
#[derive(Debug, Clone, Copy, PartialEq, Eq, Structural)]
pub struct PerformanceMetricsSummary {
    pub queue_total_rows: u64,
}

/// The performance metrics of the engine.
#[derive(Debug, Clone, Copy, PartialEq, Eq, Structural)]
pub struct PerformanceMetrics {
    pub executed_tasks: u64,
    pub queued_rows: u64,
}

/// Events between the worker threads.
pub enum Event {
    UpdatePipeline { pipeline_derivatives: Arc<PipelineDerivatives> },
    ReplacePerformanceMetrics { metrics: Arc<PerformanceMetrics> },
    IncrementalUpdateMetrics { metrics_update_by_task_execution: Arc<MetricsUpdateByTaskExecution> },
    ReportMetricsSummary { metrics_summary: Arc<PerformanceMetricsSummary> },
    TransitMemoryState { memory_state_transition: Arc<MemoryStateTransition> },
}

impl Clone for Event {
    fn clone(&self) -> (r: Self)
        ensures
            r == *self,
    {
        match self {
            Event::UpdatePipeline { pipeline_derivatives } => Event::UpdatePipeline {
                pipeline_derivatives: Arc::clone(pipeline_derivatives),
            },
            Event::ReplacePerformanceMetrics { metrics } => Event::ReplacePerformanceMetrics {
                metrics: Arc::clone(metrics),
            },
            Event::IncrementalUpdateMetrics { metrics_update_by_task_execution } =>
            Event::IncrementalUpdateMetrics {
                metrics_update_by_task_execution: Arc::clone(metrics_update_by_task_execution),
            },
            Event::ReportMetricsSummary { metrics_summary } => Event::ReportMetricsSummary {
                metrics_summary: Arc::clone(metrics_summary),
            },
            Event::TransitMemoryState { memory_state_transition } => Event::TransitMemoryState {
                memory_state_transition: Arc::clone(memory_state_transition),
            },
        }
    }
}

/// The tag of an event: what subscribers subscribe to.
#[derive(Debug, Clone, Copy, PartialEq, Eq, Structural)]
pub enum EventTag {
    UpdatePipeline,
    ReplacePerformanceMetrics,
    IncrementalUpdateMetrics,
    ReportMetricsSummary,
    TransitMemoryState,
}

/// The tag of an event: that of its variant.
pub open spec fn spec_tag_of(e: Event) -> EventTag {
    match e {
        Event::UpdatePipeline { .. } => EventTag::UpdatePipeline,
        Event::ReplacePerformanceMetrics { .. } => EventTag::ReplacePerformanceMetrics,
        Event::IncrementalUpdateMetrics { .. } => EventTag::IncrementalUpdateMetrics,
        Event::ReportMetricsSummary { .. } => EventTag::ReportMetricsSummary,
        Event::TransitMemoryState { .. } => EventTag::TransitMemoryState,
    }
}

/// The number of a tag, by which the queue keys its subscribers.
pub open spec fn spec_tag_code(t: EventTag) -> u8 {
    match t {
        EventTag::UpdatePipeline => 0,
        EventTag::ReplacePerformanceMetrics => 1,
        EventTag::IncrementalUpdateMetrics => 2,
        EventTag::ReportMetricsSummary => 3,
        EventTag::TransitMemoryState => 4,
    }
}

impl EventTag {
    pub fn from(event: &Event) -> (r: EventTag)
        ensures
            r == spec_tag_of(*event),
    {
        match event {
            Event::UpdatePipeline { .. } => EventTag::UpdatePipeline,
            Event::ReplacePerformanceMetrics { .. } => EventTag::ReplacePerformanceMetrics,
            Event::IncrementalUpdateMetrics { .. } => EventTag::IncrementalUpdateMetrics,
            Event::ReportMetricsSummary { .. } => EventTag::ReportMetricsSummary,
            Event::TransitMemoryState { .. } => EventTag::TransitMemoryState,
        }
    }

    pub fn code(&self) -> (r: u8)
        ensures
            r == spec_tag_code(*self),
    {
        match self {
            EventTag::UpdatePipeline => 0,
            EventTag::ReplacePerformanceMetrics => 1,
            EventTag::IncrementalUpdateMetrics => 2,
            EventTag::ReportMetricsSummary => 3,
            EventTag::TransitMemoryState => 4,
        }
    }
}

/// The outside sending end of a channel.
#[verifier::external_type_specification]
#[verifier::external_body]
#[verifier::reject_recursive_types(T)]
pub struct ExSyncSender<T>(SyncSender<T>);

/// The outside receiving end of a channel.
#[verifier::external_type_specification]
#[verifier::external_body]
#[verifier::reject_recursive_types(T)]
pub struct ExReceiver<T>(Receiver<T>);

/// `std::sync::mpsc::sync_channel(0)`: a rendezvous channel, on which a
/// send waits until the event is received.
#[verifier::external_body]
fn rendezvous_channel() -> (r: (SyncSender<Event>, Receiver<Event>)) {
    std::sync::mpsc::sync_channel(0)
}

/// `SyncSender::send`: waits until the receiver takes the event; fails
/// only when the receiver is gone, and then gives the event back.
#[verifier::external_body]
fn send_event(sender: &SyncSender<Event>, event: Event) -> (r: Result<(), Event>)
    ensures
        r matches Err(e) ==> e == event,
{
    sender.send(event).map_err(|e| e.0)
}

/// `Receiver::try_recv`: an event if one is being sent (none also when
/// every sender is gone).
#[verifier::external_body]
fn try_receive_event(receiver: &Receiver<Event>) -> (r: Option<Event>) {
    receiver.try_recv().ok()
}

/// The receiving end given to a subscriber of a tag.
pub struct EventPoll {
    tag: EventTag,
    receiver: Receiver<Event>,
}

impl EventPoll {
    /// The receiving end that this poll reads.
    pub closed spec fn spec_receiver(&self) -> Receiver<Event> {
        self.receiver
    }

    /// The tag subscribed to.
    pub closed spec fn spec_tag(&self) -> EventTag {
        self.tag
    }

    pub fn new(tag: EventTag, receiver: Receiver<Event>) -> (r: EventPoll)
        ensures
            r.spec_receiver() == receiver,
            r.spec_tag() == tag,
    {
        EventPoll { tag, receiver }
    }

    /// The tag subscribed to.
    pub fn tag(&self) -> (r: EventTag)
        ensures
            r == self.spec_tag(),
    {
        self.tag
    }

    /// An event published to the subscribed tag, if one is waiting; what
    /// comes depends on the other threads.
    pub fn poll(&self) -> (r: Option<Event>) {
        try_receive_event(&self.receiver)
    }
}

/// The sending end kept for a subscriber.
pub struct EventPush {
    sender: SyncSender<Event>,
}

impl EventPush {
    /// The sending end that this push writes to.
    pub closed spec fn spec_sender(&self) -> SyncSender<Event> {
        self.sender
    }

    pub fn new(sender: SyncSender<Event>) -> (r: EventPush)
        ensures
            r.spec_sender() == sender,
    {
        EventPush { sender }
    }

    /// Sends `event` to the subscriber and waits until it takes it; fails
    /// when the subscriber is gone. On success, the receipt records the
    /// event and the sending end it went through.
    pub fn push_blocking(&self, event: Event) -> (r: Result<Handed, SpringError>)
        ensures
            r matches Err(e) ==> e == (SpringError::EventNotDelivered { tag: spec_tag_of(event) }),
            r matches Ok(h) ==> h.event() == event && h.sender() == self.spec_sender(),
    {
        let event_tag = EventTag::from(&event);
        let ghost sent = event;
        match send_event(&self.sender, event) {
            Ok(()) => Ok(Handed { event: Ghost(sent), sender: Ghost(self.sender) }),
            Err(_) => Err(SpringError::EventNotDelivered { tag: event_tag }),
        }
    }
}

/// The receipt of a successful send: `event` was taken from `sender`'s
/// channel. Only `EventPush::push_blocking` makes one.
pub struct Handed {
    event: Ghost<Event>,
    sender: Ghost<SyncSender<Event>>,
}

impl Handed {
    /// The event that was taken.
    pub closed spec fn event(&self) -> Event {
        self.event@
    }

    /// The sending end that it went through.
    pub closed spec fn sender(&self) -> SyncSender<Event> {
        self.sender@
    }
}

/// The subscribers of every tag.
pub struct SubscriberRegistry {
    subscribers_by_tag: HashMap<u8, Subscribers>,
}

impl SubscriberRegistry {
    /// Every key is the code of a tag, and a tag that is present has at
    /// least one subscriber.
    pub closed spec fn wf(&self) -> bool {
        forall|k: u8| #[trigger]
            self.subscribers_by_tag@.contains_key(k) ==> k < 5 && self.subscribers_by_tag@[k]@.len()
                > 0
    }

    /// The subscribers of `tag`, in order of subscription.
    pub closed spec fn subscribers_of(&self, tag: EventTag) -> Seq<EventPush> {
        if self.subscribers_by_tag@.contains_key(spec_tag_code(tag)) {
            self.subscribers_by_tag@[spec_tag_code(tag)]@
        } else {
            Seq::empty()
        }
    }

    /// No subscriber at all.
    pub fn new() -> (r: SubscriberRegistry)
        ensures
            r.wf(),
            forall|t: EventTag| r.subscribers_of(t) == Seq::<EventPush>::empty(),
    {
        SubscriberRegistry { subscribers_by_tag: HashMap::new() }
    }

    /// Adds a subscriber of `tag` after the others of that tag.
    pub fn add(&mut self, tag: EventTag, event_push: EventPush)
        requires
            old(self).wf(),
        ensures
            final(self).wf(),
            final(self).subscribers_of(tag) == old(self).subscribers_of(tag).push(event_push),
            forall|t: EventTag| t != tag ==> final(self).subscribers_of(t) == old(self).subscribers_of(t),
    {
        let code = tag.code();
        let mut sub = match self.subscribers_by_tag.remove(&code) {
            Some(sub) => sub,
            None => Subscribers::new(),
        };
        sub.add(event_push);
        self.subscribers_by_tag.insert(code, sub);
        proof {
            assert forall|t: EventTag| t != tag implies spec_tag_code(t) != code by {}
        }
    }

    /// The subscribers of `tag`, when it has any.
    pub fn get(&self, tag: EventTag) -> (r: Option<&Subscribers>)
        requires
            self.wf(),
        ensures
            match r {
                Some(s) => s@ == self.subscribers_of(tag) && s@.len() > 0,
                None => self.subscribers_of(tag).len() == 0,
            },
    {
        self.subscribers_by_tag.get(&tag.code())
    }
}

/// What a publication reaches after a subscription: once a subscriber is
/// added for `tag`, the tag has subscribers, the new one is the last to be
/// handed a publication of that tag, those subscribed before keep their
/// places ahead of it, and every other tag keeps its subscribers.
pub proof fn law_subscription_is_published_to(
    before: SubscriberRegistry,
    after: SubscriberRegistry,
    tag: EventTag,
    push: EventPush,
    other: EventTag,
)
    requires
        after.subscribers_of(tag) == before.subscribers_of(tag).push(push),
        forall|t: EventTag| t != tag ==> after.subscribers_of(t) == before.subscribers_of(t),
    ensures
        after.subscribers_of(tag).len() > 0,
        after.subscribers_of(tag).last() == push,
        after.subscribers_of(tag).subrange(0, before.subscribers_of(tag).len() as int)
            == before.subscribers_of(tag),
        other != tag ==> after.subscribers_of(other) == before.subscribers_of(other),
{
    assert(after.subscribers_of(tag).subrange(0, before.subscribers_of(tag).len() as int)
        =~= before.subscribers_of(tag));
}

/// The registry stays well formed under the lock.
pub struct RegistryInv;

impl RwLockPredicate<SubscriberRegistry> for RegistryInv {
    open spec fn inv(self, v: SubscriberRegistry) -> bool {
        v.wf()
    }
}

/// Event queue (message broker) for choreography between workers.
pub struct BlockingEventQueue {
    subscribers_by_tag: RwLock<SubscriberRegistry, RegistryInv>,
}

impl BlockingEventQueue {
    pub closed spec fn wf(&self) -> bool {
        self.subscribers_by_tag.pred() == RegistryInv
    }

    /// The lock that holds the registry of subscribers.
    pub closed spec fn registry_lock(&self) -> RwLock<SubscriberRegistry, RegistryInv> {
        self.subscribers_by_tag
    }

    /// A queue without subscribers.
    pub fn new() -> (r: BlockingEventQueue)
        ensures
            r.wf(),
    {
        BlockingEventQueue {
            subscribers_by_tag: RwLock::new(SubscriberRegistry::new(), Ghost(RegistryInv)),
        }
    }

    /// Publishes an event: hands it to every subscriber of its tag, each in
    /// turn, and returns once all have taken it. Fails when a subscriber is
    /// gone.
    pub fn publish_blocking(&self, event: Event) -> (r: Result<(), SpringError>)
        requires
            self.wf(),
        ensures
            r matches Err(e) ==> e == (SpringError::EventNotDelivered { tag: spec_tag_of(event) }),
    {
        let tag = EventTag::from(&event);
        let (subscribers_by_tag, handle) = self.lock();
        let res = match subscribers_by_tag.get(tag) {
            Some(subscribers) => match subscribers.push_all_blocking(event) {
                Ok(_) => Ok(()),
                Err(e) => Err(e),
            },
            None => Ok(()),
        };
        handle.release_write(subscribers_by_tag);
        res
    }

    /// Subscribes to a tag: the events published with it afterwards come to
    /// the returned poll.
    pub fn subscribe(&self, tag: EventTag) -> (r: EventPoll)
        requires
            self.wf(),
        ensures
            r.spec_tag() == tag,
    {
        let (sender, receiver) = rendezvous_channel();
        let event_push = EventPush::new(sender);
        let event_poll = EventPoll::new(tag, receiver);
        let (mut subscribers_by_tag, handle) = self.lock();
        subscribers_by_tag.add(tag, event_push);
        handle.release_write(subscribers_by_tag);
        event_poll
    }

    /// Takes the registry for exclusive use; the caller releases it, well
    /// formed, through the handle.
    pub fn lock(&self) -> (r: (SubscriberRegistry, WriteHandle<'_, SubscriberRegistry, RegistryInv>))
        requires
            self.wf(),
        ensures
            r.0.wf(),
            r.1.rwlock() == self.registry_lock(),
            r.1.rwlock().pred() == RegistryInv,
    {
        self.subscribers_by_tag.acquire_write()
    }
}

} // verus!
