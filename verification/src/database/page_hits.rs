//! Page hits: scheduling them without waiting, and collecting them in the
//! background until a shutdown has drained them

use vstd::prelude::*;

use tokio::sync::mpsc::error::TryRecvError;
use tokio::sync::mpsc::error::TrySendError;
use tokio::sync::mpsc::Receiver;
use tokio::sync::mpsc::Sender;

use super::Error;
use super::ErrorView;
use crate::client_ip::IpAddress;
use crate::timestamp::Timestamp;

verus! {

/// The sending half of a bounded channel of `tokio`
#[verifier::external_type_specification]
#[verifier::external_body]
#[verifier::reject_recursive_types(T)]
pub struct ExSender<T>(tokio::sync::mpsc::Sender<T>);

/// The receiving half of a bounded channel of `tokio`
#[verifier::external_type_specification]
#[verifier::external_body]
#[verifier::reject_recursive_types(T)]
pub struct ExReceiver<T>(tokio::sync::mpsc::Receiver<T>);

/// The capacity of the page hit collector channel
///
/// This is the buffer for how many page hits can be scheduled before the page
/// hits actually need to be stored. A burst that saturates it has its page
/// hits dropped: the redirect never waits for room.
pub const PAGE_HIT_COLLECTOR_CHANNEL_CAPACITY: usize = 10_000;

/// The largest capacity that a channel can have
pub const MAX_CHANNEL_CAPACITY: usize = usize::MAX / 8;

/// Page hit information
#[derive(Debug)]
pub struct PageHitInformation {
    /// The destination ID
    pub destination_id: u128,
    /// The alias ID
    pub alias_id: Option<u128>,
    /// The IP address
    pub ip_address: Option<IpAddress>,
    /// The user agent
    pub user_agent: Option<String>,
    /// The moment this page hit happened, not the moment it is stored
    pub when: Timestamp,
}

/// What became of a page hit that was offered to the channel
#[derive(Clone, Copy, Debug, PartialEq, Eq, Structural)]
pub enum SendOutcome {
    /// The channel took it
    Sent,
    /// The channel holds as many page hits as it has room for
    Full,
    /// Nobody receives from the channel any more
    Closed,
}

/// What the channel gave when it was asked for the next page hit
#[derive(Debug)]
pub enum Received {
    /// The page hit that waited longest
    PageHit(PageHitInformation),
    /// No page hit waits
    Empty,
    /// No page hit waits, and nobody is left to send one
    Disconnected,
}

/// What the collector does next
#[derive(Debug)]
pub enum CollectorStep {
    /// Store the page hit, then go on
    Save(PageHitInformation),
    /// Nothing waits: wait for a page hit or for the shutdown
    Wait,
    /// Nothing waits and nobody is left to send: wait for the shutdown only,
    /// then mark it as completed and stop
    Closed,
    /// Nothing waits and the shutdown was asked for: mark it as completed and
    /// stop
    Complete,
}

/// The bound of the channel that a sender belongs to: the number of page
/// hits that the channel was made to have room for, which stays as it is
/// whatever is sent and received. It is what `Sender::max_capacity` gives.
pub uninterp spec fn sender_bound(sender: Sender<PageHitInformation>) -> usize;

/// The bound of the channel that a receiver belongs to: the number of page
/// hits that the channel was made to have room for, which stays as it is
/// whatever is sent and received. It is what `Receiver::max_capacity` gives.
pub uninterp spec fn receiver_bound(receiver: Receiver<PageHitInformation>) -> usize;

/// Make a bounded channel.
///
/// Calls `tokio::sync::mpsc::channel`, which panics on a capacity of zero and
/// on one beyond the permits of a semaphore; the caller shows that the
/// capacity is neither. Trusted: both halves belong to a channel whose bound
/// is the capacity that was asked for, named `sender_bound` and
/// `receiver_bound`. Nothing is claimed of what the channel holds.
#[verifier::external_body]
fn channel(capacity: usize) -> (halves: (Sender<PageHitInformation>, Receiver<PageHitInformation>))
    requires
        0 < capacity <= MAX_CHANNEL_CAPACITY,
    ensures
        sender_bound(halves.0) == capacity,
        receiver_bound(halves.1) == capacity,
{
    tokio::sync::mpsc::channel(capacity)
}

/// Offer a page hit to the channel without waiting.
///
/// Calls `Sender::try_send`. Trusted: nothing is claimed of which of the three
/// outcomes comes back, as that depends on what the other holders of the
/// channel do.
#[verifier::external_body]
fn try_send(sender: &Sender<PageHitInformation>, page_hit: PageHitInformation) -> (outcome:
    SendOutcome)
{
    match sender.try_send(page_hit) {
        Ok(()) => SendOutcome::Sent,
        Err(TrySendError::Full(_)) => SendOutcome::Full,
        Err(TrySendError::Closed(_)) => SendOutcome::Closed,
    }
}

/// Ask the channel for the next page hit without waiting.
///
/// Calls `Receiver::try_recv`. Trusted: nothing is claimed of which of the
/// three outcomes comes back, as that depends on what the senders do.
#[verifier::external_body]
fn try_receive(receiver: &mut Receiver<PageHitInformation>) -> (received: Received) {
    match receiver.try_recv() {
        Ok(page_hit) => Received::PageHit(page_hit),
        Err(TryRecvError::Empty) => Received::Empty,
        Err(TryRecvError::Disconnected) => Received::Disconnected,
    }
}

/// The channel through which page hits go to the collector: bounded, with
/// room for as many page hits as the capacity of the collector allows
pub fn page_hit_channel() -> (halves: (Sender<PageHitInformation>, Receiver<PageHitInformation>))
    ensures
        sender_bound(halves.0) == PAGE_HIT_COLLECTOR_CHANNEL_CAPACITY,
        receiver_bound(halves.1) == PAGE_HIT_COLLECTOR_CHANNEL_CAPACITY,
{
    channel(PAGE_HIT_COLLECTOR_CHANNEL_CAPACITY)
}

/// The error for a page hit that the channel did not take
pub open spec fn scheduling_error(outcome: SendOutcome) -> Option<ErrorView> {
    match outcome {
        SendOutcome::Sent => None,
        SendOutcome::Full => Some(
            ErrorView::PageHitScheduling("Could not schedule page hit: no available capacity"@),
        ),
        SendOutcome::Closed => Some(
            ErrorView::PageHitScheduling("Could not schedule page hit: channel closed"@),
        ),
    }
}

/// What the caller is told of a page hit that was offered to the channel: a
/// page hit that found no room is dropped, with an error, at once
pub fn scheduling_result(outcome: SendOutcome) -> (scheduled: Result<(), Error>)
    ensures
        match scheduling_error(outcome) {
            None => scheduled is Ok,
            Some(error) => scheduled matches Err(failed) && failed@ == error,
        },
{
    match outcome {
        SendOutcome::Sent => Ok(()),
        SendOutcome::Full => Err(
            Error::PageHitScheduling(
                "Could not schedule page hit: no available capacity".to_string(),
            ),
        ),
        SendOutcome::Closed => Err(
            Error::PageHitScheduling("Could not schedule page hit: channel closed".to_string()),
        ),
    }
}

/// Schedule saving a hit in the background
///
/// Never waits: where the channel has no room, the page hit is dropped and
/// the error says so.
pub fn schedule_save_hit(
    sender: &Sender<PageHitInformation>,
    destination_id: u128,
    alias_id: Option<u128>,
    ip_address: Option<IpAddress>,
    user_agent: Option<String>,
    when: Timestamp,
) -> (scheduled: Result<(), Error>)
    ensures
        exists|outcome: SendOutcome|
            match #[trigger] scheduling_error(outcome) {
                None => scheduled is Ok,
                Some(error) => scheduled matches Err(failed) && failed@ == error,
            },
{
    let outcome = try_send(
        sender,
        PageHitInformation { destination_id, alias_id, ip_address, user_agent, when },
    );
    scheduling_result(outcome)
}

/// What the collector is to do with what the channel gave: a page hit that
/// waits goes first, whether or not the shutdown was asked for; the shutdown
/// completes only when nothing waits.
pub open spec fn step_of(received: Received, is_shutting_down: bool) -> CollectorStep {
    match received {
        Received::PageHit(page_hit) => CollectorStep::Save(page_hit),
        Received::Empty => if is_shutting_down {
            CollectorStep::Complete
        } else {
            CollectorStep::Wait
        },
        Received::Disconnected => if is_shutting_down {
            CollectorStep::Complete
        } else {
            CollectorStep::Closed
        },
    }
}

/// Decide what the collector does with what the channel gave
pub fn collector_step(received: Received, is_shutting_down: bool) -> (step: CollectorStep)
    ensures
        step == step_of(received, is_shutting_down),
{
    match received {
        Received::PageHit(page_hit) => CollectorStep::Save(page_hit),
        Received::Empty => if is_shutting_down {
            CollectorStep::Complete
        } else {
            CollectorStep::Wait
        },
        Received::Disconnected => if is_shutting_down {
            CollectorStep::Complete
        } else {
            CollectorStep::Closed
        },
    }
}

/// Ask the channel for the next page hit and decide what the collector does
pub fn next_collector_step(
    receiver: &mut Receiver<PageHitInformation>,
    is_shutting_down: bool,
) -> (step: CollectorStep)
    ensures
        exists|received: Received| step == #[trigger] step_of(received, is_shutting_down),
        step is Complete ==> is_shutting_down,
        step is Wait || step is Closed ==> !is_shutting_down,
{
    let received = try_receive(receiver);
    collector_step(received, is_shutting_down)
}

/// What the channel gives for a queue of page hits that nobody adds to: the
/// one that waited longest
pub open spec fn front_of(queue: Seq<PageHitInformation>) -> Received {
    if queue.len() > 0 {
        Received::PageHit(queue[0])
    } else {
        Received::Empty
    }
}

/// The steps of the collector from the moment a shutdown is asked for, over
/// a queue that nobody adds to, up to the step that ends it
pub open spec fn steps_after_shutdown(queue: Seq<PageHitInformation>) -> Seq<CollectorStep>
    decreases queue.len(),
{
    let step = step_of(front_of(queue), true);
    if queue.len() > 0 {
        seq![step] + steps_after_shutdown(queue.drop_first())
    } else {
        seq![step]
    }
}

/// Drain on shutdown: with any number of page hits in the queue when the
/// shutdown is asked for, the collector saves every one of them, in their
/// order, and completes the shutdown only in the step after the last.
pub proof fn lemma_shutdown_drains(queue: Seq<PageHitInformation>)
    ensures
        steps_after_shutdown(queue).len() == queue.len() + 1,
        forall|i: int|
            0 <= i < queue.len() ==> #[trigger] steps_after_shutdown(queue)[i]
                == CollectorStep::Save(queue[i]),
        steps_after_shutdown(queue).last() == CollectorStep::Complete,
    decreases queue.len(),
{
    if queue.len() > 0 {
        let rest = queue.drop_first();
        lemma_shutdown_drains(rest);
        let steps = steps_after_shutdown(queue);
        assert forall|i: int| 0 <= i < queue.len() implies #[trigger] steps[i]
            == CollectorStep::Save(queue[i]) by {
            if i > 0 {
                assert(steps[i] == steps_after_shutdown(rest)[i - 1]);
                assert(rest[i - 1] == queue[i]);
            }
        }
        assert(steps.last() == steps_after_shutdown(rest).last());
    }
}

/// Shedding under load: a page hit that finds the channel full is refused
/// with a scheduling error, and one that the channel takes is not.
pub proof fn lemma_full_channel_sheds()
    ensures
        scheduling_error(SendOutcome::Full) is Some,
        scheduling_error(SendOutcome::Closed) is Some,
        scheduling_error(SendOutcome::Sent) is None,
{
}

} // verus!
