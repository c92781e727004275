//! The coordinate channel: anchor points travel from the tray listener's
//! thread to the positioner task over tokio's unbounded channel, whose
//! consumer is handed out once.
use vstd::prelude::*;
use tokio::sync::mpsc::{UnboundedReceiver, UnboundedSender};
use crate::geometry::{IconRect, Point, anchor_of, anchor_point, point_is};

verus! {

#[verifier::external_type_specification]
#[verifier::external_body]
#[verifier::reject_recursive_types(T)]
pub struct ExUnboundedSender<T>(UnboundedSender<T>);

#[verifier::external_type_specification]
#[verifier::external_body]
#[verifier::reject_recursive_types(T)]
pub struct ExUnboundedReceiver<T>(UnboundedReceiver<T>);

/// A mistake in how the parts were put together, not a runtime fault.
#[derive(Clone, Copy, Debug, PartialEq, Eq, Structural)]
pub enum WiringError {
    /// The consumer was asked for after it had already been handed out.
    ChannelAlreadyConsumed,
}

/// A point could not be delivered: the consumer is gone.
#[derive(Clone, Copy, Debug, PartialEq, Eq, Structural)]
pub enum SendError {
    /// The consumer has been dropped or closed; the point is handed back.
    ChannelClosed(Point),
}

/// A slot that gives up its value once.
pub struct TakeOnce<T> {
    slot: Option<T>,
}

impl<T> View for TakeOnce<T> {
    type V = Option<T>;

    closed spec fn view(&self) -> Option<T> {
        self.slot
    }
}

/// One attempt to take from a slot holding `s`: what the attempt returns, and
/// what the slot holds afterwards.
pub open spec fn take_outcome<T>(s: Option<T>) -> (Result<T, WiringError>, Option<T>) {
    match s {
        Some(v) => (Ok(v), None),
        None => (Err(WiringError::ChannelAlreadyConsumed), None),
    }
}

/// What `n` attempts in a row return, from a slot holding `s`.
pub open spec fn attempts<T>(s: Option<T>, n: nat) -> Seq<Result<T, WiringError>>
    decreases n,
{
    if n == 0 {
        Seq::empty()
    } else {
        seq![take_outcome(s).0] + attempts(take_outcome(s).1, (n - 1) as nat)
    }
}

impl<T> TakeOnce<T> {
    pub fn new(value: T) -> (s: TakeOnce<T>)
        ensures
            s@ == Some(value),
    {
        TakeOnce { slot: Some(value) }
    }

    /// Hands out the value the first time; every later call fails with
    /// `ChannelAlreadyConsumed`.
    pub fn take(&mut self) -> (r: Result<T, WiringError>)
        ensures
            (r, final(self)@) == take_outcome(old(self)@),
    {
        match self.slot.take() {
            Some(v) => Ok(v),
            None => Err(WiringError::ChannelAlreadyConsumed),
        }
    }
}

/// Of any number of attempts to take from a filled slot, exactly the first
/// succeeds, with the value put in; each later one fails with
/// `ChannelAlreadyConsumed`.
pub proof fn single_consumer<T>(v: T, n: nat)
    requires
        n >= 1,
    ensures
        attempts(Some(v), n).len() == n,
        attempts(Some(v), n)[0] == Ok::<T, WiringError>(v),
        forall|i: int|
            1 <= i < n ==> #[trigger] attempts(Some(v), n)[i] == Err::<T, WiringError>(
                WiringError::ChannelAlreadyConsumed,
            ),
{
    empty_slot_refuses::<T>((n - 1) as nat);
    assert(attempts(Some(v), n) == seq![Ok::<T, WiringError>(v)] + attempts(None::<T>, (n - 1) as nat));
}

/// Every attempt to take from an empty slot fails with `ChannelAlreadyConsumed`.
pub proof fn empty_slot_refuses<T>(n: nat)
    ensures
        attempts(None::<T>, n).len() == n,
        forall|i: int|
            0 <= i < n ==> #[trigger] attempts(None::<T>, n)[i] == Err::<T, WiringError>(
                WiringError::ChannelAlreadyConsumed,
            ),
    decreases n,
{
    if n > 0 {
        empty_slot_refuses::<T>((n - 1) as nat);
        let rest = attempts(None::<T>, (n - 1) as nat);
        assert(attempts(None::<T>, n) == seq![Err::<T, WiringError>(WiringError::ChannelAlreadyConsumed)] + rest);
        assert forall|i: int| 0 <= i < n implies #[trigger] attempts(None::<T>, n)[i] == Err::<T, WiringError>(
            WiringError::ChannelAlreadyConsumed,
        ) by {
            if i > 0 {
                assert(attempts(None::<T>, n)[i] == rest[i - 1]);
            }
        }
    }
}

/// Relies on tokio::sync::mpsc::unbounded_channel: a new channel, its
/// producer and its consumer.
#[verifier::external_body]
fn new_unbounded() -> (r: (UnboundedSender<Point>, UnboundedReceiver<Point>)) {
    tokio::sync::mpsc::unbounded_channel::<Point>()
}

/// Relies on UnboundedSender's Clone: another producer of the same channel,
/// sharing the same handle to it.
#[verifier::external_body]
fn clone_sender(tx: &UnboundedSender<Point>) -> (r: UnboundedSender<Point>)
    ensures
        r == *tx,
{
    tx.clone()
}

/// Relies on UnboundedSender::send: it never waits, and when it fails (the
/// consumer is closed or dropped) the error holds the message that was sent.
/// (tokio aborts the process only if the count of queued messages overflows
/// `usize`.)
#[verifier::external_body]
fn send_to(tx: &UnboundedSender<Point>, p: Point) -> (r: Result<(), Point>)
    ensures
        r matches Err(q) ==> q == p,
{
    match tx.send(p) {
        Ok(()) => Ok(()),
        Err(e) => Err(e.0),
    }
}

/// The channel that carries anchor points from the tray listener to the
/// panel positioner.
pub struct CoordinateChannel {
    sender: UnboundedSender<Point>,
    consumer: TakeOnce<UnboundedReceiver<Point>>,
}

impl CoordinateChannel {
    /// Whether the consumer has not been handed out yet.
    pub closed spec fn consumer_available(&self) -> bool {
        self.consumer@.is_some()
    }

    /// The channel's own producer, of which `sender` hands out copies.
    pub closed spec fn producer(&self) -> UnboundedSender<Point> {
        self.sender
    }

    /// The consumer, while it has not been handed out.
    pub closed spec fn consumer_slot(&self) -> Option<UnboundedReceiver<Point>> {
        self.consumer@
    }

    pub fn new() -> (c: CoordinateChannel)
        ensures
            c.consumer_available(),
    {
        let (sender, receiver) = new_unbounded();
        CoordinateChannel { sender, consumer: TakeOnce::new(receiver) }
    }

    /// A producer handle; any number may be made, on any thread.
    pub fn sender(&self) -> (tx: UnboundedSender<Point>)
        ensures
            tx == self.producer(),
    {
        clone_sender(&self.sender)
    }

    /// Hands out the consumer the first time; every later call fails with
    /// `ChannelAlreadyConsumed`.
    pub fn take_consumer(&mut self) -> (r: Result<UnboundedReceiver<Point>, WiringError>)
        ensures
            old(self).consumer_available() <==> r is Ok,
            !old(self).consumer_available() ==> r == Err::<UnboundedReceiver<Point>, WiringError>(
                WiringError::ChannelAlreadyConsumed,
            ),
            r matches Ok(rx) ==> old(self).consumer_slot() == Some(rx),
            !final(self).consumer_available(),
            final(self).producer() == old(self).producer(),
    {
        self.consumer.take()
    }
}

/// Forwards a click on the icon whose bounding rectangle is `rect`: its
/// anchor point is sent to the positioner. Whether or not the send succeeds,
/// the point is the anchor of `rect`; on failure it is handed back.
pub fn forward_click(tx: &UnboundedSender<Point>, rect: &IconRect) -> (r: Result<Point, SendError>)
    ensures
        match r {
            Ok(p) => point_is(p, anchor_of(*rect)),
            Err(SendError::ChannelClosed(p)) => point_is(p, anchor_of(*rect)),
        },
{
    let p = anchor_point(rect);
    match send_to(tx, p) {
        Ok(()) => Ok(p),
        Err(q) => Err(SendError::ChannelClosed(q)),
    }
}

} // verus!
