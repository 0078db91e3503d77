//! The streaming relay: what a forwarding task does with each thing that happens to it.
//!
//! A streaming call has a handler that produces native messages into a bounded queue and a
//! remote consumer that reads wire messages from another. The task between the two waits for
//! the next message, translates it, writes it out, and stops when the handler closes its queue
//! or the consumer is gone. The waiting and the writing belong to the task; this module
//! decides, for each signal the task reports, what the task does next.

use vstd::prelude::*;
use crate::error::NeboError;
use crate::error::TransportFault;

verus! {

/// `tokio::sync::mpsc::Receiver`: the receiving end of a bounded queue, which a handler hands
/// over when it opens a stream. The library carries it to the runtime and never reads from it.
#[verifier::external_type_specification]
#[verifier::external_body]
#[verifier::reject_recursive_types(T)]
pub struct ExReceiver<T>(tokio::sync::mpsc::Receiver<T>);

/// A native message that has a form on the wire.
pub trait Outbound: View + Sized {
    /// The wire message.
    type Wire: View;

    /// The wire form of a native message.
    spec fn on_wire(native: Self::V) -> <Self::Wire as View>::V;

    /// Translates the message for the wire.
    fn into_wire(self) -> (wire: Self::Wire)
        ensures
            wire@ == Self::on_wire(self@),
    ;
}

/// What the forwarding task reports.
#[derive(Debug, PartialEq)]
pub enum RelaySignal<T> {
    /// The handler produced a message.
    Produced(T),
    /// The handler closed its queue: it has nothing more to say.
    SourceClosed,
    /// Writing the last forwarded message failed: the consumer has disconnected.
    ConsumerGone,
}

impl<T: View> View for RelaySignal<T> {
    type V = RelaySignal<T::V>;

    open spec fn view(&self) -> RelaySignal<T::V> {
        match self {
            RelaySignal::Produced(message) => RelaySignal::Produced(message@),
            RelaySignal::SourceClosed => RelaySignal::SourceClosed,
            RelaySignal::ConsumerGone => RelaySignal::ConsumerGone,
        }
    }
}

/// What the forwarding task does next.
#[derive(Debug, PartialEq)]
pub enum RelayAction<W> {
    /// Write this message to the consumer's queue, then wait for the next one.
    Forward(W),
    /// End the task. Nothing is reported to anyone.
    Stop,
}

impl<W: View> View for RelayAction<W> {
    type V = RelayAction<W::V>;

    open spec fn view(&self) -> RelayAction<W::V> {
        match self {
            RelayAction::Forward(message) => RelayAction::Forward(message@),
            RelayAction::Stop => RelayAction::Stop,
        }
    }
}

/// Where a relay stands.
#[derive(Clone, Copy, Debug, PartialEq, Eq, Structural)]
pub enum Relay {
    /// Both sides are open.
    Running,
    /// The handler closed its queue; the stream ended cleanly.
    Drained,
    /// The consumer disconnected; the stream ended silently.
    Disconnected,
}

impl Relay {
    /// Where the relay stands after a signal.
    pub open spec fn next<V>(self, signal: RelaySignal<V>) -> Relay {
        match self {
            Relay::Running => match signal {
                RelaySignal::Produced(_) => Relay::Running,
                RelaySignal::SourceClosed => Relay::Drained,
                RelaySignal::ConsumerGone => Relay::Disconnected,
            },
            ended => ended,
        }
    }

    /// The wire message that a signal makes the relay forward, if any.
    pub open spec fn emits<T: Outbound>(self, signal: RelaySignal<T::V>) -> Option<
        <T::Wire as View>::V,
    > {
        match signal {
            RelaySignal::Produced(message) if self is Running => Some(T::on_wire(message)),
            _ => None,
        }
    }

    /// What the task is told to do for a signal.
    pub open spec fn answer<T: Outbound>(self, signal: RelaySignal<T::V>) -> RelayAction<
        <T::Wire as View>::V,
    > {
        match self.emits::<T>(signal) {
            Some(message) => RelayAction::Forward(message),
            None => RelayAction::Stop,
        }
    }

    /// A relay for a stream that was just opened.
    pub fn new() -> (relay: Relay)
        ensures
            relay == Relay::Running,
    {
        Relay::Running
    }

    /// Whether the relay has ended.
    pub fn is_over(&self) -> (over: bool)
        ensures
            over == !(*self is Running),
    {
        match self {
            Relay::Running => false,
            _ => true,
        }
    }

    /// Takes a signal from the forwarding task and says what the task does next.
    ///
    /// While running, a produced message is translated and forwarded; either side closing ends
    /// the relay. Once ended, the relay forwards nothing, whatever is reported.
    pub fn step<T: Outbound>(&mut self, signal: RelaySignal<T>) -> (action: RelayAction<T::Wire>)
        ensures
            *final(self) == old(self).next(signal@),
            action@ == old(self).answer::<T>(signal@),
    {
        match *self {
            Relay::Running => match signal {
                RelaySignal::Produced(message) => RelayAction::Forward(message.into_wire()),
                RelaySignal::SourceClosed => {
                    *self = Relay::Drained;
                    RelayAction::Stop
                },
                RelaySignal::ConsumerGone => {
                    *self = Relay::Disconnected;
                    RelayAction::Stop
                },
            },
            _ => RelayAction::Stop,
        }
    }
}

/// How many signals at the head of a run are produced messages.
pub open spec fn live_len<V>(signals: Seq<RelaySignal<V>>) -> nat
    decreases signals.len(),
{
    if signals.len() > 0 && signals[0] is Produced {
        1 + live_len(signals.drop_first())
    } else {
        0
    }
}

/// The wire messages that a relay forwards over a whole run of signals, in the order in which
/// it forwards them.
pub open spec fn forwarded<T: Outbound>(relay: Relay, signals: Seq<RelaySignal<T::V>>) -> Seq<
    <T::Wire as View>::V,
>
    decreases signals.len(),
{
    if signals.len() == 0 {
        Seq::empty()
    } else {
        let rest = forwarded::<T>(relay.next(signals[0]), signals.drop_first());
        match relay.emits::<T>(signals[0]) {
            Some(message) => seq![message] + rest,
            None => rest,
        }
    }
}

/// Where a relay stands after a whole run of signals.
pub open spec fn settled<V>(relay: Relay, signals: Seq<RelaySignal<V>>) -> Relay
    decreases signals.len(),
{
    if signals.len() == 0 {
        relay
    } else {
        settled(relay.next(signals[0]), signals.drop_first())
    }
}

/// The wire forms of the messages produced before either side closed, one for each and in the
/// order produced.
pub open spec fn produced_on_wire<T: Outbound>(signals: Seq<RelaySignal<T::V>>) -> Seq<
    <T::Wire as View>::V,
> {
    Seq::new(live_len(signals), |i: int| T::on_wire(signals[i]->Produced_0))
}

/// The wire messages that reached the consumer: all that were forwarded, but for the last one
/// when the run ended because writing it failed.
pub open spec fn delivered<T: Outbound>(signals: Seq<RelaySignal<T::V>>) -> Seq<
    <T::Wire as View>::V,
> {
    let live = live_len(signals);
    let sent = forwarded::<T>(Relay::Running, signals);
    if live > 0 && live < signals.len() && signals[live as int] is ConsumerGone {
        sent.drop_last()
    } else {
        sent
    }
}

/// The head of a run that consists of produced messages lies within the run, holds only
/// produced messages, and is followed by a closing signal or by nothing.
pub proof fn lemma_live_len<V>(signals: Seq<RelaySignal<V>>)
    ensures
        live_len(signals) <= signals.len(),
        forall|i: int| 0 <= i < live_len(signals) ==> signals[i] is Produced,
        live_len(signals) < signals.len() ==> !(signals[live_len(signals) as int] is Produced),
    decreases signals.len(),
{
    if signals.len() > 0 && signals[0] is Produced {
        let rest = signals.drop_first();
        lemma_live_len(rest);
        assert forall|i: int| 0 <= i < live_len(signals) implies signals[i] is Produced by {
            if i > 0 {
                assert(signals[i] == rest[i - 1]);
            }
        }
        if live_len(signals) < signals.len() {
            assert(signals[live_len(signals) as int] == rest[live_len(rest) as int]);
        }
    }
}

/// A relay that has ended forwards nothing, whatever is reported.
pub proof fn lemma_ended_relay_is_silent<T: Outbound>(relay: Relay, signals: Seq<RelaySignal<T::V>>)
    requires
        !(relay is Running),
    ensures
        forwarded::<T>(relay, signals).len() == 0,
    decreases signals.len(),
{
    if signals.len() > 0 {
        lemma_ended_relay_is_silent::<T>(relay, signals.drop_first());
    }
}

/// Order and uniqueness: over any run of signals, a fresh relay forwards exactly the messages
/// that the handler produced before either side closed, each once, translated, and in the
/// order produced. After the first closing signal it forwards nothing more.
pub proof fn lemma_relay_keeps_order<T: Outbound>(signals: Seq<RelaySignal<T::V>>)
    ensures
        forwarded::<T>(Relay::Running, signals) == produced_on_wire::<T>(signals),
    decreases signals.len(),
{
    let sent = forwarded::<T>(Relay::Running, signals);
    let want = produced_on_wire::<T>(signals);
    if signals.len() == 0 {
        assert(sent =~= want);
    } else {
        let rest = signals.drop_first();
        if signals[0] is Produced {
            lemma_relay_keeps_order::<T>(rest);
            lemma_live_len(rest);
            assert forall|i: int| 0 <= i < want.len() implies sent[i] == want[i] by {
                if i > 0 {
                    assert(signals[i] == rest[i - 1]);
                }
            }
            assert(sent =~= want);
        } else {
            lemma_ended_relay_is_silent::<T>(Relay::Running.next(signals[0]), rest);
            assert(sent =~= want);
        }
    }
}

/// What reaches the consumer is a leading part of what the handler produced, in order: all of
/// it when the handler closed first or the run is still open, all but the message whose write
/// failed when the consumer disconnected.
pub proof fn lemma_delivered_is_a_prefix<T: Outbound>(signals: Seq<RelaySignal<T::V>>)
    ensures
        delivered::<T>(signals).len() <= live_len(signals),
        delivered::<T>(signals).len() + 1 >= live_len(signals),
        forall|i: int|
            0 <= i < delivered::<T>(signals).len() ==> delivered::<T>(signals)[i] == T::on_wire(
                signals[i]->Produced_0,
            ),
{
    lemma_relay_keeps_order::<T>(signals);
    lemma_live_len(signals);
}

/// How a relay ends: cleanly when the handler closes first, silently when the consumer goes
/// first, and not at all while messages keep coming.
pub proof fn lemma_relay_end<V>(signals: Seq<RelaySignal<V>>)
    ensures
        settled(Relay::Running, signals) == (if live_len(signals) == signals.len() {
            Relay::Running
        } else if signals[live_len(signals) as int] is SourceClosed {
            Relay::Drained
        } else {
            Relay::Disconnected
        }),
    decreases signals.len(),
{
    if signals.len() > 0 {
        let rest = signals.drop_first();
        if signals[0] is Produced {
            lemma_relay_end(rest);
            lemma_live_len(rest);
            if live_len(rest) < rest.len() {
                assert(signals[live_len(signals) as int] == rest[live_len(rest) as int]);
            }
        } else {
            lemma_settled_stays(Relay::Running.next(signals[0]), rest);
        }
    }
}

/// A relay that has ended stays as it is.
pub proof fn lemma_settled_stays<V>(relay: Relay, signals: Seq<RelaySignal<V>>)
    requires
        !(relay is Running),
    ensures
        settled(relay, signals) == relay,
    decreases signals.len(),
{
    if signals.len() > 0 {
        lemma_settled_stays(relay, signals.drop_first());
    }
}

/// What a bridge hands to the runtime when a stream has been opened.
#[derive(Debug)]
pub struct StreamSetup<S> {
    /// The handler's end: where native messages come from.
    pub source: S,
    /// How many wire messages may wait for the consumer before the handler is held back.
    pub capacity: usize,
}

/// Whether `r` is what becomes of a streaming call whose handler answered the request to open
/// its stream with `opened`: a stream from the handler's source with the given bound, or, as no
/// response exists yet that could carry the failure, a fault on the transport with the
/// failure's text.
pub open spec fn opens_as<S>(
    opened: Result<S, NeboError>,
    capacity: usize,
    r: Result<StreamSetup<S>, TransportFault>,
) -> bool {
    match opened {
        Ok(source) => r == Ok::<StreamSetup<S>, TransportFault>(StreamSetup { source, capacity }),
        Err(failure) => r is Err && r->Err_0 is Internal && r->Err_0.text() == failure.text(),
    }
}

/// Decides what becomes of a streaming call once the handler has answered the request to open
/// its stream.
pub fn open_stream<S>(opened: Result<S, NeboError>, capacity: usize) -> (r: Result<
    StreamSetup<S>,
    TransportFault,
>)
    ensures
        opens_as(opened, capacity, r),
{
    match opened {
        Ok(source) => Ok(StreamSetup { source, capacity }),
        Err(failure) => Err(TransportFault::from_failure(&failure)),
    }
}

} // verus!
