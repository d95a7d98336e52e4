//! The per-shard receive loop as a state machine: which pulled item
//! leads to a dispatch, which to a logged warning, and which ends the
//! loop — in particular the race between a locally requested close and
//! the transport surfacing that close as an error.

use vstd::prelude::*;

use crate::model::InboundEvent;
use crate::model::InboundEventModel;

verus! {

/// The process-wide shutdown request. Its only legal transition is
/// false to true: nothing ever clears a raised flag.
pub struct ShutdownFlag {
    pub requested: bool,
}

impl ShutdownFlag {
    /// At startup the flag is down.
    pub fn new() -> (f: ShutdownFlag)
        ensures
            !f.requested,
    {
        ShutdownFlag { requested: false }
    }

    /// Raises the flag; raising it again changes nothing.
    pub fn trigger(&mut self)
        ensures
            final(self).requested,
    {
        self.requested = true;
    }

    /// Reads the flag, as every shard loop does once per iteration.
    pub fn is_set(&self) -> (b: bool)
        ensures
            b == self.requested,
    {
        self.requested
    }
}

/// The class of one failed receive, as the transport reports it.
#[derive(Clone, Copy, Debug, PartialEq, Eq, Structural)]
pub enum ReceiveErrorKind {
    /// The underlying socket dropped — the shape a locally requested
    /// close surfaces as.
    WebSocket,
    /// Any other per-event receive failure.
    Other,
}

/// One item pulled from the transport: a decoded event, a failed
/// receive, or the end of the stream.
pub enum PulledItem {
    Event(InboundEvent),
    ReceiveError(ReceiveErrorKind),
    StreamEnd,
}

/// Mathematical value of a [`PulledItem`].
pub enum PulledItemModel {
    Event(InboundEventModel),
    ReceiveError(ReceiveErrorKind),
    StreamEnd,
}

impl View for PulledItem {
    type V = PulledItemModel;

    open spec fn view(&self) -> PulledItemModel {
        match self {
            PulledItem::Event(e) => PulledItemModel::Event(e@),
            PulledItem::ReceiveError(k) => PulledItemModel::ReceiveError(*k),
            PulledItem::StreamEnd => PulledItemModel::StreamEnd,
        }
    }
}

/// What the loop does with one pulled item.
#[derive(Clone, Copy, Debug, PartialEq, Eq, Structural)]
pub enum LoopDecision {
    /// Hand the event to the dispatcher and keep pulling.
    Dispatch,
    /// Log a warning and keep pulling: receive errors are not fatal to
    /// the shard.
    Warn,
    /// Stop pulling and issue the local normal-closure request, with no
    /// warning logged.
    ExitCleanly,
}

/// The states of one shard loop.
#[derive(Clone, Copy, Debug, PartialEq, Eq, Structural)]
pub enum ShardState {
    /// Pulling and dispatching events.
    Running,
    /// Done pulling; the local normal-closure request is being issued.
    Closing,
    /// The shard task has ended.
    Terminated,
}

/// The decision a running loop takes on one pulled item. A clean close
/// event or a websocket error while shutdown is requested both end the
/// loop quietly; any other error warns, whether or not shutdown is
/// requested; every other event is dispatched.
pub open spec fn loop_decision(shutdown: bool, item: PulledItemModel) -> LoopDecision {
    match item {
        PulledItemModel::Event(e) => if shutdown && e == InboundEventModel::GatewayClose {
            LoopDecision::ExitCleanly
        } else {
            LoopDecision::Dispatch
        },
        PulledItemModel::ReceiveError(k) => if shutdown && k == ReceiveErrorKind::WebSocket {
            LoopDecision::ExitCleanly
        } else {
            LoopDecision::Warn
        },
        PulledItemModel::StreamEnd => LoopDecision::ExitCleanly,
    }
}

/// One shard's receive loop, reduced to its control state.
pub struct ShardLoop {
    pub state: ShardState,
}

impl ShardLoop {
    /// A shard loop starts running as soon as its connection handle
    /// exists.
    pub fn new() -> (s: ShardLoop)
        ensures
            s.state == ShardState::Running,
    {
        ShardLoop { state: ShardState::Running }
    }

    /// Takes the decision for one pulled item and moves to `Closing`
    /// exactly when the decision ends the loop.
    pub fn observe(&mut self, shutdown: bool, item: &PulledItem) -> (d: LoopDecision)
        requires
            old(self).state == ShardState::Running,
        ensures
            d == loop_decision(shutdown, item@),
            final(self).state == (if d == LoopDecision::ExitCleanly {
                ShardState::Closing
            } else {
                ShardState::Running
            }),
    {
        let exit = match item {
            PulledItem::Event(e) => shutdown && matches!(e, InboundEvent::GatewayClose),
            PulledItem::ReceiveError(k) => shutdown && matches!(k, ReceiveErrorKind::WebSocket),
            PulledItem::StreamEnd => true,
        };
        if exit {
            self.state = ShardState::Closing;
            LoopDecision::ExitCleanly
        } else {
            match item {
                PulledItem::Event(_) => LoopDecision::Dispatch,
                PulledItem::ReceiveError(_) => LoopDecision::Warn,
                PulledItem::StreamEnd => LoopDecision::Warn,
            }
        }
    }

    /// After the local normal-closure request is issued the task ends.
    pub fn close_issued(&mut self)
        requires
            old(self).state == ShardState::Closing,
        ensures
            final(self).state == ShardState::Terminated,
    {
        self.state = ShardState::Terminated;
    }

    /// A failure propagated from the dispatcher is fatal to this
    /// shard's task alone: the loop ends without closing cleanly.
    pub fn dispatch_failed(&mut self)
        requires
            old(self).state == ShardState::Running,
        ensures
            final(self).state == ShardState::Terminated,
    {
        self.state = ShardState::Terminated;
    }
}

/// The shutdown race: once shutdown is requested, the next clean close
/// event and the websocket error it may surface as both end the loop
/// with no warning logged, while a receive error of any other kind
/// still warns.
pub proof fn lemma_shutdown_race(kind: ReceiveErrorKind)
    ensures
        loop_decision(true, PulledItemModel::Event(InboundEventModel::GatewayClose))
            == LoopDecision::ExitCleanly,
        loop_decision(true, PulledItemModel::ReceiveError(ReceiveErrorKind::WebSocket))
            == LoopDecision::ExitCleanly,
        kind != ReceiveErrorKind::WebSocket ==> loop_decision(
            true,
            PulledItemModel::ReceiveError(kind),
        ) == LoopDecision::Warn,
{
}

} // verus!
