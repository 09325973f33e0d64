//! The decisions of the connection acceptor, which polls a non-blocking
//! listener and watches the shutdown flag between polls.

use vstd::prelude::*;
use crate::message::{ChannelMessage, ConnId, MessageView};

verus! {

/// How one poll of the listener went.
#[derive(Debug, PartialEq, Eq)]
pub enum AcceptOutcome {
    /// A client connected from the address; the handle is named `ConnId`.
    Accepted(String, ConnId),
    /// No connection was waiting.
    WouldBlock,
    /// The listener failed.
    Failed,
}

/// What an [`AcceptOutcome`] is, with the address as characters.
pub enum AcceptOutcomeView {
    Accepted(Seq<char>, ConnId),
    WouldBlock,
    Failed,
}

impl View for AcceptOutcome {
    type V = AcceptOutcomeView;

    open spec fn view(&self) -> AcceptOutcomeView {
        match self {
            AcceptOutcome::Accepted(a, c) => AcceptOutcomeView::Accepted(a@, *c),
            AcceptOutcome::WouldBlock => AcceptOutcomeView::WouldBlock,
            AcceptOutcome::Failed => AcceptOutcomeView::Failed,
        }
    }
}

/// What the acceptor does next.
#[derive(Debug, PartialEq, Eq)]
pub enum AcceptorStep {
    /// Put the event on the queue, then poll again.
    Enqueue(ChannelMessage),
    /// Poll again.
    Poll,
    /// Put the event on the queue, wait for every reader to end, and return.
    Finish(ChannelMessage),
    /// The listener is broken: the process stops.
    Abort,
}

/// What an [`AcceptorStep`] is, with its event as a [`MessageView`].
pub enum AcceptorStepView {
    Enqueue(MessageView),
    Poll,
    Finish(MessageView),
    Abort,
}

impl View for AcceptorStep {
    type V = AcceptorStepView;

    open spec fn view(&self) -> AcceptorStepView {
        match self {
            AcceptorStep::Enqueue(m) => AcceptorStepView::Enqueue(m@),
            AcceptorStep::Poll => AcceptorStepView::Poll,
            AcceptorStep::Finish(m) => AcceptorStepView::Finish(m@),
            AcceptorStep::Abort => AcceptorStepView::Abort,
        }
    }
}

/// What the acceptor does after a poll, given whether shutdown was requested.
/// The flag is looked at only when no connection was waiting.
pub open spec fn acceptor_reaction(outcome: AcceptOutcomeView, shutdown_requested: bool) -> AcceptorStepView {
    match outcome {
        AcceptOutcomeView::Accepted(addr, conn) => AcceptorStepView::Enqueue(
            MessageView::RegisterConnection(addr, conn),
        ),
        AcceptOutcomeView::WouldBlock => if shutdown_requested {
            AcceptorStepView::Finish(MessageView::Exit)
        } else {
            AcceptorStepView::Poll
        },
        AcceptOutcomeView::Failed => AcceptorStepView::Abort,
    }
}

/// Decides what the acceptor does after a poll.
pub fn acceptor_step(outcome: AcceptOutcome, shutdown_requested: bool) -> (r: AcceptorStep)
    ensures
        r@ == acceptor_reaction(outcome@, shutdown_requested),
{
    match outcome {
        AcceptOutcome::Accepted(addr, conn) => AcceptorStep::Enqueue(
            ChannelMessage::RegisterConnection(addr, conn),
        ),
        AcceptOutcome::WouldBlock => {
            if shutdown_requested {
                AcceptorStep::Finish(ChannelMessage::Exit)
            } else {
                AcceptorStep::Poll
            }
        },
        AcceptOutcome::Failed => AcceptorStep::Abort,
    }
}

} // verus!
