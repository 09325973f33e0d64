//! The decisions of a per-connection reader: what each read of its
//! connection leads to.

use vstd::prelude::*;
use crate::message::{ChannelMessage, MessageView};
use crate::wire::{decode_payload, decode_text, payload_of, text_of};

verus! {

/// How one read of a connection went.
#[derive(Debug, PartialEq, Eq)]
pub enum ReadOutcome {
    /// The read filled this buffer (zeroed beforehand).
    Received(Vec<u8>),
    /// Nothing was ready on a non-blocking handle.
    WouldBlock,
    /// The read failed in any other way.
    Failed,
}

/// What a [`ReadOutcome`] is, with the buffer as a byte sequence.
pub enum ReadOutcomeView {
    Received(Seq<u8>),
    WouldBlock,
    Failed,
}

impl View for ReadOutcome {
    type V = ReadOutcomeView;

    open spec fn view(&self) -> ReadOutcomeView {
        match self {
            ReadOutcome::Received(b) => ReadOutcomeView::Received(b@),
            ReadOutcome::WouldBlock => ReadOutcomeView::WouldBlock,
            ReadOutcome::Failed => ReadOutcomeView::Failed,
        }
    }
}

/// What the reader does next.
#[derive(Debug, PartialEq, Eq)]
pub enum ReaderStep {
    /// Read again.
    Retry,
    /// Put the event on the queue, then read again.
    Forward(ChannelMessage),
    /// Put the event on the queue, then end the task.
    Finish(ChannelMessage),
    /// The message is not text: the task cannot go on and crashes.
    InvalidText,
}

/// What a [`ReaderStep`] is, with its event as a [`MessageView`].
pub enum ReaderStepView {
    Retry,
    Forward(MessageView),
    Finish(MessageView),
    InvalidText,
}

impl View for ReaderStep {
    type V = ReaderStepView;

    open spec fn view(&self) -> ReaderStepView {
        match self {
            ReaderStep::Retry => ReaderStepView::Retry,
            ReaderStep::Forward(m) => ReaderStepView::Forward(m@),
            ReaderStep::Finish(m) => ReaderStepView::Finish(m@),
            ReaderStep::InvalidText => ReaderStepView::InvalidText,
        }
    }
}

/// What the reader of the client at `addr` does after a read. A buffer whose
/// message is empty, and a failed read, end the connection; a non-empty
/// message is passed on as text.
pub open spec fn reader_reaction(addr: Seq<char>, outcome: ReadOutcomeView) -> ReaderStepView {
    match outcome {
        ReadOutcomeView::Received(b) => {
            let msg = payload_of(b);
            if msg.len() == 0 {
                ReaderStepView::Finish(MessageView::TerminateConnection(addr))
            } else {
                match text_of(msg) {
                    Some(text) => ReaderStepView::Forward(MessageView::Broadcast(addr, text)),
                    None => ReaderStepView::InvalidText,
                }
            }
        },
        ReadOutcomeView::WouldBlock => ReaderStepView::Retry,
        ReadOutcomeView::Failed => ReaderStepView::Finish(MessageView::TerminateConnection(addr)),
    }
}

/// Decides what the reader of the client at `addr` does after a read.
pub fn reader_step(addr: &String, outcome: ReadOutcome) -> (r: ReaderStep)
    ensures
        r@ == reader_reaction(addr@, outcome@),
{
    match outcome {
        ReadOutcome::Received(buffer) => {
            let msg = decode_payload(buffer.as_slice());
            if msg.len() == 0 {
                ReaderStep::Finish(ChannelMessage::TerminateConnection(addr.clone()))
            } else {
                match decode_text(msg) {
                    Some(text) => ReaderStep::Forward(ChannelMessage::Broadcast(addr.clone(), text)),
                    None => ReaderStep::InvalidText,
                }
            }
        },
        ReadOutcome::WouldBlock => ReaderStep::Retry,
        ReadOutcome::Failed => ReaderStep::Finish(ChannelMessage::TerminateConnection(addr.clone())),
    }
}

} // verus!
