//! The events that flow through the queue to the dispatcher, and the effects
//! the dispatcher asks of the program that drives it.

use vstd::prelude::*;

verus! {

/// Stands for an open connection handle: the driver keeps the handles and
/// names each one by such a number.
pub type ConnId = u64;

/// An event on the queue, consumed once by the dispatcher.
#[derive(Debug, PartialEq, Eq)]
pub enum ChannelMessage {
    /// A client at `addr` connected; `conn` names its handle.
    RegisterConnection(String, ConnId),
    /// Text from the client at the address, to be passed on.
    Broadcast(String, String),
    /// The client at the address went away.
    TerminateConnection(String),
    /// The server shuts down.
    Exit,
}

/// What a [`ChannelMessage`] is, with its strings as character sequences.
pub enum MessageView {
    RegisterConnection(Seq<char>, ConnId),
    Broadcast(Seq<char>, Seq<char>),
    TerminateConnection(Seq<char>),
    Exit,
}

impl View for ChannelMessage {
    type V = MessageView;

    open spec fn view(&self) -> MessageView {
        match self {
            ChannelMessage::RegisterConnection(a, c) => MessageView::RegisterConnection(a@, *c),
            ChannelMessage::Broadcast(a, t) => MessageView::Broadcast(a@, t@),
            ChannelMessage::TerminateConnection(a) => MessageView::TerminateConnection(a@),
            ChannelMessage::Exit => MessageView::Exit,
        }
    }
}

/// An effect the dispatcher asks for, to be carried out in order.
#[derive(Debug, PartialEq, Eq)]
pub enum Action {
    /// Put the message at the back of the event queue.
    Enqueue(ChannelMessage),
    /// Start a reader over a copy of the handle of the client at the address.
    SpawnReader(String, ConnId),
    /// Write the line to the client at the address; a failure is ignored.
    Send(String, ConnId, String),
    /// Shut the handle of the client at the address down, both directions.
    Close(String, ConnId),
}

/// What an [`Action`] is, with its strings as character sequences.
pub enum ActionView {
    Enqueue(MessageView),
    SpawnReader(Seq<char>, ConnId),
    Send(Seq<char>, ConnId, Seq<char>),
    Close(Seq<char>, ConnId),
}

impl View for Action {
    type V = ActionView;

    open spec fn view(&self) -> ActionView {
        match self {
            Action::Enqueue(m) => ActionView::Enqueue(m@),
            Action::SpawnReader(a, c) => ActionView::SpawnReader(a@, *c),
            Action::Send(a, c, l) => ActionView::Send(a@, *c, l@),
            Action::Close(a, c) => ActionView::Close(a@, *c),
        }
    }
}

/// The views of a run of actions.
pub open spec fn actions_view(actions: Seq<Action>) -> Seq<ActionView> {
    actions.map_values(|a: Action| a@)
}

} // verus!
