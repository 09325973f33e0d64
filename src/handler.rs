//! The dispatcher: the single consumer of the event queue and the only writer
//! of the client registry. Each event is handled to completion, and the
//! effects it calls for come back as a list of [`Action`]s.

use vstd::prelude::*;
use vstd::string::StringExecFns;
use crate::message::{ActionView, Action, ChannelMessage, MessageView, actions_view};
use crate::registry::{ClientRegistry, EntryView, addrs_unique, has_addr, index_of, inserted, removed};
use crate::wire::{format_line, line_of};

verus! {

/// Announced, from the client's own address, when a client joins.
pub const JOIN_NOTICE: &'static str = "HAS JOINED THE ROOM\n";

/// Announced, from the client's own address, when a client leaves.
pub const LEAVE_NOTICE: &'static str = "HAS LEFT THE ROOM\n";

/// Written to every client just before the server closes its connection.
pub const SERVER_SHUTDOWN_MESSAGE: &'static str = "Server shutting down...";

/// The state of a dispatcher: the registry, and whether it has shut down.
pub struct HandlerView {
    pub entries: Seq<EntryView>,
    pub stopped: bool,
}

/// One write of `line` to each entry whose address is not `sender`, in
/// registry order.
pub open spec fn deliveries(entries: Seq<EntryView>, sender: Seq<char>, line: Seq<char>) -> Seq<ActionView>
    decreases entries.len(),
{
    if entries.len() == 0 {
        Seq::empty()
    } else {
        let rest = deliveries(entries.drop_last(), sender, line);
        let e = entries.last();
        if e.0 == sender {
            rest
        } else {
            rest.push(ActionView::Send(e.0, e.1, line))
        }
    }
}

/// For each entry in registry order: the shutdown notice, then closing its handle.
pub open spec fn farewells(entries: Seq<EntryView>) -> Seq<ActionView>
    decreases entries.len(),
{
    if entries.len() == 0 {
        Seq::empty()
    } else {
        let e = entries.last();
        farewells(entries.drop_last())
            .push(ActionView::Send(e.0, e.1, SERVER_SHUTDOWN_MESSAGE@))
            .push(ActionView::Close(e.0, e.1))
    }
}

/// How the dispatcher in state `s` handles the event `m`: its next state and
/// the effects it calls for. Once shut down it handles nothing.
pub open spec fn step(s: HandlerView, m: MessageView) -> (HandlerView, Seq<ActionView>) {
    if s.stopped {
        (s, Seq::empty())
    } else {
        match m {
            MessageView::RegisterConnection(addr, conn) => (
                HandlerView { entries: inserted(s.entries, addr, conn), stopped: false },
                seq![
                    ActionView::Enqueue(MessageView::Broadcast(addr, JOIN_NOTICE@)),
                    ActionView::SpawnReader(addr, conn),
                ],
            ),
            MessageView::Broadcast(addr, text) => (s, deliveries(s.entries, addr, line_of(addr, text))),
            MessageView::TerminateConnection(addr) => match index_of(s.entries, addr) {
                Some(i) => (
                    HandlerView { entries: removed(s.entries, addr), stopped: false },
                    seq![
                        ActionView::Enqueue(MessageView::Broadcast(addr, LEAVE_NOTICE@)),
                        ActionView::Close(addr, s.entries[i].1),
                    ],
                ),
                None => (s, Seq::empty()),
            },
            MessageView::Exit => (
                HandlerView { entries: s.entries, stopped: true },
                farewells(s.entries),
            ),
        }
    }
}

/// Something that reacts to the events of the queue, one at a time.
pub trait ChatEventHandler {
    /// Handles one event and returns the effects it calls for, in order.
    fn handle_message(&mut self, message: ChannelMessage) -> Vec<Action>;

    /// Whether the handler has shut down and takes no more events.
    fn is_finished(&self) -> bool;
}

/// The dispatcher of the relay.
pub struct BasicChatEventHandler {
    clients: ClientRegistry,
    stopped: bool,
}

impl View for BasicChatEventHandler {
    type V = HandlerView;

    closed spec fn view(&self) -> HandlerView {
        HandlerView { entries: self.clients@, stopped: self.stopped }
    }
}

impl BasicChatEventHandler {
    /// The dispatcher's invariant: its registry holds one entry per address.
    #[verifier::type_invariant]
    spec fn wf(&self) -> bool {
        self.clients.wf()
    }

    /// A running dispatcher with no clients.
    pub fn new() -> (h: Self)
        ensures
            h@.entries == Seq::<EntryView>::empty(),
            !h@.stopped,
    {
        BasicChatEventHandler { clients: ClientRegistry::new(), stopped: false }
    }

    /// Whether an entry is registered for the address.
    pub fn is_registered(&self, addr: &String) -> (r: bool)
        ensures
            r == has_addr(self@.entries, addr@),
    {
        proof {
            use_type_invariant(self);
        }
        self.clients.find(addr).is_some()
    }

    /// The number of registered clients.
    pub fn client_count(&self) -> (n: usize)
        ensures
            n == self@.entries.len(),
    {
        self.clients.len()
    }

    /// Whether the dispatcher has shut down.
    pub fn finished(&self) -> (r: bool)
        ensures
            r == self@.stopped,
    {
        self.stopped
    }

    /// The writes of `line` to every client but `sender`.
    fn fan_out(&self, sender: &String, line: &String) -> (actions: Vec<Action>)
        ensures
            actions_view(actions@) == deliveries(self@.entries, sender@, line@),
    {
        let mut actions: Vec<Action> = Vec::new();
        let n = self.clients.len();
        let mut i: usize = 0;
        while i < n
            invariant
                n == self@.entries.len(),
                0 <= i <= n,
                actions_view(actions@) == deliveries(self@.entries.take(i as int), sender@, line@),
            decreases n - i,
        {
            let ghost before = actions@;
            let addr = self.clients.addr_at(i);
            let conn = self.clients.conn_at(i);
            assert(self@.entries.take(i + 1).drop_last() =~= self@.entries.take(i as int));
            if *addr != *sender {
                actions.push(Action::Send(addr.clone(), conn, line.clone()));
                assert(actions_view(actions@) =~= actions_view(before).push(
                    ActionView::Send(addr@, conn, line@),
                ));
            }
            i = i + 1;
        }
        assert(self@.entries.take(n as int) =~= self@.entries);
        actions
    }

    /// The shutdown notice and the closing of every registered client.
    fn farewell_all(&self) -> (actions: Vec<Action>)
        ensures
            actions_view(actions@) == farewells(self@.entries),
    {
        let mut actions: Vec<Action> = Vec::new();
        let n = self.clients.len();
        let mut i: usize = 0;
        while i < n
            invariant
                n == self@.entries.len(),
                0 <= i <= n,
                actions_view(actions@) == farewells(self@.entries.take(i as int)),
            decreases n - i,
        {
            let ghost before = actions@;
            let addr = self.clients.addr_at(i);
            let conn = self.clients.conn_at(i);
            assert(self@.entries.take(i + 1).drop_last() =~= self@.entries.take(i as int));
            actions.push(Action::Send(addr.clone(), conn, String::from_str(SERVER_SHUTDOWN_MESSAGE)));
            actions.push(Action::Close(addr.clone(), conn));
            assert(actions_view(actions@) =~= actions_view(before).push(
                ActionView::Send(addr@, conn, SERVER_SHUTDOWN_MESSAGE@),
            ).push(ActionView::Close(addr@, conn)));
            i = i + 1;
        }
        assert(self@.entries.take(n as int) =~= self@.entries);
        actions
    }

    /// Handles one event: the dispatcher moves to the state that [`step`]
    /// gives and returns the effects it lists, in order.
    pub fn handle(&mut self, message: ChannelMessage) -> (actions: Vec<Action>)
        ensures
            addrs_unique(final(self)@.entries),
            (final(self)@, actions_view(actions@)) == step(old(self)@, message@),
    {
        proof {
            use_type_invariant(&*self);
        }
        let mut actions: Vec<Action> = Vec::new();
        if self.stopped {
            assert(actions_view(actions@) =~= Seq::<ActionView>::empty());
            return actions;
        }
        match message {
            ChannelMessage::RegisterConnection(addr, conn) => {
                let joined = ChannelMessage::Broadcast(addr.clone(), String::from_str(JOIN_NOTICE));
                actions.push(Action::Enqueue(joined));
                actions.push(Action::SpawnReader(addr.clone(), conn));
                let mut clients = ClientRegistry::new();
                std::mem::swap(&mut clients, &mut self.clients);
                clients.insert(addr, conn);
                self.clients = clients;
                assert(actions_view(actions@) =~= seq![
                    ActionView::Enqueue(MessageView::Broadcast(addr@, JOIN_NOTICE@)),
                    ActionView::SpawnReader(addr@, conn),
                ]);
            },
            ChannelMessage::Broadcast(addr, text) => {
                let line = format_line(&addr, &text);
                actions = self.fan_out(&addr, &line);
            },
            ChannelMessage::TerminateConnection(addr) => {
                let mut clients = ClientRegistry::new();
                std::mem::swap(&mut clients, &mut self.clients);
                let found = clients.remove(&addr);
                self.clients = clients;
                match found {
                    Some(conn) => {
                        let left = ChannelMessage::Broadcast(addr.clone(), String::from_str(LEAVE_NOTICE));
                        actions.push(Action::Enqueue(left));
                        actions.push(Action::Close(addr.clone(), conn));
                        assert(actions_view(actions@) =~= seq![
                            ActionView::Enqueue(MessageView::Broadcast(addr@, LEAVE_NOTICE@)),
                            ActionView::Close(addr@, conn),
                        ]);
                    },
                    None => {
                        assert(actions_view(actions@) =~= Seq::<ActionView>::empty());
                    },
                }
            },
            ChannelMessage::Exit => {
                actions = self.farewell_all();
                self.stopped = true;
            },
        }
        actions
    }
}

impl ChatEventHandler for BasicChatEventHandler {
    fn handle_message(&mut self, message: ChannelMessage) -> Vec<Action> {
        self.handle(message)
    }

    fn is_finished(&self) -> bool {
        self.stopped
    }
}

} // verus!
