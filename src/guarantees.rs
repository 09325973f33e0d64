//! What holds of the relay across events, proved over the state machines of
//! [`crate::handler`], [`crate::reader`] and [`crate::acceptor`].

use vstd::prelude::*;
use crate::acceptor::{AcceptOutcomeView, AcceptorStepView, acceptor_reaction};
use crate::handler::{
    HandlerView, JOIN_NOTICE, LEAVE_NOTICE, SERVER_SHUTDOWN_MESSAGE, deliveries, farewells, step,
};
use crate::message::{ActionView, ConnId, MessageView};
use crate::reader::{ReadOutcomeView, ReaderStepView, reader_reaction};
use crate::registry::{
    EntryView, addrs_unique, has_addr, index_of, lemma_index_of_unique, lemma_inserted_unique,
    lemma_removed_unique,
};
use crate::wire::{line_of, payload_of};

verus! {

/// Whether the action writes to the client at `addr`.
pub open spec fn writes_to(a: ActionView, addr: Seq<char>) -> bool {
    a matches ActionView::Send(to, _, _) && to == addr
}

proof fn lemma_deliveries(entries: Seq<EntryView>, sender: Seq<char>, line: Seq<char>)
    requires
        addrs_unique(entries),
    ensures
        forall|k: int|
            0 <= k < deliveries(entries, sender, line).len() ==> exists|j: int|
                0 <= j < entries.len() && entries[j].0 != sender
                    && #[trigger] deliveries(entries, sender, line)[k] == ActionView::Send(
                    entries[j].0,
                    entries[j].1,
                    line,
                ),
        forall|j: int|
            0 <= j < entries.len() && #[trigger] entries[j].0 != sender ==> exists|k: int|
                0 <= k < deliveries(entries, sender, line).len()
                    && deliveries(entries, sender, line)[k] == ActionView::Send(
                    entries[j].0,
                    entries[j].1,
                    line,
                ),
        forall|k1: int, k2: int, to: Seq<char>|
            0 <= k1 < deliveries(entries, sender, line).len() && 0 <= k2 < deliveries(
                entries,
                sender,
                line,
            ).len() && #[trigger] writes_to(deliveries(entries, sender, line)[k1], to)
                && #[trigger] writes_to(deliveries(entries, sender, line)[k2], to) ==> k1 == k2,
    decreases entries.len(),
{
    if entries.len() > 0 {
        let init = entries.drop_last();
        let e = entries.last();
        let n = entries.len() - 1;
        assert(addrs_unique(init));
        lemma_deliveries(init, sender, line);
        let rest = deliveries(init, sender, line);
        let d = deliveries(entries, sender, line);
        assert forall|k: int| 0 <= k < d.len() implies exists|j: int|
            0 <= j < entries.len() && entries[j].0 != sender && #[trigger] d[k] == ActionView::Send(
                entries[j].0,
                entries[j].1,
                line,
            ) by {
            if k < rest.len() {
                let j = choose|j: int|
                    0 <= j < init.len() && init[j].0 != sender && rest[k] == ActionView::Send(
                        init[j].0,
                        init[j].1,
                        line,
                    );
                assert(entries[j] == init[j]);
            } else {
                assert(d[k] == ActionView::Send(entries[n].0, entries[n].1, line));
            }
        }
        assert forall|j: int| 0 <= j < entries.len() && #[trigger] entries[j].0 != sender implies exists|k: int|
            0 <= k < d.len() && d[k] == ActionView::Send(entries[j].0, entries[j].1, line) by {
            if j < n {
                assert(init[j] == entries[j]);
                assert(init[j].0 != sender);
                let k = choose|k: int|
                    0 <= k < rest.len() && rest[k] == ActionView::Send(init[j].0, init[j].1, line);
                assert(d[k] == rest[k]);
            } else {
                assert(d[rest.len() as int] == ActionView::Send(e.0, e.1, line));
            }
        }
        assert forall|k1: int, k2: int, to: Seq<char>|
            0 <= k1 < d.len() && 0 <= k2 < d.len() && #[trigger] writes_to(d[k1], to)
                && #[trigger] writes_to(d[k2], to) implies k1 == k2 by {
            if e.0 != sender && (k1 == rest.len() || k2 == rest.len()) {
                let other = if k1 == rest.len() { k2 } else { k1 };
                if other < rest.len() {
                    let j = choose|j: int|
                        0 <= j < init.len() && init[j].0 != sender && rest[other] == ActionView::Send(
                            init[j].0,
                            init[j].1,
                            line,
                        );
                    assert(entries[j] == init[j]);
                    assert(entries[j].0 != entries[n].0);
                }
            } else {
                assert(d[k1] == rest[k1]);
                assert(d[k2] == rest[k2]);
            }
        }
    }
}

/// A message sent from `sender` is written, as `"<sender>: <text>"`, exactly
/// once to every other registered client and never back to the sender; the
/// registry stays as it is.
pub proof fn lemma_broadcast_reaches_each_other_client_once(
    s: HandlerView,
    sender: Seq<char>,
    text: Seq<char>,
)
    requires
        addrs_unique(s.entries),
        !s.stopped,
    ensures
        step(s, MessageView::Broadcast(sender, text)).0 == s,
        forall|j: int|
            0 <= j < s.entries.len() && #[trigger] s.entries[j].0 != sender ==> exists|k: int|
                0 <= k < step(s, MessageView::Broadcast(sender, text)).1.len()
                    && step(s, MessageView::Broadcast(sender, text)).1[k] == ActionView::Send(
                    s.entries[j].0,
                    s.entries[j].1,
                    line_of(sender, text),
                ),
        forall|k1: int, k2: int, to: Seq<char>|
            0 <= k1 < step(s, MessageView::Broadcast(sender, text)).1.len() && 0 <= k2 < step(
                s,
                MessageView::Broadcast(sender, text),
            ).1.len() && #[trigger] writes_to(step(s, MessageView::Broadcast(sender, text)).1[k1], to)
                && #[trigger] writes_to(step(s, MessageView::Broadcast(sender, text)).1[k2], to)
                ==> k1 == k2,
        forall|k: int|
            0 <= k < step(s, MessageView::Broadcast(sender, text)).1.len() ==> exists|j: int|
                0 <= j < s.entries.len() && s.entries[j].0 != sender
                    && #[trigger] step(s, MessageView::Broadcast(sender, text)).1[k]
                    == ActionView::Send(s.entries[j].0, s.entries[j].1, line_of(sender, text)),
        forall|k: int|
            0 <= k < step(s, MessageView::Broadcast(sender, text)).1.len() ==> !writes_to(
                #[trigger] step(s, MessageView::Broadcast(sender, text)).1[k],
                sender,
            ),
{
    lemma_deliveries(s.entries, sender, line_of(sender, text));
    let d = step(s, MessageView::Broadcast(sender, text)).1;
    assert forall|k: int| 0 <= k < d.len() implies !writes_to(#[trigger] d[k], sender) by {
        let j = choose|j: int|
            0 <= j < s.entries.len() && s.entries[j].0 != sender && d[k] == ActionView::Send(
                s.entries[j].0,
                s.entries[j].1,
                line_of(sender, text),
            );
    }
}

/// A connecting client is announced exactly once: its registration queues a
/// single join notice from its address and starts its reader, and leaves it
/// registered with its handle.
pub proof fn lemma_join_announced_once(s: HandlerView, addr: Seq<char>, conn: ConnId)
    requires
        addrs_unique(s.entries),
        !s.stopped,
    ensures
        step(s, MessageView::RegisterConnection(addr, conn)).1 == seq![
            ActionView::Enqueue(MessageView::Broadcast(addr, JOIN_NOTICE@)),
            ActionView::SpawnReader(addr, conn),
        ],
        ({
            let t = step(s, MessageView::RegisterConnection(addr, conn)).0.entries;
            exists|i: int| 0 <= i < t.len() && t[i] == (addr, conn)
        }),
{
    let t = step(s, MessageView::RegisterConnection(addr, conn)).0.entries;
    lemma_inserted_unique(s.entries, addr, conn);
    match index_of(s.entries, addr) {
        Some(i) => {
            assert(t[i] == (addr, conn));
        },
        None => {
            assert(t[s.entries.len() as int] == (addr, conn));
        },
    }
}

/// A client that connects is announced to each client already registered
/// under another address exactly once, as `"<addr>: "` and the join notice,
/// and never to itself: so it is when its registration is followed by the
/// join notice that registration queues.
pub proof fn lemma_join_reaches_each_present_client_once(s: HandlerView, addr: Seq<char>, conn: ConnId)
    requires
        addrs_unique(s.entries),
        !s.stopped,
    ensures
        ({
            let s1 = step(s, MessageView::RegisterConnection(addr, conn)).0;
            let acts = step(s1, MessageView::Broadcast(addr, JOIN_NOTICE@)).1;
            &&& forall|j: int|
                0 <= j < s.entries.len() && #[trigger] s.entries[j].0 != addr ==> exists|k: int|
                    0 <= k < acts.len() && acts[k] == ActionView::Send(
                        s.entries[j].0,
                        s.entries[j].1,
                        line_of(addr, JOIN_NOTICE@),
                    )
            &&& forall|k1: int, k2: int, to: Seq<char>|
                0 <= k1 < acts.len() && 0 <= k2 < acts.len() && #[trigger] writes_to(acts[k1], to)
                    && #[trigger] writes_to(acts[k2], to) ==> k1 == k2
            &&& forall|k: int| 0 <= k < acts.len() ==> !writes_to(#[trigger] acts[k], addr)
        }),
{
    let s1 = step(s, MessageView::RegisterConnection(addr, conn)).0;
    lemma_inserted_unique(s.entries, addr, conn);
    lemma_broadcast_reaches_each_other_client_once(s1, addr, JOIN_NOTICE@);
    assert forall|j: int| 0 <= j < s.entries.len() && #[trigger] s.entries[j].0 != addr implies s1.entries[j]
        == s.entries[j] by {
        match index_of(s.entries, addr) {
            Some(i) => {
                assert(s.entries[i].0 == addr);
            },
            None => {},
        }
    }
    assert forall|j: int| 0 <= j < s.entries.len() && #[trigger] s.entries[j].0 != addr implies 0 <= j
        < s1.entries.len() && s1.entries[j].0 != addr by {
        match index_of(s.entries, addr) {
            Some(i) => {
                assert(s.entries[i].0 == addr);
            },
            None => {},
        }
    }
}

/// A registered client that goes away is announced to each client still
/// registered exactly once, as `"<addr>: "` and the leave notice, and never
/// to itself: so it is when its disconnect is followed by the leave notice
/// that the disconnect queues.
pub proof fn lemma_leave_reaches_each_remaining_client_once(s: HandlerView, addr: Seq<char>)
    requires
        addrs_unique(s.entries),
        !s.stopped,
        has_addr(s.entries, addr),
    ensures
        ({
            let s1 = step(s, MessageView::TerminateConnection(addr)).0;
            let acts = step(s1, MessageView::Broadcast(addr, LEAVE_NOTICE@)).1;
            &&& forall|j: int|
                0 <= j < s.entries.len() && #[trigger] s.entries[j].0 != addr ==> exists|k: int|
                    0 <= k < acts.len() && acts[k] == ActionView::Send(
                        s.entries[j].0,
                        s.entries[j].1,
                        line_of(addr, LEAVE_NOTICE@),
                    )
            &&& forall|k1: int, k2: int, to: Seq<char>|
                0 <= k1 < acts.len() && 0 <= k2 < acts.len() && #[trigger] writes_to(acts[k1], to)
                    && #[trigger] writes_to(acts[k2], to) ==> k1 == k2
            &&& forall|k: int| 0 <= k < acts.len() ==> !writes_to(#[trigger] acts[k], addr)
        }),
{
    let s1 = step(s, MessageView::TerminateConnection(addr)).0;
    lemma_removed_unique(s.entries, addr);
    lemma_broadcast_reaches_each_other_client_once(s1, addr, LEAVE_NOTICE@);
    let i = index_of(s.entries, addr)->Some_0;
    assert(s.entries[i].0 == addr);
    assert forall|j: int| 0 <= j < s.entries.len() && #[trigger] s.entries[j].0 != addr implies exists|m: int|
        0 <= m < s1.entries.len() && s1.entries[m] == s.entries[j] by {
        if j < i {
            assert(s1.entries[j] == s.entries[j]);
        } else {
            assert(j != i);
            assert(s1.entries[j - 1] == s.entries[j]);
        }
    }
}

/// A client that goes away is announced exactly once: the first disconnect
/// of a registered client queues one leave notice and closes its handle, a
/// disconnect of an address not registered does nothing, so a repeated
/// disconnect never announces the client again.
pub proof fn lemma_leave_announced_once(s: HandlerView, addr: Seq<char>)
    requires
        addrs_unique(s.entries),
        !s.stopped,
    ensures
        ({
            let (s1, first) = step(s, MessageView::TerminateConnection(addr));
            let (s2, second) = step(s1, MessageView::TerminateConnection(addr));
            &&& !has_addr(s1.entries, addr)
            &&& (has_addr(s.entries, addr) ==> exists|i: int|
                0 <= i < s.entries.len() && s.entries[i].0 == addr && first == seq![
                    ActionView::Enqueue(MessageView::Broadcast(addr, LEAVE_NOTICE@)),
                    ActionView::Close(addr, s.entries[i].1),
                ])
            &&& (!has_addr(s.entries, addr) ==> first.len() == 0 && s1 == s)
            &&& second.len() == 0
            &&& s2 == s1
        }),
{
    lemma_removed_unique(s.entries, addr);
    if has_addr(s.entries, addr) {
        let i = choose|i: int| 0 <= i < s.entries.len() && s.entries[i].0 == addr;
        lemma_index_of_unique(s.entries, i);
    }
}

/// A buffer whose message is empty ends the connection: the reader queues a
/// disconnect and stops, and the dispatcher then drops the client, queues
/// only its leave notice and closes its handle, writing no content to anyone.
pub proof fn lemma_empty_message_disconnects(s: HandlerView, addr: Seq<char>, buf: Seq<u8>)
    requires
        addrs_unique(s.entries),
        !s.stopped,
        payload_of(buf).len() == 0,
    ensures
        reader_reaction(addr, ReadOutcomeView::Received(buf)) == ReaderStepView::Finish(
            MessageView::TerminateConnection(addr),
        ),
        !has_addr(step(s, MessageView::TerminateConnection(addr)).0.entries, addr),
        has_addr(s.entries, addr) ==> exists|i: int|
            0 <= i < s.entries.len() && s.entries[i].0 == addr
                && step(s, MessageView::TerminateConnection(addr)).1 == seq![
                ActionView::Enqueue(MessageView::Broadcast(addr, LEAVE_NOTICE@)),
                ActionView::Close(addr, s.entries[i].1),
            ],
        !has_addr(s.entries, addr) ==> step(s, MessageView::TerminateConnection(addr)).1.len() == 0,
{
    lemma_leave_announced_once(s, addr);
}

proof fn lemma_farewells(entries: Seq<EntryView>)
    ensures
        farewells(entries).len() == 2 * entries.len(),
        forall|j: int|
            0 <= j < entries.len() ==> #[trigger] farewells(entries)[2 * j] == ActionView::Send(
                entries[j].0,
                entries[j].1,
                SERVER_SHUTDOWN_MESSAGE@,
            ) && farewells(entries)[2 * j + 1] == ActionView::Close(entries[j].0, entries[j].1),
    decreases entries.len(),
{
    if entries.len() > 0 {
        let init = entries.drop_last();
        lemma_farewells(init);
        assert forall|j: int| 0 <= j < entries.len() implies #[trigger] farewells(entries)[2 * j]
            == ActionView::Send(entries[j].0, entries[j].1, SERVER_SHUTDOWN_MESSAGE@)
            && farewells(entries)[2 * j + 1] == ActionView::Close(entries[j].0, entries[j].1) by {
            if j < init.len() {
                assert(init[j] == entries[j]);
                assert(farewells(init)[2 * j] == ActionView::Send(init[j].0, init[j].1, SERVER_SHUTDOWN_MESSAGE@));
            }
        }
    }
}

/// On shutdown every registered client, in registry order, is sent the
/// shutdown notice and then has its handle closed; the dispatcher ends and
/// handles nothing after. The acceptor, finding the flag set when no
/// connection waits, queues the shutdown and ends.
pub proof fn lemma_shutdown_notifies_then_closes_all(s: HandlerView)
    requires
        !s.stopped,
    ensures
        step(s, MessageView::Exit).0.stopped,
        step(s, MessageView::Exit).0.entries == s.entries,
        step(s, MessageView::Exit).1.len() == 2 * s.entries.len(),
        forall|j: int|
            0 <= j < s.entries.len() ==> #[trigger] step(s, MessageView::Exit).1[2 * j]
                == ActionView::Send(s.entries[j].0, s.entries[j].1, SERVER_SHUTDOWN_MESSAGE@)
                && step(s, MessageView::Exit).1[2 * j + 1] == ActionView::Close(
                s.entries[j].0,
                s.entries[j].1,
            ),
        forall|m: MessageView|
            #[trigger] step(step(s, MessageView::Exit).0, m) == (
                step(s, MessageView::Exit).0,
                Seq::<ActionView>::empty(),
            ),
        acceptor_reaction(AcceptOutcomeView::WouldBlock, true) == AcceptorStepView::Finish(
            MessageView::Exit,
        ),
{
    lemma_farewells(s.entries);
}

/// Whatever event the dispatcher handles, the registry keeps at most one
/// entry per address.
pub proof fn lemma_step_keeps_addresses_unique(s: HandlerView, m: MessageView)
    requires
        addrs_unique(s.entries),
    ensures
        addrs_unique(step(s, m).0.entries),
{
    if !s.stopped {
        match m {
            MessageView::RegisterConnection(addr, conn) => {
                lemma_inserted_unique(s.entries, addr, conn);
            },
            MessageView::TerminateConnection(addr) => {
                lemma_removed_unique(s.entries, addr);
            },
            _ => {},
        }
    }
}

} // verus!
