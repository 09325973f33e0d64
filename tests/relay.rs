use chat_server::acceptor::{acceptor_step, AcceptOutcome, AcceptorStep};
use chat_server::handler::{
    BasicChatEventHandler, ChatEventHandler, JOIN_NOTICE, LEAVE_NOTICE, SERVER_SHUTDOWN_MESSAGE,
};
use chat_server::message::{Action, ChannelMessage};
use chat_server::reader::{reader_step, ReadOutcome, ReaderStep};
use chat_server::registry::ClientRegistry;
use chat_server::wire::{decode_payload, decode_text, format_line, DEFAULT_BUFFER_SIZE};

fn s(text: &str) -> String {
    text.to_string()
}

fn buffer_with(text: &str) -> Vec<u8> {
    let mut buf = vec![0u8; DEFAULT_BUFFER_SIZE];
    buf[..text.len()].copy_from_slice(text.as_bytes());
    buf
}

fn register(h: &mut BasicChatEventHandler, addr: &str, conn: u64) -> Vec<Action> {
    h.handle(ChannelMessage::RegisterConnection(s(addr), conn))
}

fn broadcast(h: &mut BasicChatEventHandler, addr: &str, text: &str) -> Vec<Action> {
    h.handle(ChannelMessage::Broadcast(s(addr), s(text)))
}

#[test]
fn payload_stops_at_first_zero() {
    assert_eq!(decode_payload(&[104, 105, 0, 33, 0]), vec![104, 105]);
    assert_eq!(decode_payload(&[104, 105]), vec![104, 105]);
    assert_eq!(decode_payload(&[0, 104, 105]), Vec::<u8>::new());
    assert_eq!(decode_payload(&[]), Vec::<u8>::new());
}

#[test]
fn text_decoding_checks_utf8() {
    assert_eq!(decode_text(vec![104, 105]), Some(s("hi")));
    assert_eq!(decode_text("héllo".as_bytes().to_vec()), Some(s("héllo")));
    assert_eq!(decode_text(vec![0xff, 0x41]), None);
    assert_eq!(decode_text(vec![0xc3]), None);
}

#[test]
fn line_is_address_colon_text() {
    assert_eq!(format_line(&s("10.0.0.1:5000"), &s("hi\n")), s("10.0.0.1:5000: hi\n"));
    assert_eq!(format_line(&s("a"), &s("")), s("a: "));
}

#[test]
fn reader_forwards_text_and_ends_on_empty_or_failure() {
    let a = s("A");
    assert_eq!(
        reader_step(&a, ReadOutcome::Received(buffer_with("hi"))),
        ReaderStep::Forward(ChannelMessage::Broadcast(s("A"), s("hi")))
    );
    assert_eq!(
        reader_step(&a, ReadOutcome::Received(vec![0u8; DEFAULT_BUFFER_SIZE])),
        ReaderStep::Finish(ChannelMessage::TerminateConnection(s("A")))
    );
    assert_eq!(
        reader_step(&a, ReadOutcome::Failed),
        ReaderStep::Finish(ChannelMessage::TerminateConnection(s("A")))
    );
    assert_eq!(reader_step(&a, ReadOutcome::WouldBlock), ReaderStep::Retry);
}

#[test]
fn reader_rejects_payload_that_is_not_text() {
    let mut buf = vec![0u8; 8];
    buf[0] = 0xff;
    buf[1] = 0xfe;
    assert_eq!(reader_step(&s("A"), ReadOutcome::Received(buf)), ReaderStep::InvalidText);
}

#[test]
fn acceptor_decisions() {
    assert_eq!(
        acceptor_step(AcceptOutcome::Accepted(s("A"), 3), false),
        AcceptorStep::Enqueue(ChannelMessage::RegisterConnection(s("A"), 3))
    );
    assert_eq!(
        acceptor_step(AcceptOutcome::Accepted(s("A"), 3), true),
        AcceptorStep::Enqueue(ChannelMessage::RegisterConnection(s("A"), 3))
    );
    assert_eq!(acceptor_step(AcceptOutcome::WouldBlock, false), AcceptorStep::Poll);
    assert_eq!(
        acceptor_step(AcceptOutcome::WouldBlock, true),
        AcceptorStep::Finish(ChannelMessage::Exit)
    );
    assert_eq!(acceptor_step(AcceptOutcome::Failed, false), AcceptorStep::Abort);
}

#[test]
fn registry_keeps_one_entry_per_address() {
    let mut r = ClientRegistry::new();
    r.insert(s("A"), 1);
    r.insert(s("B"), 2);
    r.insert(s("A"), 3);
    assert_eq!(r.len(), 2);
    assert_eq!(r.find(&s("A")), Some(0));
    assert_eq!(r.conn_at(0), 3);
    assert_eq!(r.addr_at(1), &s("B"));
    assert_eq!(r.remove(&s("C")), None);
    assert_eq!(r.remove(&s("A")), Some(3));
    assert_eq!(r.remove(&s("A")), None);
    assert_eq!(r.len(), 1);
    assert_eq!(r.find(&s("B")), Some(0));
}

#[test]
fn join_is_queued_and_reader_started() {
    let mut h = BasicChatEventHandler::new();
    assert_eq!(
        register(&mut h, "A", 1),
        vec![
            Action::Enqueue(ChannelMessage::Broadcast(s("A"), s(JOIN_NOTICE))),
            Action::SpawnReader(s("A"), 1),
        ]
    );
    assert!(h.is_registered(&s("A")));
    assert_eq!(h.client_count(), 1);
}

#[test]
fn broadcast_reaches_every_other_client_once() {
    let mut h = BasicChatEventHandler::new();
    register(&mut h, "A", 1);
    register(&mut h, "B", 2);
    register(&mut h, "C", 3);
    assert_eq!(
        broadcast(&mut h, "B", "hello"),
        vec![
            Action::Send(s("A"), 1, s("B: hello")),
            Action::Send(s("C"), 3, s("B: hello")),
        ]
    );
    assert_eq!(h.client_count(), 3);
}

#[test]
fn broadcast_from_unregistered_address_reaches_all() {
    let mut h = BasicChatEventHandler::new();
    register(&mut h, "A", 1);
    assert_eq!(broadcast(&mut h, "Z", "x"), vec![Action::Send(s("A"), 1, s("Z: x"))]);
    let mut empty = BasicChatEventHandler::new();
    assert_eq!(broadcast(&mut empty, "Z", "x"), Vec::<Action>::new());
}

#[test]
fn disconnect_announces_once() {
    let mut h = BasicChatEventHandler::new();
    register(&mut h, "A", 1);
    register(&mut h, "B", 2);
    assert_eq!(
        h.handle(ChannelMessage::TerminateConnection(s("A"))),
        vec![
            Action::Enqueue(ChannelMessage::Broadcast(s("A"), s(LEAVE_NOTICE))),
            Action::Close(s("A"), 1),
        ]
    );
    assert!(!h.is_registered(&s("A")));
    assert_eq!(h.handle(ChannelMessage::TerminateConnection(s("A"))), Vec::<Action>::new());
    assert_eq!(h.handle(ChannelMessage::TerminateConnection(s("Q"))), Vec::<Action>::new());
    assert_eq!(h.client_count(), 1);
}

#[test]
fn empty_payload_removes_client_without_content() {
    let mut h = BasicChatEventHandler::new();
    register(&mut h, "A", 1);
    register(&mut h, "B", 2);
    let step = reader_step(&s("A"), ReadOutcome::Received(buffer_with("")));
    let event = match step {
        ReaderStep::Finish(m) => m,
        other => panic!("unexpected {:?}", other),
    };
    let actions = h.handle(event);
    assert_eq!(
        actions,
        vec![
            Action::Enqueue(ChannelMessage::Broadcast(s("A"), s(LEAVE_NOTICE))),
            Action::Close(s("A"), 1),
        ]
    );
    assert_eq!(
        broadcast(&mut h, "A", LEAVE_NOTICE),
        vec![Action::Send(s("B"), 2, s("A: HAS LEFT THE ROOM\n"))]
    );
}

#[test]
fn reconnect_from_same_address_replaces_handle() {
    let mut h = BasicChatEventHandler::new();
    register(&mut h, "A", 1);
    register(&mut h, "A", 2);
    assert_eq!(h.client_count(), 1);
    assert_eq!(
        h.handle(ChannelMessage::TerminateConnection(s("A"))),
        vec![
            Action::Enqueue(ChannelMessage::Broadcast(s("A"), s(LEAVE_NOTICE))),
            Action::Close(s("A"), 2),
        ]
    );
}

#[test]
fn shutdown_notifies_then_closes_everyone_and_stops() {
    let mut h = BasicChatEventHandler::new();
    register(&mut h, "A", 1);
    register(&mut h, "B", 2);
    assert!(!h.finished());
    assert_eq!(
        h.handle(ChannelMessage::Exit),
        vec![
            Action::Send(s("A"), 1, s(SERVER_SHUTDOWN_MESSAGE)),
            Action::Close(s("A"), 1),
            Action::Send(s("B"), 2, s(SERVER_SHUTDOWN_MESSAGE)),
            Action::Close(s("B"), 2),
        ]
    );
    assert!(h.finished());
    assert!(h.is_finished());
    assert_eq!(broadcast(&mut h, "A", "late"), Vec::<Action>::new());
    assert_eq!(register(&mut h, "C", 3), Vec::<Action>::new());
    assert_eq!(h.client_count(), 2);
}

#[test]
fn shutdown_with_no_clients() {
    let mut h = BasicChatEventHandler::new();
    assert_eq!(h.handle(ChannelMessage::Exit), Vec::<Action>::new());
    assert!(h.finished());
}

#[test]
fn trait_object_dispatches_like_the_handler() {
    let mut h: Box<dyn ChatEventHandler> = Box::new(BasicChatEventHandler::new());
    h.handle_message(ChannelMessage::RegisterConnection(s("A"), 1));
    h.handle_message(ChannelMessage::RegisterConnection(s("B"), 2));
    assert_eq!(
        h.handle_message(ChannelMessage::Broadcast(s("A"), s("yo"))),
        vec![Action::Send(s("B"), 2, s("A: yo"))]
    );
    assert!(!h.is_finished());
}

#[test]
fn two_clients_chat_then_server_shuts_down() {
    let mut h = BasicChatEventHandler::new();
    // A connects: its own join notice reaches nobody.
    let joined_a = register(&mut h, "A", 1);
    assert_eq!(joined_a[0], Action::Enqueue(ChannelMessage::Broadcast(s("A"), s(JOIN_NOTICE))));
    assert_eq!(broadcast(&mut h, "A", JOIN_NOTICE), Vec::<Action>::new());
    // B connects: A is told, B receives nothing.
    let joined_b = register(&mut h, "B", 2);
    assert_eq!(joined_b[0], Action::Enqueue(ChannelMessage::Broadcast(s("B"), s(JOIN_NOTICE))));
    assert_eq!(
        broadcast(&mut h, "B", JOIN_NOTICE),
        vec![Action::Send(s("A"), 1, s("B: HAS JOINED THE ROOM\n"))]
    );
    // B sends "hi".
    let sent = reader_step(&s("B"), ReadOutcome::Received(buffer_with("hi")));
    let event = match sent {
        ReaderStep::Forward(m) => m,
        other => panic!("unexpected {:?}", other),
    };
    assert_eq!(h.handle(event), vec![Action::Send(s("A"), 1, s("B: hi"))]);
    // A closes its connection: the read fails.
    let gone = reader_step(&s("A"), ReadOutcome::Failed);
    let event = match gone {
        ReaderStep::Finish(m) => m,
        other => panic!("unexpected {:?}", other),
    };
    let left = h.handle(event);
    assert_eq!(left[0], Action::Enqueue(ChannelMessage::Broadcast(s("A"), s(LEAVE_NOTICE))));
    assert_eq!(
        broadcast(&mut h, "A", LEAVE_NOTICE),
        vec![Action::Send(s("B"), 2, s("A: HAS LEFT THE ROOM\n"))]
    );
    // The shutdown trigger fires.
    let stop = acceptor_step(AcceptOutcome::WouldBlock, true);
    let event = match stop {
        AcceptorStep::Finish(m) => m,
        other => panic!("unexpected {:?}", other),
    };
    assert_eq!(
        h.handle(event),
        vec![
            Action::Send(s("B"), 2, s("Server shutting down...")),
            Action::Close(s("B"), 2),
        ]
    );
    assert!(h.finished());
}
