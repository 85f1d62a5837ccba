use kameloso::client::{Client, LoadFile, LoadFileOptions};
use kameloso::message::Outcome;
use kameloso::reactor::{Command, PipeClosed, Reactor, ReactorEvent, StepResult};
use tokio::sync::mpsc;
use tokio::sync::oneshot;

fn frame_of(r: StepResult) -> Vec<u8> {
    match r {
        StepResult::Write(frame) => frame,
        _ => panic!("expected a frame to write"),
    }
}

#[test]
fn ids_increase_and_reversed_replies_resolve_the_right_waiters() {
    let mut reactor = Reactor::new();

    let (tx1, mut rx1) = oneshot::channel::<Outcome>();
    let (tx2, mut rx2) = oneshot::channel::<Outcome>();

    let cmd1 = vec![kameloso::wire::CommandPart::Text("playlist-next".to_owned())];
    let cmd2 = vec![kameloso::wire::CommandPart::Text("playlist-next".to_owned())];
    let frame1 = reactor.send_command(cmd1, tx1);
    let frame2 = reactor.send_command(cmd2, tx2);

    let text1 = String::from_utf8(frame1).unwrap();
    let text2 = String::from_utf8(frame2).unwrap();
    assert!(text1.contains("\"request_id\":0"));
    assert!(text2.contains("\"request_id\":1"));

    // Replies arrive in reverse order; each resolves its own caller.
    reactor.handle_input(b"{\"request_id\":1,\"error\":\"success\",\"data\":\"second\"}\n");
    reactor.handle_input(b"{\"request_id\":0,\"error\":\"success\",\"data\":\"first\"}\n");

    assert_eq!(rx2.try_recv().unwrap(), Ok("\"second\"".to_owned()));
    assert_eq!(rx1.try_recv().unwrap(), Ok("\"first\"".to_owned()));
}

#[test]
fn resolving_an_unknown_id_affects_no_pending_waiter() {
    let mut reactor = Reactor::new();

    let (tx, mut rx) = oneshot::channel::<Outcome>();
    let _frame = reactor.send_command(
        vec![kameloso::wire::CommandPart::Text("playlist-next".to_owned())],
        tx,
    );

    // No waiter is registered under 99: nothing happens, nobody panics.
    reactor.handle_input(b"{\"request_id\":99,\"error\":\"success\"}\n");
    assert!(rx.try_recv().is_err());

    // The real waiter still resolves.
    reactor.handle_input(b"{\"request_id\":0,\"error\":\"success\"}\n");
    assert_eq!(rx.try_recv().unwrap(), Ok("null".to_owned()));
}

#[test]
fn end_of_stream_needs_two_consecutive_empty_reads() {
    let mut reactor = Reactor::new();
    let (tx, mut rx) = oneshot::channel::<Outcome>();
    let _frame = reactor.send_command(
        vec![kameloso::wire::CommandPart::Text("playlist-next".to_owned())],
        tx,
    );

    // One empty read is tentative only.
    assert!(matches!(
        reactor.step(ReactorEvent::PipeRead(Vec::new())),
        StepResult::Continue
    ));

    // Data after a single empty read decodes as if nothing had happened.
    assert!(matches!(
        reactor.step(ReactorEvent::PipeRead(
            b"{\"request_id\":0,\"error\":\"success\"}\n".to_vec()
        )),
        StepResult::Continue
    ));
    assert_eq!(rx.try_recv().unwrap(), Ok("null".to_owned()));

    // Two empty reads in a row confirm the close.
    assert!(matches!(
        reactor.step(ReactorEvent::PipeRead(Vec::new())),
        StepResult::Continue
    ));
    assert!(matches!(
        reactor.step(ReactorEvent::PipeRead(Vec::new())),
        StepResult::Closed(PipeClosed::Mpv)
    ));
}

#[test]
fn closed_queue_is_an_orderly_shutdown() {
    let mut reactor = Reactor::new();
    assert!(matches!(
        reactor.step(ReactorEvent::CommandsClosed),
        StepResult::Closed(PipeClosed::Commands)
    ));
}

#[test]
fn queue_closed_when_every_facade_handle_drops() {
    let (tx, mut rx) = mpsc::unbounded_channel::<Command>();
    let client = Client::new(tx);
    drop(client);
    // The queue reports closure; the event loop maps it to the event below.
    assert!(matches!(
        rx.try_recv(),
        Err(mpsc::error::TryRecvError::Disconnected)
    ));
    let mut reactor = Reactor::new();
    assert!(matches!(
        reactor.step(ReactorEvent::CommandsClosed),
        StepResult::Closed(PipeClosed::Commands)
    ));
}

#[test]
fn load_file_end_to_end_resolves_playlist_entry_id() {
    let (tx, mut rx) = mpsc::unbounded_channel::<Command>();
    let client = Client::new(tx);
    let mut reactor = Reactor::new();

    let reply_rx = client
        .load_file("http://example/video.mp4", &LoadFileOptions::AppendPlay)
        .unwrap();

    let cmd = rx.try_recv().unwrap();
    let frame = frame_of(reactor.step(ReactorEvent::CommandReceived(cmd)));
    let text = String::from_utf8(frame).unwrap();
    assert!(text.contains("append-play"));
    assert!(text.contains("http://example/video.mp4"));
    assert!(text.contains("\"request_id\":0"));
    assert!(text.ends_with('\n'));

    // The player replies with the new entry's id.
    let reply = b"{\"request_id\":0,\"error\":\"success\",\"data\":{\"playlist_entry_id\":7}}\n";
    assert!(matches!(
        reactor.step(ReactorEvent::PipeRead(reply.to_vec())),
        StepResult::Continue
    ));

    let mut reply_rx = reply_rx;
    let payload = reply_rx.try_recv().unwrap().unwrap();
    let decoded = LoadFile::from_payload(&payload).unwrap();
    assert_eq!(decoded.playlist_entry_id, 7);
}

#[test]
fn observe_property_routes_changes_to_its_subscriber_only() {
    let (tx, mut rx) = mpsc::unbounded_channel::<Command>();
    let client = Client::new(tx);
    let mut reactor = Reactor::new();

    let (ack_playlist, mut playlist_rx) = client.observe_property("playlist").unwrap();
    let (ack_pause, mut pause_rx) = client.observe_property("pause").unwrap();

    let frame = frame_of(reactor.step(ReactorEvent::CommandReceived(rx.try_recv().unwrap())));
    let text = String::from_utf8(frame).unwrap();
    assert!(text.contains("observe_property"));
    assert!(text.contains("playlist"));
    let _ = frame_of(reactor.step(ReactorEvent::CommandReceived(rx.try_recv().unwrap())));

    // Both observations are acknowledged.
    let acks = b"{\"request_id\":0,\"error\":\"success\"}\n{\"request_id\":1,\"error\":\"success\"}\n";
    assert!(matches!(
        reactor.step(ReactorEvent::PipeRead(acks.to_vec())),
        StepResult::Continue
    ));
    let mut ack_playlist = ack_playlist;
    let mut ack_pause = ack_pause;
    assert!(ack_playlist.try_recv().unwrap().is_ok());
    assert!(ack_pause.try_recv().unwrap().is_ok());

    // A playlist change reaches the playlist subscriber and nobody else.
    let change = b"{\"event\":\"property-change\",\"name\":\"playlist\",\"data\":[{\"id\":1}]}\n";
    assert!(matches!(
        reactor.step(ReactorEvent::PipeRead(change.to_vec())),
        StepResult::Continue
    ));
    assert_eq!(playlist_rx.try_recv().unwrap(), "[{\"id\":1}]");
    assert!(pause_rx.try_recv().is_err());

    // A change of a property nobody observes affects nothing.
    let unknown = b"{\"event\":\"property-change\",\"name\":\"volume\",\"data\":5}\n";
    assert!(matches!(
        reactor.step(ReactorEvent::PipeRead(unknown.to_vec())),
        StepResult::Continue
    ));
    assert!(playlist_rx.try_recv().is_err());
    assert!(pause_rx.try_recv().is_err());
}

#[test]
fn resubscribing_replaces_the_previous_destination() {
    let mut reactor = Reactor::new();

    let (ack1, _r1) = oneshot::channel::<Outcome>();
    let (data1, mut old_rx) = mpsc::unbounded_channel::<String>();
    let _ = reactor.observe_property("pause".to_owned(), ack1, data1);

    let (ack2, _r2) = oneshot::channel::<Outcome>();
    let (data2, mut new_rx) = mpsc::unbounded_channel::<String>();
    let _ = reactor.observe_property("pause".to_owned(), ack2, data2);

    reactor.handle_input(b"{\"event\":\"property-change\",\"name\":\"pause\",\"data\":true}\n");
    assert_eq!(new_rx.try_recv().unwrap(), "true");
    assert!(old_rx.try_recv().is_err());
}

#[test]
fn abandoned_waiter_is_invisible_to_the_reactor() {
    let mut reactor = Reactor::new();
    let (tx, rx) = oneshot::channel::<Outcome>();
    let _frame = reactor.send_command(
        vec![kameloso::wire::CommandPart::Text("playlist-next".to_owned())],
        tx,
    );
    drop(rx);
    // Delivery fails silently; the reactor carries on.
    reactor.handle_input(b"{\"request_id\":0,\"error\":\"success\"}\n");
    assert!(matches!(
        reactor.step(ReactorEvent::CommandsClosed),
        StepResult::Closed(PipeClosed::Commands)
    ));
}
