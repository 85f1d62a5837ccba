use kameloso::client::{decode_paused, Client, Error, LoadFile};
use kameloso::reactor::Command;
use kameloso::wire::encode_frame;
use tokio::sync::mpsc;

#[test]
fn load_file_payload_decodes_its_entry_id() {
    let decoded = LoadFile::from_payload("{\"playlist_entry_id\":7}").unwrap();
    assert_eq!(decoded.playlist_entry_id, 7);
}

#[test]
fn load_file_payload_without_the_field_is_invalid() {
    assert!(matches!(
        LoadFile::from_payload("{\"other\":1}"),
        Err(Error::InvalidResponse)
    ));
    assert!(matches!(
        LoadFile::from_payload("null"),
        Err(Error::InvalidResponse)
    ));
    assert!(matches!(
        LoadFile::from_payload("not json"),
        Err(Error::InvalidResponse)
    ));
}

#[test]
fn paused_payload_decodes_its_boolean() {
    assert_eq!(decode_paused("true").unwrap(), true);
    assert_eq!(decode_paused("false").unwrap(), false);
    assert!(matches!(decode_paused("null"), Err(Error::InvalidResponse)));
    assert!(matches!(decode_paused("1"), Err(Error::InvalidResponse)));
}

#[test]
fn facade_queues_the_built_command() {
    let (tx, mut rx) = mpsc::unbounded_channel::<Command>();
    let client = Client::new(tx);

    client.get_playlist().unwrap();
    match rx.try_recv().unwrap() {
        Command::WithResponse { command, .. } => {
            let text = String::from_utf8(encode_frame(&command, 0)).unwrap();
            assert!(text.starts_with("{\"command\":[\"get_property\",\"playlist\"],"));
        }
        Command::ObserveProperty { .. } => panic!("expected a plain command"),
    }

    client.get_paused().unwrap();
    match rx.try_recv().unwrap() {
        Command::WithResponse { command, .. } => {
            let text = String::from_utf8(encode_frame(&command, 0)).unwrap();
            assert!(text.starts_with("{\"command\":[\"get_property\",\"pause\"],"));
        }
        Command::ObserveProperty { .. } => panic!("expected a plain command"),
    }

    client.get_duration_ms().unwrap();
    match rx.try_recv().unwrap() {
        Command::WithResponse { command, .. } => {
            let text = String::from_utf8(encode_frame(&command, 0)).unwrap();
            assert!(text.contains("duration/full"));
        }
        Command::ObserveProperty { .. } => panic!("expected a plain command"),
    }

    client.get_time_pos_ms().unwrap();
    match rx.try_recv().unwrap() {
        Command::WithResponse { command, .. } => {
            let text = String::from_utf8(encode_frame(&command, 0)).unwrap();
            assert!(text.contains("time-pos/full"));
        }
        Command::ObserveProperty { .. } => panic!("expected a plain command"),
    }
}

#[test]
fn observe_property_queues_a_subscription() {
    let (tx, mut rx) = mpsc::unbounded_channel::<Command>();
    let client = Client::new(tx);
    let _streams = client.observe_property("playlist").unwrap();
    match rx.try_recv().unwrap() {
        Command::ObserveProperty { property, .. } => assert_eq!(property, "playlist"),
        Command::WithResponse { .. } => panic!("expected an observation"),
    }
}

#[test]
fn sending_into_a_closed_queue_reports_the_closure() {
    let (tx, rx) = mpsc::unbounded_channel::<Command>();
    let client = Client::new(tx);
    drop(rx);
    assert!(matches!(
        client.playlist_next(),
        Err(Error::CommandsChannelClosed)
    ));
    assert!(matches!(
        client.observe_property("pause"),
        Err(Error::CommandsChannelClosed)
    ));
}

#[test]
fn cloned_facades_feed_the_same_queue() {
    let (tx, mut rx) = mpsc::unbounded_channel::<Command>();
    let client = Client::new(tx);
    let clone = client.clone();
    drop(client);
    clone.playlist_next().unwrap();
    assert!(rx.try_recv().is_ok());
}
