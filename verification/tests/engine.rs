//! End-to-end scenarios against the protocol engine.

use mpd_protocol::{ClientEvent, MpdClient, MpdError, TimePos};

fn pairs(items: &[(&str, &str)]) -> Vec<(String, String)> {
    items.iter().map(|(k, v)| (k.to_string(), v.to_string())).collect()
}

/// Drives the engine until the next non-progress event.
fn next_event(client: &mut MpdClient) -> ClientEvent {
    loop {
        match client.poll() {
            ClientEvent::Progress => continue,
            other => return other,
        }
    }
}

#[test]
fn status_while_idle_free() {
    let mut client = MpdClient::new();
    client.feed(b"OK MPD 0.21.11\n");
    assert!(matches!(client.poll(), ClientEvent::Progress));
    assert_eq!(client.greeting().as_deref(), Some("OK MPD 0.21.11"));

    let (index, wire) = client.status().unwrap();
    assert_eq!(index, 0);
    assert_eq!(wire, b"status\n".to_vec());

    client.feed(b"volume: 80\nstate: play\nOK\n");
    match next_event(&mut client) {
        ClientEvent::Completed(i, Ok(response)) => {
            assert_eq!(i, 0);
            assert_eq!(response, pairs(&[("volume", "80"), ("state", "play")]));
        }
        other => panic!("unexpected event: {:?}", other),
    }
    assert!(matches!(client.poll(), ClientEvent::NeedMoreData));
}

#[test]
fn idle_interleaving() {
    let mut client = MpdClient::new();
    client.feed(b"OK MPD 0.21.11\n");
    assert!(matches!(client.poll(), ClientEvent::Progress));

    let (idle_index, wire) = client.idle().unwrap();
    assert_eq!(idle_index, 0);
    assert_eq!(wire, b"idle\n".to_vec());

    // Submitting while waiting wraps the command in cancel/resume lines.
    let (pause_index, wire) = client.pause().unwrap();
    assert_eq!(pause_index, 1);
    assert_eq!(wire, b"noidle\npause\nidle\n".to_vec());

    // The cancel directive provokes the original wait's response first.
    client.feed(b"changed: player\nOK\n");
    match next_event(&mut client) {
        ClientEvent::Completed(i, Ok(response)) => {
            assert_eq!(i, idle_index);
            assert_eq!(response, pairs(&[("changed", "player")]));
        }
        other => panic!("unexpected event: {:?}", other),
    }

    // The next success terminator completes the wrapped command.
    client.feed(b"OK\n");
    match next_event(&mut client) {
        ClientEvent::Completed(i, Ok(response)) => {
            assert_eq!(i, pause_index);
            assert_eq!(response, pairs(&[]));
        }
        other => panic!("unexpected event: {:?}", other),
    }
}

#[test]
fn new_wait_replaces_old_without_stacking() {
    let mut client = MpdClient::new();
    client.feed(b"OK MPD 0.21.11\n");
    assert!(matches!(client.poll(), ClientEvent::Progress));

    let (first, wire) = client.idle().unwrap();
    assert_eq!(first, 0);
    assert_eq!(wire, b"idle\n".to_vec());

    // A wait submitted while waiting cancels and sends the new wait once.
    let (second, wire) = client.idle().unwrap();
    assert_eq!(second, 1);
    assert_eq!(wire, b"noidle\nidle\n".to_vec());
}

#[test]
fn empty_response_is_valid() {
    let mut client = MpdClient::new();
    client.feed(b"OK MPD 0.21.11\n");
    assert!(matches!(client.poll(), ClientEvent::Progress));

    let (index, _) = client.play().unwrap();
    client.feed(b"OK\n");
    match next_event(&mut client) {
        ClientEvent::Completed(i, Ok(response)) => {
            assert_eq!(i, index);
            assert_eq!(response, pairs(&[]));
        }
        other => panic!("unexpected event: {:?}", other),
    }
}

#[test]
fn disconnect_fails_pending_in_order() {
    let mut client = MpdClient::new();
    client.feed(b"OK MPD 0.21.11\n");
    assert!(matches!(client.poll(), ClientEvent::Progress));

    let (a, _) = client.status().unwrap();
    let (b, _) = client.play().unwrap();
    let (c, _) = client.pause().unwrap();

    let failed = client.disconnect();
    assert_eq!(
        failed,
        vec![(a, MpdError::Io), (b, MpdError::Io), (c, MpdError::Io)]
    );

    // No later submission is accepted.
    assert_eq!(client.next().unwrap_err(), MpdError::Closed);
}

#[test]
fn responses_match_submission_order_across_chunks() {
    let mut client = MpdClient::new();
    client.feed(b"OK MPD 0.21.11\n");
    assert!(matches!(client.poll(), ClientEvent::Progress));

    let (first, _) = client.status().unwrap();
    let (second, _) = client.currentsong().unwrap();

    // One response split across chunks, the next response and part of a
    // third command's reply arriving concatenated in a single chunk.
    client.feed(b"volume: 8");
    assert!(matches!(client.poll(), ClientEvent::NeedMoreData));
    client.feed(b"0\nOK\nfile: a.flac\nOK\n");

    match next_event(&mut client) {
        ClientEvent::Completed(i, Ok(response)) => {
            assert_eq!(i, first);
            assert_eq!(response, pairs(&[("volume", "80")]));
        }
        other => panic!("unexpected event: {:?}", other),
    }
    match next_event(&mut client) {
        ClientEvent::Completed(i, Ok(response)) => {
            assert_eq!(i, second);
            assert_eq!(response, pairs(&[("file", "a.flac")]));
        }
        other => panic!("unexpected event: {:?}", other),
    }
}

#[test]
fn server_rejection_is_ack_error() {
    let mut client = MpdClient::new();
    client.feed(b"OK MPD 0.21.11\n");
    assert!(matches!(client.poll(), ClientEvent::Progress));

    let (index, _) = client.setvol(80).unwrap();
    client.feed(b"ACK [5@0] {setvol} value out of range\n");
    match next_event(&mut client) {
        ClientEvent::Completed(i, Err(e)) => {
            assert_eq!(i, index);
            assert_eq!(e, MpdError::Ack);
        }
        other => panic!("unexpected event: {:?}", other),
    }
}

#[test]
fn command_wire_texts() {
    let mut client = MpdClient::new();
    client.feed(b"OK MPD 0.21.11\n");
    assert!(matches!(client.poll(), ClientEvent::Progress));

    let (_, wire) = client.setvol(80).unwrap();
    assert_eq!(wire, b"setvol 80\n".to_vec());
    let (_, wire) = client.repeat(true).unwrap();
    assert_eq!(wire, b"repeat 1\n".to_vec());
    let (_, wire) = client.random(false).unwrap();
    assert_eq!(wire, b"random 0\n".to_vec());
    let (_, wire) = client.prev().unwrap();
    assert_eq!(wire, b"previous\n".to_vec());
    let (_, wire) = client.next().unwrap();
    assert_eq!(wire, b"next\n".to_vec());
    let (_, wire) = client.seekcur(TimePos { millis: 12500 }).unwrap();
    assert_eq!(wire, b"seekcur 12.500\n".to_vec());
    let (_, wire) = client.currentsong().unwrap();
    assert_eq!(wire, b"currentsong\n".to_vec());
}

#[test]
fn synthetic_response_round_trips_all_pairs() {
    let mut client = MpdClient::new();
    client.feed(b"OK MPD 0.21.11\n");
    assert!(matches!(client.poll(), ClientEvent::Progress));

    let (index, _) = client.status().unwrap();

    // A synthetic success response with N pairs, values containing the
    // delimiter themselves.
    let expected: Vec<(String, String)> =
        (0..10).map(|i| (format!("key{}", i), format!("value: {}", i))).collect();
    let mut bytes = Vec::new();
    for (k, v) in &expected {
        bytes.extend_from_slice(format!("{}: {}\n", k, v).as_bytes());
    }
    bytes.extend_from_slice(b"OK\n");
    client.feed(&bytes);

    match next_event(&mut client) {
        ClientEvent::Completed(i, Ok(response)) => {
            assert_eq!(i, index);
            assert_eq!(response, expected);
        }
        other => panic!("unexpected event: {:?}", other),
    }
}

#[test]
fn framing_errors_fail_the_inflight_command() {
    let mut client = MpdClient::new();
    client.feed(b"OK MPD 0.21.11\n");
    assert!(matches!(client.poll(), ClientEvent::Progress));

    // Invalid UTF-8 surfaces to the command whose response it garbles.
    let (first, _) = client.status().unwrap();
    client.feed(b"volume\xff\xfe: 1\n");
    match client.poll() {
        ClientEvent::Completed(i, Err(e)) => {
            assert_eq!(i, first);
            assert_eq!(e, MpdError::Frame);
        }
        other => panic!("unexpected event: {:?}", other),
    }

    // So does a data line without the key/value delimiter.
    let (second, _) = client.play().unwrap();
    client.feed(b"no delimiter here\n");
    match client.poll() {
        ClientEvent::Completed(i, Err(e)) => {
            assert_eq!(i, second);
            assert_eq!(e, MpdError::Frame);
        }
        other => panic!("unexpected event: {:?}", other),
    }

    // With nothing in flight a framing error is only reported.
    client.feed(b"still no delimiter\n");
    assert!(matches!(client.poll(), ClientEvent::BadFrame));
}

#[test]
fn response_with_nothing_pending_is_unmatched() {
    let mut client = MpdClient::new();
    client.feed(b"OK MPD 0.21.11\nOK\n");
    assert!(matches!(client.poll(), ClientEvent::Progress));
    assert!(matches!(client.poll(), ClientEvent::Unmatched));
}

#[test]
fn multibyte_text_survives_decoding() {
    let mut client = MpdClient::new();
    client.feed(b"OK MPD 0.21.11\n");
    assert!(matches!(client.poll(), ClientEvent::Progress));

    let (index, _) = client.currentsong().unwrap();
    client.feed("Title: caf\u{e9} \u{266b}\nOK\n".as_bytes());
    match next_event(&mut client) {
        ClientEvent::Completed(i, Ok(response)) => {
            assert_eq!(i, index);
            assert_eq!(response, pairs(&[("Title", "caf\u{e9} \u{266b}")]));
        }
        other => panic!("unexpected event: {:?}", other),
    }
}

#[test]
fn values_keep_embedded_delimiters() {
    let mut client = MpdClient::new();
    client.feed(b"OK MPD 0.21.11\n");
    assert!(matches!(client.poll(), ClientEvent::Progress));

    let (index, _) = client.currentsong().unwrap();
    client.feed(b"Title: part one: part two\nOK\n");
    match next_event(&mut client) {
        ClientEvent::Completed(i, Ok(response)) => {
            assert_eq!(i, index);
            assert_eq!(response, pairs(&[("Title", "part one: part two")]));
        }
        other => panic!("unexpected event: {:?}", other),
    }
}
