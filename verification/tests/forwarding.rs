use edge_bridge::forward::{forward_all, stdout_payload, terminated_payload};
use edge_bridge::{Forwarder, StreamEvent, TerminatedPayload, UiEvent};

fn message(payload: &str) -> UiEvent {
    UiEvent { channel: String::from("message"), payload: String::from(payload) }
}

fn exit_code(code: i32) -> StreamEvent {
    StreamEvent::Terminated(TerminatedPayload { code: Some(code), signal: None })
}

#[test]
fn stdout_chunk_is_quoted_twice() {
    let mut forwarder = Forwarder::new();
    let step = forwarder.step(Some(&StreamEvent::StandardOutputChunk(b"hello".to_vec())));
    assert_eq!(step.publish, Some(message("'\"hello\"'")));
    assert!(step.read_next);
    assert!(!forwarder.is_stopped());
}

#[test]
fn stderr_chunk_is_quoted_once() {
    let mut forwarder = Forwarder::new();
    let step = forwarder.step(Some(&StreamEvent::StandardErrorChunk(b"oops".to_vec())));
    assert_eq!(step.publish, Some(message("\"oops\"")));
    assert!(step.read_next);
}

#[test]
fn chunk_text_is_escaped() {
    let event = StreamEvent::StandardErrorChunk(b"a\"b\\c\n".to_vec());
    assert_eq!(event.to_ui_event(), Some(message("\"a\\\"b\\\\c\\n\"")));
}

#[test]
fn empty_chunk_is_published() {
    let event = StreamEvent::StandardOutputChunk(Vec::new());
    assert_eq!(event.to_ui_event(), Some(message("'\"\"'")));
}

#[test]
fn invalid_bytes_are_replaced() {
    let bytes: Vec<u8> = vec![0x68, 0x69, 0xff, 0xc3];
    let event = StreamEvent::StandardOutputChunk(bytes.clone());
    let published = event.to_ui_event().unwrap();
    assert_eq!(published.channel, "message");
    assert_eq!(published.payload, "'\"hi\u{fffd}\u{fffd}\"'");
    assert_eq!(published.payload, format!("'{:#?}'", String::from_utf8_lossy(&bytes)));
}

#[test]
fn multibyte_text_is_kept() {
    let event = StreamEvent::StandardErrorChunk("d\u{e9}j\u{e0}".as_bytes().to_vec());
    assert_eq!(event.to_ui_event(), Some(message("\"d\u{e9}j\u{e0}\"")));
}

#[test]
fn terminated_with_exit_code_zero() {
    let mut forwarder = Forwarder::new();
    let step = forwarder.step(Some(&exit_code(0)));
    let published = step.publish.unwrap();
    assert_eq!(published.channel, "message");
    assert!(published.payload.starts_with("Terminated: "));
    assert_eq!(
        published.payload,
        "Terminated: TerminatedPayload {\n    code: Some(\n        0,\n    ),\n    signal: None,\n}"
    );
    assert!(!step.read_next);
    assert!(forwarder.is_stopped());
}

#[test]
fn other_event_publishes_nothing() {
    let mut forwarder = Forwarder::new();
    let step = forwarder.step(Some(&StreamEvent::Other));
    assert_eq!(step.publish, None);
    assert!(step.read_next);
    assert!(!forwarder.is_stopped());
    assert_eq!(StreamEvent::Other.to_ui_event(), None);
}

#[test]
fn stopped_forwarder_stays_silent() {
    let mut forwarder = Forwarder::new();
    forwarder.step(Some(&exit_code(1)));
    for event in [
        StreamEvent::StandardOutputChunk(b"late".to_vec()),
        StreamEvent::StandardErrorChunk(b"late".to_vec()),
        exit_code(2),
        StreamEvent::Other,
    ] {
        let step = forwarder.step(Some(&event));
        assert_eq!(step.publish, None);
        assert!(!step.read_next);
        assert!(forwarder.is_stopped());
    }
}

#[test]
fn closed_stream_stops_the_forwarder() {
    let mut forwarder = Forwarder::new();
    let step = forwarder.step(Some(&StreamEvent::StandardOutputChunk(b"a".to_vec())));
    assert!(step.read_next);
    let step = forwarder.step(None);
    assert_eq!(step.publish, None);
    assert!(!step.read_next);
    assert!(forwarder.is_stopped());
    let step = forwarder.step(Some(&StreamEvent::StandardOutputChunk(b"b".to_vec())));
    assert_eq!(step.publish, None);
    assert!(!step.read_next);
}

#[test]
fn new_forwarder_is_running() {
    assert!(!Forwarder::new().is_stopped());
}

#[test]
fn events_are_published_in_stream_order() {
    let events = vec![
        StreamEvent::StandardOutputChunk(b"one".to_vec()),
        StreamEvent::Other,
        StreamEvent::StandardErrorChunk(b"two".to_vec()),
        StreamEvent::StandardOutputChunk(b"three".to_vec()),
        StreamEvent::Other,
        exit_code(3),
    ];
    let published = forward_all(&events);
    assert_eq!(
        published,
        vec![
            message("'\"one\"'"),
            message("\"two\""),
            message("'\"three\"'"),
            message(
                "Terminated: TerminatedPayload {\n    code: Some(\n        3,\n    ),\n    signal: None,\n}"
            ),
        ]
    );
}

#[test]
fn adjacent_chunks_are_not_merged() {
    let events = vec![
        StreamEvent::StandardOutputChunk(b"a".to_vec()),
        StreamEvent::StandardOutputChunk(b"a".to_vec()),
    ];
    assert_eq!(forward_all(&events), vec![message("'\"a\"'"), message("'\"a\"'")]);
}

#[test]
fn nothing_is_published_after_termination() {
    let events = vec![
        StreamEvent::StandardErrorChunk(b"x".to_vec()),
        exit_code(0),
        StreamEvent::StandardOutputChunk(b"y".to_vec()),
        exit_code(9),
    ];
    let published = forward_all(&events);
    assert_eq!(published.len(), 2);
    assert_eq!(published, forward_all(&events[..2].to_vec()));
}

#[test]
fn stream_that_closes_without_termination() {
    let events = vec![StreamEvent::Other, StreamEvent::StandardOutputChunk(b"z".to_vec())];
    assert_eq!(forward_all(&events), vec![message("'\"z\"'")]);
    assert_eq!(forward_all(&Vec::new()), Vec::<UiEvent>::new());
}

#[test]
fn payloads_from_rendered_text() {
    assert_eq!(stdout_payload("\"hello\""), "'\"hello\"'");
    assert_eq!(stdout_payload(""), "''");
    assert_eq!(terminated_payload("gone"), "Terminated: gone");
    assert_eq!(terminated_payload(""), "Terminated: ");
}

#[test]
fn status_rendering_matches_pretty_debug() {
    let values = [None, Some(0), Some(1), Some(-1), Some(9), Some(10), Some(137), Some(-2048),
        Some(i32::MAX), Some(i32::MIN)];
    for code in values {
        for signal in values {
            let status = TerminatedPayload { code, signal };
            assert_eq!(status.render(), format!("{:#?}", status));
        }
    }
}

#[test]
fn status_rendering_of_a_signal() {
    let status = TerminatedPayload { code: None, signal: Some(15) };
    assert_eq!(
        status.render(),
        "TerminatedPayload {\n    code: None,\n    signal: Some(\n        15,\n    ),\n}"
    );
}
