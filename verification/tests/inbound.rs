use actix_http::ws::{CloseCode, CloseReason, Item, ProtocolError};
use actix_ws::{Frame, Message, MessageStream, ReadEvent, StreamAction, StreamError};
use bytes::Bytes;

const KEY: [u8; 4] = [0x11, 0x22, 0x33, 0x44];

/// A frame as a client sends it: masked with `KEY`, the payload shorter than 126 bytes.
fn client_frame(first_byte: u8, payload: &[u8]) -> Vec<u8> {
    assert!(payload.len() < 126);
    let mut frame = vec![first_byte, 0x80 | payload.len() as u8];
    frame.extend_from_slice(&KEY);
    for (i, byte) in payload.iter().enumerate() {
        frame.push(byte ^ KEY[i % 4]);
    }
    frame
}

/// Everything that the stream hands out when it is fed `chunks` one by one and polled
/// until it waits after each, then told that the transport is exhausted and polled
/// to the end.
fn feed(chunks: &[&[u8]]) -> Vec<Result<Message, StreamError>> {
    let mut stream = MessageStream::new();
    let mut items = Vec::new();
    for chunk in chunks {
        let mut fresh = Some(chunk.to_vec());
        loop {
            let mut action = stream.poll_next(ReadEvent::Polled);
            while let StreamAction::Read = action {
                action = match fresh.take() {
                    Some(bytes) => stream.poll_next(ReadEvent::Chunk(bytes)),
                    None => stream.poll_next(ReadEvent::Idle),
                };
            }
            match action {
                StreamAction::Yield(message) => items.push(Ok(message)),
                StreamAction::Fail(error) => {
                    items.push(Err(error));
                    return items;
                }
                StreamAction::Wait => break,
                StreamAction::Finish => return items,
                StreamAction::Read => unreachable!(),
            }
        }
    }
    loop {
        let mut action = stream.poll_next(ReadEvent::Polled);
        while let StreamAction::Read = action {
            action = stream.poll_next(ReadEvent::Exhausted);
        }
        match action {
            StreamAction::Yield(message) => items.push(Ok(message)),
            StreamAction::Fail(error) => {
                items.push(Err(error));
                return items;
            }
            StreamAction::Finish => return items,
            other => panic!("an exhausted stream answered {:?}", other),
        }
    }
}

fn messages(items: Vec<Result<Message, StreamError>>) -> Vec<Message> {
    items.into_iter().map(|item| item.expect("a message")).collect()
}

#[test]
fn ping_then_text_then_the_end() {
    let mut bytes = client_frame(0x89, b"abc");
    bytes.extend(client_frame(0x81, b"ok"));

    let mut stream = MessageStream::new();
    assert!(matches!(stream.poll_next(ReadEvent::Polled), StreamAction::Read));
    assert!(matches!(stream.poll_next(ReadEvent::Chunk(bytes)), StreamAction::Read));
    match stream.poll_next(ReadEvent::Exhausted) {
        StreamAction::Yield(message) => assert_eq!(message, Message::Ping(b"abc".to_vec())),
        other => panic!("expected the ping, got {:?}", other),
    }
    match stream.poll_next(ReadEvent::Polled) {
        StreamAction::Yield(message) => assert_eq!(message, Message::Text("ok".to_string())),
        other => panic!("expected the text, got {:?}", other),
    }
    assert!(matches!(stream.poll_next(ReadEvent::Polled), StreamAction::Finish));
    assert!(matches!(stream.poll_next(ReadEvent::Polled), StreamAction::Finish));
}

#[test]
fn one_byte_at_a_time_gives_the_same_messages() {
    let mut bytes = client_frame(0x89, b"abc");
    bytes.extend(client_frame(0x81, b"ok"));
    bytes.extend(client_frame(0x82, &[0, 1, 2, 3, 4, 5, 6, 7, 8, 9]));
    bytes.extend(client_frame(0x8a, b""));
    bytes.extend(client_frame(0x88, &[0x03, 0xe8, b'b', b'y', b'e']));

    let expected = vec![
        Message::Ping(b"abc".to_vec()),
        Message::Text("ok".to_string()),
        Message::Binary(vec![0, 1, 2, 3, 4, 5, 6, 7, 8, 9]),
        Message::Pong(vec![]),
        Message::Close(Some(CloseReason {
            code: CloseCode::Normal,
            description: Some("bye".to_string()),
        })),
    ];

    let at_once = messages(feed(&[&bytes]));
    assert_eq!(at_once, expected);

    let single: Vec<&[u8]> = bytes.chunks(1).collect();
    assert_eq!(messages(feed(&single)), expected);

    for size in 2..bytes.len() {
        let chunks: Vec<&[u8]> = bytes.chunks(size).collect();
        assert_eq!(messages(feed(&chunks)), expected);
    }
}

#[test]
fn a_frame_split_over_two_reads_waits_for_its_end() {
    let bytes = client_frame(0x81, b"hello");
    let mut stream = MessageStream::new();
    assert!(matches!(stream.poll_next(ReadEvent::Polled), StreamAction::Read));
    assert!(matches!(stream.poll_next(ReadEvent::Chunk(bytes[..4].to_vec())), StreamAction::Read));
    assert!(matches!(stream.poll_next(ReadEvent::Idle), StreamAction::Wait));
    assert!(matches!(stream.poll_next(ReadEvent::Polled), StreamAction::Read));
    assert!(matches!(stream.poll_next(ReadEvent::Chunk(bytes[4..].to_vec())), StreamAction::Read));
    match stream.poll_next(ReadEvent::Idle) {
        StreamAction::Yield(message) => assert_eq!(message, Message::Text("hello".to_string())),
        other => panic!("expected the text, got {:?}", other),
    }
    assert!(matches!(stream.poll_next(ReadEvent::Polled), StreamAction::Read));
    assert!(matches!(stream.poll_next(ReadEvent::Idle), StreamAction::Wait));
}

#[test]
fn a_decoded_message_is_handed_out_without_a_read() {
    let mut bytes = client_frame(0x82, &[1]);
    bytes.extend(client_frame(0x82, &[2]));
    let mut stream = MessageStream::new();
    stream.poll_next(ReadEvent::Polled);
    stream.poll_next(ReadEvent::Chunk(bytes));
    assert!(matches!(stream.poll_next(ReadEvent::Idle), StreamAction::Yield(Message::Binary(_))));
    match stream.poll_next(ReadEvent::Polled) {
        StreamAction::Yield(message) => assert_eq!(message, Message::Binary(vec![2])),
        other => panic!("expected the second message at once, got {:?}", other),
    }
    assert!(matches!(stream.poll_next(ReadEvent::Polled), StreamAction::Read));
}

#[test]
fn text_that_is_not_utf8_ends_the_stream_with_an_error() {
    let mut bytes = client_frame(0x81, &[0xff, 0xfe]);
    bytes.extend(client_frame(0x81, b"never seen"));
    let items = feed(&[&bytes]);
    assert_eq!(items.len(), 1);
    assert!(matches!(items[0], Err(StreamError::InvalidUtf8)));

    let mut stream = MessageStream::new();
    stream.poll_next(ReadEvent::Polled);
    stream.poll_next(ReadEvent::Chunk(bytes));
    assert!(matches!(
        stream.poll_next(ReadEvent::Idle),
        StreamAction::Fail(StreamError::InvalidUtf8)
    ));
    assert!(matches!(stream.poll_next(ReadEvent::Polled), StreamAction::Finish));
    assert!(matches!(stream.poll_next(ReadEvent::Idle), StreamAction::Finish));
    assert!(matches!(stream.poll_next(ReadEvent::Chunk(vec![1])), StreamAction::Finish));
    assert!(matches!(stream.poll_next(ReadEvent::Exhausted), StreamAction::Finish));
}

#[test]
fn good_frames_before_bad_text_come_first_when_fed_apart() {
    let good = client_frame(0x81, b"fine");
    let bad = client_frame(0x81, &[0xc0]);
    let items = feed(&[&good, &bad]);
    assert_eq!(items.len(), 2);
    assert_eq!(items[0].as_ref().unwrap(), &Message::Text("fine".to_string()));
    assert!(matches!(items[1], Err(StreamError::InvalidUtf8)));
}

#[test]
fn good_frames_before_bad_text_give_way_to_the_error_when_fed_together() {
    let mut bytes = client_frame(0x81, b"fine");
    bytes.extend(client_frame(0x81, &[0xc0]));
    let items = feed(&[&bytes]);
    assert_eq!(items.len(), 1);
    assert!(matches!(items[0], Err(StreamError::InvalidUtf8)));
}

#[test]
fn an_unmasked_frame_is_the_codecs_error() {
    let items = feed(&[&[0x81, 0x02, b'h', b'i']]);
    assert_eq!(items.len(), 1);
    assert!(matches!(items[0], Err(StreamError::Codec(ProtocolError::UnmaskedFrame))));
}

#[test]
fn a_frame_with_an_unknown_opcode_is_the_codecs_error() {
    let items = feed(&[&client_frame(0x83, b"")]);
    assert_eq!(items.len(), 1);
    assert!(matches!(items[0], Err(StreamError::Codec(ProtocolError::InvalidOpcode(3)))));
}

#[test]
fn a_failed_read_ends_the_stream_with_its_text() {
    let mut stream = MessageStream::new();
    assert!(matches!(stream.poll_next(ReadEvent::Polled), StreamAction::Read));
    assert!(matches!(
        stream.poll_next(ReadEvent::Chunk(client_frame(0x81, b"lost"))),
        StreamAction::Read
    ));
    match stream.poll_next(ReadEvent::Failed("connection reset".to_string())) {
        StreamAction::Fail(StreamError::Io(text)) => assert_eq!(text, "connection reset"),
        other => panic!("expected the read error, got {:?}", other),
    }
    assert!(matches!(stream.poll_next(ReadEvent::Polled), StreamAction::Finish));
}

#[test]
fn exhausted_with_half_a_frame_ends_without_a_message() {
    let bytes = client_frame(0x81, b"cut off");
    let items = feed(&[&bytes[..bytes.len() - 1]]);
    assert!(items.is_empty());
}

#[test]
fn nothing_received_and_exhausted_is_the_end() {
    assert!(feed(&[]).is_empty());
    let mut stream = MessageStream::new();
    assert!(matches!(stream.poll_next(ReadEvent::Polled), StreamAction::Read));
    assert!(matches!(stream.poll_next(ReadEvent::Idle), StreamAction::Wait));
    assert!(matches!(stream.poll_next(ReadEvent::Polled), StreamAction::Read));
    assert!(matches!(stream.poll_next(ReadEvent::Exhausted), StreamAction::Finish));
}

#[test]
fn fragments_come_through_as_continuations() {
    let mut bytes = client_frame(0x01, b"ab");
    bytes.extend(client_frame(0x00, b"cd"));
    bytes.extend(client_frame(0x80, b"ef"));
    assert_eq!(
        messages(feed(&[&bytes])),
        vec![
            Message::Continuation(Item::FirstText(Bytes::from_static(b"ab"))),
            Message::Continuation(Item::Continue(Bytes::from_static(b"cd"))),
            Message::Continuation(Item::Last(Bytes::from_static(b"ef"))),
        ]
    );
}

#[test]
fn a_continuation_without_a_start_is_the_codecs_error() {
    let items = feed(&[&client_frame(0x00, b"cd")]);
    assert_eq!(items.len(), 1);
    assert!(matches!(
        items[0],
        Err(StreamError::Codec(ProtocolError::ContinuationNotStarted))
    ));
}

#[test]
fn a_close_frame_without_a_payload_has_no_reason() {
    assert_eq!(messages(feed(&[&client_frame(0x88, b"")])), vec![Message::Close(None)]);
}

#[test]
fn frame_into_message_keeps_kind_and_payload() {
    assert_eq!(
        Frame::Text("héllo".as_bytes().to_vec()).into_message().unwrap(),
        Message::Text("héllo".to_string())
    );
    assert_eq!(Frame::Text(vec![]).into_message().unwrap(), Message::Text(String::new()));
    assert_eq!(Frame::Binary(vec![0xff]).into_message().unwrap(), Message::Binary(vec![0xff]));
    assert_eq!(Frame::Ping(vec![1]).into_message().unwrap(), Message::Ping(vec![1]));
    assert_eq!(Frame::Pong(vec![2]).into_message().unwrap(), Message::Pong(vec![2]));
    assert_eq!(Frame::Close(None).into_message().unwrap(), Message::Close(None));
    let reason = CloseReason { code: CloseCode::Away, description: None };
    assert_eq!(
        Frame::Close(Some(reason.clone())).into_message().unwrap(),
        Message::Close(Some(reason))
    );
    assert_eq!(
        Frame::Continuation(Item::Last(Bytes::from_static(b"z"))).into_message().unwrap(),
        Message::Continuation(Item::Last(Bytes::from_static(b"z")))
    );
}

#[test]
fn frame_into_message_refuses_text_that_is_not_utf8() {
    assert!(matches!(
        Frame::Text(vec![b'a', 0x80]).into_message(),
        Err(StreamError::InvalidUtf8)
    ));
    assert!(matches!(
        Frame::Text(vec![0xed, 0xa0, 0x80]).into_message(),
        Err(StreamError::InvalidUtf8)
    ));
}
