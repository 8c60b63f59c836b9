use actix_http::ws::{CloseCode, CloseReason};
use actix_ws::{handle, BodyAction, Closed, Message, QueueEvent, Session, QUEUE_CAPACITY};
use futures::FutureExt;
use tokio::sync::mpsc::channel;
use tokio::sync::mpsc::error::{TryRecvError, TrySendError};

#[test]
fn each_send_hands_back_its_message() {
    let (tx, _rx) = channel(4);
    let mut session = Session::new(tx);
    assert_eq!(session.text("hi".to_string()).unwrap(), Message::Text("hi".to_string()));
    assert_eq!(session.binary(vec![1, 2]).unwrap(), Message::Binary(vec![1, 2]));
    assert_eq!(session.ping(b"abc").unwrap(), Message::Ping(b"abc".to_vec()));
    assert_eq!(session.pong(b"").unwrap(), Message::Pong(vec![]));
    assert!(session.sender().is_some());
}

#[test]
fn close_hands_back_the_producer_and_the_close_message() {
    let (tx, mut rx) = channel(4);
    let mut session = Session::new(tx);
    let reason = CloseReason { code: CloseCode::Away, description: Some("gone".to_string()) };
    let (producer, message) = session.close(Some(reason.clone())).unwrap();
    assert_eq!(message, Message::Close(Some(reason)));
    assert!(session.sender().is_none());
    producer.try_send(message).unwrap();
    drop(producer);
    assert!(matches!(rx.try_recv(), Ok(Message::Close(Some(_)))));
    assert!(matches!(rx.try_recv(), Err(TryRecvError::Disconnected)));
}

#[test]
fn after_close_every_send_on_every_clone_fails() {
    let (tx, mut rx) = channel(8);
    let mut session = Session::new(tx);
    let mut before = session.clone();
    let (producer, message) = session.close(None).unwrap();
    producer.try_send(message).unwrap();
    drop(producer);
    let mut after = session.clone();
    let mut late = before.clone();

    assert!(matches!(session.text("x".to_string()), Err(Closed)));
    assert!(matches!(session.binary(vec![1]), Err(Closed)));
    assert!(matches!(session.ping(b"x"), Err(Closed)));
    assert!(matches!(session.pong(b"x"), Err(Closed)));
    assert!(matches!(session.close(None), Err(Closed)));
    assert!(matches!(before.text("x".to_string()), Err(Closed)));
    assert!(before.sender().is_none());
    assert!(matches!(after.ping(b"x"), Err(Closed)));
    assert!(matches!(late.binary(vec![]), Err(Closed)));
    assert!(late.sender().is_none());

    assert!(matches!(rx.try_recv(), Ok(Message::Close(None))));
    assert!(matches!(rx.try_recv(), Err(TryRecvError::Disconnected)));
}

#[test]
fn of_two_closing_clones_only_the_first_sends_close() {
    let (tx, mut rx) = channel(8);
    let mut first = Session::new(tx);
    let mut second = first.clone();
    let won = first.close(None);
    let lost = second.close(Some(CloseReason { code: CloseCode::Error, description: None }));
    let (producer, message) = won.unwrap();
    assert!(matches!(lost, Err(Closed)));
    assert!(second.sender().is_none());
    producer.try_send(message).unwrap();
    drop(producer);
    assert!(matches!(rx.try_recv(), Ok(Message::Close(None))));
    assert!(matches!(rx.try_recv(), Err(TryRecvError::Disconnected)));
}

#[test]
fn decide_goes_by_the_flag_it_is_given() {
    let (tx, _rx) = channel(1);
    let mut session = Session::new(tx);
    assert_eq!(session.decide(false, Message::Ping(vec![9])).unwrap(), Message::Ping(vec![9]));
    assert!(session.sender().is_some());
    assert!(matches!(session.decide(true, Message::Ping(vec![9])), Err(Closed)));
    assert!(session.sender().is_none());
    assert!(matches!(session.decide(false, Message::Ping(vec![9])), Err(Closed)));
}

#[test]
fn claim_goes_by_the_flag_it_is_given() {
    let (tx, _rx) = channel(1);
    let mut winner = Session::new(tx);
    let mut loser = winner.clone();
    let (_producer, message) = winner.claim(false, None).unwrap();
    assert_eq!(message, Message::Close(None));
    assert!(winner.sender().is_none());
    assert!(matches!(winner.claim(false, None), Err(Closed)));
    assert!(matches!(loser.claim(true, None), Err(Closed)));
    assert!(loser.sender().is_none());
}

#[test]
fn delivered_maps_the_answer_of_the_queue() {
    assert!(matches!(Session::delivered(true), Ok(())));
    assert!(matches!(Session::delivered(false), Err(Closed)));
}

#[test]
fn a_send_to_a_queue_without_consumer_is_closed() {
    let (tx, rx) = channel(1);
    let mut session = Session::new(tx);
    drop(rx);
    let message = session.text("late".to_string()).unwrap();
    let accepted = session.sender().unwrap().try_send(message).is_ok();
    assert!(!accepted);
    assert!(matches!(Session::delivered(accepted), Err(Closed)));
}

#[test]
fn the_queue_holds_its_capacity_and_no_more() {
    assert_eq!(QUEUE_CAPACITY, 32);
    let (mut body, mut rx, mut session, _stream) = handle();
    for i in 0..QUEUE_CAPACITY {
        let message = session.binary(vec![i as u8]).unwrap();
        session.sender().unwrap().try_send(message).unwrap();
    }
    let extra = session.binary(vec![0xee]).unwrap();
    let extra = match session.sender().unwrap().try_send(extra) {
        Err(TrySendError::Full(message)) => message,
        other => panic!("expected a full queue, got {:?}", other.map_err(|_| ())),
    };

    assert!(matches!(body.poll_next(QueueEvent::Polled), BodyAction::Receive));
    let message = rx.try_recv().unwrap();
    assert!(matches!(body.poll_next(QueueEvent::Message(message)), BodyAction::Receive));
    session.sender().unwrap().try_send(extra).unwrap();
}

#[test]
fn one_send_too_many_waits_until_the_body_is_polled() {
    let (mut body, mut rx, mut session, _stream) = handle();
    for i in 0..QUEUE_CAPACITY {
        let message = session.binary(vec![i as u8]).unwrap();
        let sent = session.sender().unwrap().send(message).now_or_never();
        assert!(matches!(sent, Some(Ok(()))));
    }
    let extra = session.text("last".to_string()).unwrap();
    let producer = session.sender().unwrap().clone();
    let mut waiting = Box::pin(producer.send(extra));
    assert!((&mut waiting).now_or_never().is_none());
    assert!((&mut waiting).now_or_never().is_none());

    let mut action = body.poll_next(QueueEvent::Polled);
    let mut frames = Vec::new();
    let mut admitted = false;
    loop {
        match action {
            BodyAction::Receive => {
                let event = match rx.try_recv() {
                    Ok(message) => QueueEvent::Message(message),
                    Err(TryRecvError::Empty) => QueueEvent::Empty,
                    Err(TryRecvError::Disconnected) => QueueEvent::Closed,
                };
                if !admitted && matches!(event, QueueEvent::Message(_)) {
                    admitted = matches!((&mut waiting).now_or_never(), Some(Ok(())));
                    assert!(admitted);
                }
                action = body.poll_next(event);
            }
            BodyAction::Yield(bytes) => {
                frames = bytes;
                break;
            }
            other => panic!("expected bytes, got {:?}", other),
        }
    }
    assert!(admitted);
    let mut expected = Vec::new();
    for i in 0..QUEUE_CAPACITY {
        expected.extend_from_slice(&[0x82, 1, i as u8]);
    }
    expected.extend_from_slice(&[0x81, 4, b'l', b'a', b's', b't']);
    assert_eq!(frames, expected);
}
