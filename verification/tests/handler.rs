use async_channel::TryRecvError;
use mosquitto_rs::{
    Answer, Call, ConnectionStatus, Event, Handler, Message, Mosq, QoS, ReasonCode,
};

#[test]
fn events_arrive_in_order() {
    let mut handler = Handler::new();
    let feed = handler.subscriber().unwrap();
    let mut mosq = Mosq::new();

    handler.on_connect(&mut mosq, ConnectionStatus(0));
    handler.on_message(
        &mut mosq,
        7,
        "topic".to_string(),
        b"woot",
        QoS::AtLeastOnce,
        true,
    );
    handler.on_disconnect(&mut mosq, ReasonCode(5));

    assert!(mosq.into_calls().is_empty());
    assert!(feed.try_recv() == Ok(Event::Connected(ConnectionStatus(0))));
    assert!(
        feed.try_recv()
            == Ok(Event::Message(Message {
                topic: "topic".to_string(),
                payload: b"woot".to_vec(),
                qos: QoS::AtLeastOnce,
                retain: true,
                mid: 7,
            }))
    );
    assert!(feed.try_recv() == Ok(Event::Disconnected(ReasonCode(5))));
    assert!(feed.try_recv() == Err(TryRecvError::Empty));
}

#[test]
fn events_wait_for_their_reader() {
    let mut handler = Handler::new();
    let mut mosq = Mosq::new();
    handler.dispatch_event(&mut mosq, Event::Connected(ConnectionStatus(0)));
    assert!(mosq.into_calls().is_empty());
    let feed = handler.subscriber().unwrap();
    assert!(feed.try_recv() == Ok(Event::Connected(ConnectionStatus(0))));
}

#[test]
fn subscriber_only_once() {
    let mut handler = Handler::new();
    let feed = handler.subscriber();
    assert!(feed.is_some());
    assert!(handler.subscriber().is_none());
    let mut mosq = Mosq::new();
    handler.on_connect(&mut mosq, ConnectionStatus(0));
    assert!(handler.subscriber().is_none());
}

#[test]
fn lost_reader_ends_the_session() {
    let mut handler = Handler::new();
    drop(handler.subscriber());
    let mut mosq = Mosq::new();
    handler.dispatch_event(&mut mosq, Event::Connected(ConnectionStatus(0)));
    assert_eq!(mosq.into_calls(), vec![Call::Disconnect]);
}

#[test]
fn feed_stays_open_after_unexpected_disconnect() {
    let mut handler = Handler::new();
    let feed = handler.subscriber().unwrap();
    let mut mosq = Mosq::new();
    handler.on_disconnect(&mut mosq, ReasonCode(7));
    handler.on_connect(&mut mosq, ConnectionStatus(0));
    assert!(mosq.into_calls().is_empty());
    assert!(feed.try_recv() == Ok(Event::Disconnected(ReasonCode(7))));
    assert!(feed.try_recv() == Ok(Event::Connected(ConnectionStatus(0))));
    assert!(feed.try_recv() == Err(TryRecvError::Empty));
}

#[test]
fn feed_is_over_after_requested_disconnect() {
    let mut handler = Handler::new();
    let feed = handler.subscriber().unwrap();
    let mut mosq = Mosq::new();
    handler.on_disconnect(&mut mosq, ReasonCode(0));
    assert!(mosq.into_calls().is_empty());
    assert!(feed.try_recv() == Ok(Event::Disconnected(ReasonCode(0))));
    assert!(feed.try_recv() == Err(TryRecvError::Closed));

    let mut mosq = Mosq::new();
    handler.on_connect(&mut mosq, ConnectionStatus(0));
    handler.on_message(&mut mosq, 1, "t".to_string(), b"", QoS::AtMostOnce, false);
    assert_eq!(mosq.into_calls(), vec![Call::Disconnect, Call::Disconnect]);
    assert!(feed.try_recv() == Err(TryRecvError::Closed));
}

#[test]
fn acknowledgements_reach_their_requests() {
    let mut handler = Handler::new();
    let first = handler.await_completion(1);
    let second = handler.await_completion(2);
    let third = handler.await_completion(3);
    let mut mosq = Mosq::new();

    handler.on_subscribe(&mut mosq, 2, &[QoS::AtMostOnce]);
    assert!(first.try_recv().is_err());
    assert_eq!(second.try_recv(), Ok(2));
    assert_eq!(second.try_recv(), Err(TryRecvError::Closed));

    handler.on_publish(&mut mosq, 1);
    assert_eq!(first.try_recv(), Ok(1));

    handler.on_unsubscribe(&mut mosq, 3);
    assert_eq!(third.try_recv(), Ok(3));
    assert!(mosq.into_calls().is_empty());
}

#[test]
fn stray_acknowledgement_ends_the_session() {
    let mut handler = Handler::new();
    let mut mosq = Mosq::new();
    handler.on_publish(&mut mosq, 9);
    handler.on_subscribe(&mut mosq, 9, &[]);
    handler.on_unsubscribe(&mut mosq, 9);
    assert_eq!(
        mosq.into_calls(),
        vec![Call::Disconnect, Call::Disconnect, Call::Disconnect]
    );

    // A second acknowledgement of the same request is as stray.
    let rx = handler.await_completion(9);
    let mut mosq = Mosq::new();
    handler.complete(&mut mosq, 9);
    assert!(mosq.into_calls().is_empty());
    assert_eq!(rx.try_recv(), Ok(9));
    let mut mosq = Mosq::new();
    handler.complete(&mut mosq, 9);
    assert_eq!(mosq.into_calls(), vec![Call::Disconnect]);
}

#[test]
fn abandoned_request_ends_the_session() {
    let mut handler = Handler::new();
    drop(handler.await_completion(5));
    let mut mosq = Mosq::new();
    handler.on_publish(&mut mosq, 5);
    assert_eq!(mosq.into_calls(), vec![Call::Disconnect]);
}

#[test]
fn disconnect_gives_up_requests() {
    let mut handler = Handler::new();
    let rx = handler.await_completion(5);
    let mut mosq = Mosq::new();
    handler.on_disconnect(&mut mosq, ReasonCode(7));
    assert!(mosq.into_calls().is_empty());
    assert_eq!(rx.try_recv(), Err(TryRecvError::Closed));
    let mut mosq = Mosq::new();
    handler.on_publish(&mut mosq, 5);
    assert_eq!(mosq.into_calls(), vec![Call::Disconnect]);
}

#[test]
fn request_id_is_taken_over() {
    let mut handler = Handler::new();
    let earlier = handler.await_completion(5);
    let later = handler.await_completion(5);
    assert_eq!(earlier.try_recv(), Err(TryRecvError::Closed));
    let mut mosq = Mosq::new();
    handler.on_publish(&mut mosq, 5);
    assert_eq!(later.try_recv(), Ok(5));
}

#[test]
fn connection_is_answered_once() {
    let mut handler = Handler::new();
    let feed = handler.subscriber().unwrap();
    let rx = handler.await_connection();
    let mut mosq = Mosq::new();
    handler.on_connect(&mut mosq, ConnectionStatus(4));
    assert_eq!(rx.try_recv(), Ok(ConnectionStatus(4)));
    assert_eq!(rx.try_recv(), Err(TryRecvError::Closed));
    assert!(feed.try_recv() == Ok(Event::Connected(ConnectionStatus(4))));

    handler.on_connect(&mut mosq, ConnectionStatus(0));
    assert!(feed.try_recv() == Ok(Event::Connected(ConnectionStatus(0))));
    assert!(mosq.into_calls().is_empty());
}

#[test]
fn abandoned_connection_ends_the_session() {
    let mut handler = Handler::new();
    let feed = handler.subscriber().unwrap();
    drop(handler.await_connection());
    let mut mosq = Mosq::new();
    handler.on_connect(&mut mosq, ConnectionStatus(0));
    assert_eq!(mosq.into_calls(), vec![Call::Disconnect]);
    assert!(feed.try_recv() == Ok(Event::Connected(ConnectionStatus(0))));

    // Neither the task nor the feed is there any more.
    drop(feed);
    drop(handler.await_connection());
    let mut mosq = Mosq::new();
    handler.on_connect(&mut mosq, ConnectionStatus(0));
    assert_eq!(mosq.into_calls(), vec![Call::Disconnect, Call::Disconnect]);
}

#[test]
fn settling() {
    let mut mosq = Mosq::new();
    mosq.settle(Answer::Taken);
    mosq.settle(Answer::Closed);
    mosq.settle(Answer::Full);
    mosq.disconnect();
    assert_eq!(
        mosq.into_calls(),
        vec![Call::Disconnect, Call::Disconnect, Call::Disconnect]
    );
}

#[test]
fn unclaimed_feed_takes_everything() {
    let mut handler = Handler::new();
    let mut mosq = Mosq::new();
    for mid in 0..5000 {
        handler.on_message(&mut mosq, mid, "t".to_string(), b"", QoS::AtMostOnce, false);
    }
    assert!(mosq.into_calls().is_empty());
    let feed = handler.subscriber().unwrap();
    for mid in 0..5000 {
        match feed.try_recv() {
            Ok(Event::Message(msg)) => assert_eq!(msg.mid, mid),
            _ => panic!("no message"),
        }
    }
    assert!(feed.try_recv() == Err(TryRecvError::Empty));
}

#[test]
fn every_event_after_a_lost_reader_ends_the_session() {
    let mut handler = Handler::new();
    drop(handler.subscriber());
    let mut mosq = Mosq::new();
    handler.on_disconnect(&mut mosq, ReasonCode(7));
    handler.on_connect(&mut mosq, ConnectionStatus(0));
    handler.on_message(&mut mosq, 1, "t".to_string(), b"", QoS::AtMostOnce, false);
    assert_eq!(
        mosq.into_calls(),
        vec![Call::Disconnect, Call::Disconnect, Call::Disconnect]
    );
}

#[test]
fn connection_in_two_halves() {
    let mut handler = Handler::new();
    let feed = handler.subscriber().unwrap();
    drop(handler.await_connection());
    let mut mosq = Mosq::new();
    handler.answer_connection(&mut mosq, ConnectionStatus(0));
    assert_eq!(mosq.into_calls(), vec![Call::Disconnect]);
    assert!(feed.try_recv() == Err(TryRecvError::Empty));
    let mut mosq = Mosq::new();
    handler.dispatch_event(&mut mosq, Event::Connected(ConnectionStatus(0)));
    assert!(mosq.into_calls().is_empty());
    assert!(feed.try_recv() == Ok(Event::Connected(ConnectionStatus(0))));
}

#[test]
fn disconnect_gives_up_every_request() {
    let mut handler = Handler::new();
    let waiting: Vec<_> = (1..=100).map(|mid| handler.await_completion(mid)).collect();
    let mut mosq = Mosq::new();
    handler.on_disconnect(&mut mosq, ReasonCode(0));
    assert!(mosq.into_calls().is_empty());
    for rx in waiting {
        assert_eq!(rx.try_recv(), Err(TryRecvError::Closed));
    }
}

#[test]
fn granted_levels_have_no_influence() {
    for granted in [&[][..], &[QoS::ExactlyOnce][..], &[QoS::AtMostOnce, QoS::AtLeastOnce][..]] {
        let mut handler = Handler::new();
        let rx = handler.await_completion(6);
        let mut mosq = Mosq::new();
        handler.on_subscribe(&mut mosq, 6, granted);
        assert_eq!(rx.try_recv(), Ok(6));
        assert!(mosq.into_calls().is_empty());
    }
}
