use mosquitto_rs::render::{append_signed_decimal, hex_list_text};
use mosquitto_rs::{ConnectionStatus, Event, Message, PayloadPrinter, QoS, ReasonCode};

#[test]
fn message_debug() {
    let msg_utf8 = Message {
        topic: "topic".to_string(),
        payload: b"hello".to_vec(),
        qos: QoS::AtMostOnce,
        retain: false,
        mid: 1,
    };
    assert_eq!(
        msg_utf8.debug(),
        "Message { topic: \"topic\", payload: \"hello\", \
            qos: AtMostOnce, retain: false, mid: 1 }"
    );

    let msg_bin = Message {
        topic: "topic".to_string(),
        payload: vec![0x01, 0xa0, 0xc0],
        qos: QoS::AtMostOnce,
        retain: false,
        mid: 1,
    };
    assert_eq!(
        msg_bin.debug(),
        "Message { topic: \"topic\", payload: [01, A0, C0], \
            qos: AtMostOnce, retain: false, mid: 1 }"
    );
}

#[test]
fn message_debug_shows_every_field() {
    let msg = Message {
        topic: "a\"b\n".to_string(),
        payload: "gr\u{fc}n\t".as_bytes().to_vec(),
        qos: QoS::ExactlyOnce,
        retain: true,
        mid: -2147483648,
    };
    assert_eq!(
        msg.debug(),
        "Message { topic: \"a\\\"b\\n\", payload: \"gr\u{fc}n\\t\", \
            qos: ExactlyOnce, retain: true, mid: -2147483648 }"
    );
    assert_eq!(
        msg.debug_with("T", "P"),
        "Message { topic: T, payload: P, qos: ExactlyOnce, retain: true, mid: -2147483648 }"
    );
}

#[test]
fn payload_text_and_bytes() {
    assert_eq!(PayloadPrinter(b"").debug(), "\"\"");
    assert_eq!(PayloadPrinter(b"plain").debug(), "\"plain\"");
    // A truncated sequence is not text.
    assert_eq!(PayloadPrinter(&[0x41, 0xe2, 0x82]).debug(), "[41, E2, 82]");
    assert_eq!(PayloadPrinter(&[0xff]).debug(), "[FF]");
    // A payload made from text is shown as that text.
    let text = "\u{20ac} 5";
    assert_eq!(PayloadPrinter(text.as_bytes()).debug(), format!("{:?}", text));
}

#[test]
fn hex_lists() {
    assert_eq!(hex_list_text(&[]), "[]");
    assert_eq!(hex_list_text(&[0x00]), "[00]");
    let all: Vec<u8> = (0..=255).collect();
    assert_eq!(hex_list_text(&all), format!("{:02X?}", all));
}

#[test]
fn decimals() {
    for n in [0, 7, 9, 10, 99, 100, 65535, 2147483647, -1, -10, -2147483648] {
        let mut text = "=".to_string();
        append_signed_decimal(&mut text, n);
        assert_eq!(text, format!("={}", n));
    }
}

#[test]
fn message_default() {
    let msg = Message::default();
    assert_eq!(msg.topic, "");
    assert!(msg.payload.is_empty());
    assert_eq!(msg.qos, QoS::default());
    assert_eq!(msg.qos, QoS::AtMostOnce);
    assert!(!msg.retain);
    assert_eq!(msg.mid, 0);
}

#[test]
fn clones_are_equal() {
    let msg = Message {
        topic: "t".to_string(),
        payload: vec![1, 2],
        qos: QoS::AtLeastOnce,
        retain: true,
        mid: 4,
    };
    assert!(msg.clone() == msg);
    let event = Event::Message(msg);
    assert!(event.clone() == event);
}

#[test]
fn qos_names() {
    for qos in [QoS::AtMostOnce, QoS::AtLeastOnce, QoS::ExactlyOnce] {
        assert_eq!(qos.name(), format!("{:?}", qos));
    }
}

#[test]
fn event_debug() {
    let msg = Message {
        topic: "topic".to_string(),
        payload: b"hello".to_vec(),
        qos: QoS::AtMostOnce,
        retain: false,
        mid: 1,
    };
    assert_eq!(
        Event::Message(msg).debug(),
        "Message(Message { topic: \"topic\", payload: \"hello\", \
            qos: AtMostOnce, retain: false, mid: 1 })"
    );
    assert_eq!(
        Event::Connected(ConnectionStatus(0)).debug(),
        "Connected(ConnectionStatus(0))"
    );
    assert_eq!(
        Event::Disconnected(ReasonCode(-7)).debug(),
        format!("Disconnected({:?})", ReasonCode(-7))
    );
}

#[test]
fn different_payloads_are_shown_apart() {
    let payloads: [&[u8]; 9] = [
        b"",
        b"FF",
        b"[FF]",
        b"\"[FF]\"",
        b"\\n",
        b"\n",
        &[0xff],
        &[0xff, 0xff],
        &[0xfe],
    ];
    for (i, one) in payloads.iter().enumerate() {
        for (j, other) in payloads.iter().enumerate() {
            let alike = PayloadPrinter(one).debug() == PayloadPrinter(other).debug();
            assert_eq!(alike, i == j);
        }
    }
}
