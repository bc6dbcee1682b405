use std::time::Duration;

use async_channel::{RecvError, TryRecvError};
use mosquitto_rs::{
    Call, Client, ClientOption, ConnectionStatus, Error, Event, Mosq, MosqOption, Progress,
    ProtocolVersion, QoS, ReasonCode, Setup, MOSQ_ERR_INVAL,
};

const NO_CONN: Error = Error::Mosq(4);

#[test]
fn setup_makes_then_starts() {
    let (_, setup) = Client::with_id("me", true);
    assert_eq!(
        setup.call(),
        Call::CreateWithId { id: "me", clean_session: true }
    );
    assert_eq!(setup.reply(Err(NO_CONN)), Progress::Failed(NO_CONN));
    assert_eq!(setup.reply(Ok(())), Progress::Next(Setup::Start));
    assert_eq!(Setup::Start.call(), Call::StartLoopThread);
    assert_eq!(Setup::Start.reply(Ok(())), Progress::Ready);
    assert_eq!(Setup::Start.reply(Err(NO_CONN)), Progress::Failed(NO_CONN));

    let (_, setup) = Client::with_auto_id();
    assert_eq!(setup.call(), Call::CreateWithAutoId);
}

#[test]
fn connect_publish_and_receive() {
    let (mut client, _) = Client::with_auto_id();
    let interval = Duration::from_secs(5);
    let (call, rx) = client.connect("localhost", 1883, interval, None);
    assert_eq!(
        call,
        Call::Connect {
            host: "localhost",
            port: 1883,
            keep_alive_interval: interval,
            bind_address: None,
        }
    );
    let rx = Client::attempted(Ok(()), rx).unwrap();
    let mut mosq = Mosq::new();
    client.get_callbacks().on_connect(&mut mosq, ConnectionStatus(0));
    assert_eq!(Client::connected(rx.recv_blocking()), Ok(ConnectionStatus(0)));

    let subscriptions = client.subscriber().unwrap();
    assert!(client.subscriber().is_none());

    assert_eq!(
        client.subscribe("test", QoS::AtMostOnce),
        Call::Subscribe { pattern: "test", qos: QoS::AtMostOnce }
    );
    let rx = client.requested(Ok(1)).unwrap();
    client.get_callbacks().on_subscribe(&mut mosq, 1, &[QoS::AtMostOnce]);
    assert_eq!(Client::subscribed(rx.recv_blocking()), Ok(()));

    assert_eq!(
        client.publish("test", b"woot", QoS::AtMostOnce, false),
        Call::Publish { topic: "test", payload: b"woot", qos: QoS::AtMostOnce, retain: false }
    );
    let rx = client.requested(Ok(2)).unwrap();
    client.get_callbacks().on_publish(&mut mosq, 2);
    assert_eq!(Client::published(rx.recv_blocking()), Ok(2));

    client.get_callbacks().on_message(
        &mut mosq,
        3,
        "test".to_string(),
        b"woot",
        QoS::AtMostOnce,
        false,
    );
    assert_eq!(
        client.unsubscribe("test"),
        Call::Unsubscribe { pattern: "test" }
    );
    let rx = client.requested(Ok(4)).unwrap();
    client.get_callbacks().on_unsubscribe(&mut mosq, 4);
    assert_eq!(Client::unsubscribed(rx.recv_blocking()), Ok(()));

    assert!(mosq.into_calls().is_empty());
    assert!(subscriptions.try_recv() == Ok(Event::Connected(ConnectionStatus(0))));
    match subscriptions.try_recv() {
        Ok(Event::Message(msg)) => assert_eq!(msg.payload, b"woot"),
        _ => panic!("no message"),
    }
}

#[test]
fn rejected_connection() {
    assert_eq!(
        Client::connected(Ok(ConnectionStatus(5))),
        Err(Error::RejectedConnection(ConnectionStatus(5)))
    );
    assert_eq!(
        Client::connected(Ok(ConnectionStatus(-1))),
        Err(Error::RejectedConnection(ConnectionStatus(-1)))
    );
    assert!(!ConnectionStatus(5).is_successful());
    assert!(ConnectionStatus(0).is_successful());
}

#[test]
fn failed_calls_are_reported() {
    let (mut client, _) = Client::with_auto_id();
    let (_, rx) = client.connect("h", 1, Duration::from_secs(9), Some("eth0"));
    assert_eq!(Client::attempted(Err(NO_CONN), rx).err(), Some(NO_CONN));
    assert_eq!(client.requested(Err(NO_CONN)).err(), Some(NO_CONN));
}

#[test]
fn given_up_waits_are_invalid() {
    let invalid = Error::Mosq(MOSQ_ERR_INVAL);
    assert_eq!(invalid, Error::Mosq(3));
    assert_eq!(Client::connected(Err(RecvError)), Err(invalid));
    assert_eq!(Client::published(Err(RecvError)), Err(invalid));
    assert_eq!(Client::subscribed(Err(RecvError)), Err(invalid));
    assert_eq!(Client::unsubscribed(Err(RecvError)), Err(invalid));

    let (mut client, _) = Client::with_auto_id();
    let rx = client.requested(Ok(8)).unwrap();
    let mut mosq = Mosq::new();
    client.get_callbacks().on_disconnect(&mut mosq, ReasonCode(7));
    assert_eq!(Client::published(rx.recv_blocking()), Err(invalid));
}

#[test]
fn later_connection_attempt_takes_over() {
    let (mut client, _) = Client::with_auto_id();
    let (_, earlier) = client.connect("h", 1, Duration::from_secs(9), None);
    let (_, later) = client.connect("h", 1, Duration::from_secs(9), None);
    assert_eq!(earlier.try_recv(), Err(TryRecvError::Closed));
    let mut mosq = Mosq::new();
    client.get_callbacks().on_connect(&mut mosq, ConnectionStatus(0));
    assert_eq!(later.try_recv(), Ok(ConnectionStatus(0)));
}

#[test]
fn options() {
    let (client, _) = Client::with_auto_id();
    let int = |option, number| Call::SetIntOption { option, number };
    let text = |option, text| Call::SetStringOption { option, text };
    let cases = [
        (
            ClientOption::ProtocolVersion(ProtocolVersion::V31),
            int(MosqOption::ProtocolVersion, 3),
        ),
        (
            ClientOption::ProtocolVersion(ProtocolVersion::V311),
            int(MosqOption::ProtocolVersion, 4),
        ),
        (
            ClientOption::ProtocolVersion(ProtocolVersion::V5),
            int(MosqOption::ProtocolVersion, 5),
        ),
        (ClientOption::ReceiveMaximum(65535), int(MosqOption::ReceiveMaximum, 65535)),
        (ClientOption::SendMaximum(20), int(MosqOption::SendMaximum, 20)),
        (ClientOption::OcspRequired(true), int(MosqOption::TlsOcspRequired, 1)),
        (ClientOption::OcspRequired(false), int(MosqOption::TlsOcspRequired, 0)),
        (ClientOption::TlsEngine("e"), text(MosqOption::TlsEngine, "e")),
        (ClientOption::TlsKeyForm("pem"), text(MosqOption::TlsKeyForm, "pem")),
        (ClientOption::TlsKPassSha1("0a"), text(MosqOption::TlsEngineKpassSha1, "0a")),
        (ClientOption::TlsALPN("mqtt"), text(MosqOption::TlsAlpn, "mqtt")),
    ];
    for (option, call) in cases.iter() {
        assert_eq!(client.set_option(option), *call);
    }
    // No two of them are set by the same call.
    for (i, (_, one)) in cases.iter().enumerate() {
        for (_, other) in cases.iter().skip(i + 1) {
            assert_ne!(one, other);
        }
    }
    assert_eq!(ProtocolVersion::default(), ProtocolVersion::V31);
}

#[test]
fn configuration_calls() {
    let (client, _) = Client::with_auto_id();
    assert_eq!(
        client.set_username_and_password(Some("u"), None),
        Call::SetUsernameAndPassword { username: Some("u"), password: None }
    );
    assert_eq!(
        client.set_last_will("t", b"bye", QoS::AtLeastOnce, true),
        Call::SetLastWill { topic: "t", payload: b"bye", qos: QoS::AtLeastOnce, retain: true }
    );
    assert_eq!(client.clear_last_will(), Call::ClearLastWill);
    assert_ne!(
        client.clear_last_will(),
        client.set_last_will("", b"", QoS::AtMostOnce, false)
    );
    assert_eq!(
        client.disable_tls_hostname_validation(),
        Call::SetTlsInsecure { insecure: true }
    );
    assert_eq!(
        client.enable_tls_hostname_validation(),
        Call::SetTlsInsecure { insecure: false }
    );
    let second = Duration::from_secs(1);
    let minute = Duration::from_secs(60);
    assert_eq!(
        client.set_reconnect_delay(second, minute, true),
        Call::SetReconnectDelay {
            reconnect_delay: second,
            max_reconnect_delay: minute,
            use_exponential_backoff: true,
        }
    );
    let tls = client.configure_tls(Some("ca"), None::<&str>, Some("cert"), Some("key"), Some(1));
    assert_eq!(tls.ca_file, Some("ca"));
    assert_eq!(tls.ca_path, None);
    assert_eq!(tls.cert_file, Some("cert"));
    assert_eq!(tls.key_file, Some("key"));
    assert_eq!(tls.pw_callback, Some(1));
}

#[test]
fn disconnect_reasons() {
    assert!(!ReasonCode(0).is_unexpected_disconnect());
    assert!(ReasonCode(7).is_unexpected_disconnect());
    assert!(ReasonCode(-1).is_unexpected_disconnect());
}
