//! Messages and the other events that a session reports.
use vstd::prelude::*;
use vstd::string::*;

use crate::render::{append_signed_decimal, hex_list_text, quoted_text, utf8_text};
use crate::types::{ConnectionStatus, MessageId, QoS, ReasonCode};

verus! {

/// Represents a received message that matches one or
/// more of the subscription topic patterns on a client.
#[derive(Eq, PartialEq)]
pub struct Message {
    /// The destination topic
    pub topic: String,
    /// The data payload bytes
    pub payload: Vec<u8>,
    /// The qos level at which the message was sent
    pub qos: QoS,
    /// Whether the message is a retained message.
    /// The broker will preserve the last retained
    /// message and send it to a subscriber at subscribe
    /// time.
    pub retain: bool,
    /// The message id
    pub mid: MessageId,
}

/// What a [`Message`] says, apart from where its text and bytes are stored.
pub struct MessageView {
    pub topic: Seq<char>,
    pub payload: Seq<u8>,
    pub qos: QoS,
    pub retain: bool,
    pub mid: MessageId,
}

impl View for Message {
    type V = MessageView;

    open spec fn view(&self) -> MessageView {
        MessageView {
            topic: self.topic@,
            payload: self.payload@,
            qos: self.qos,
            retain: self.retain,
            mid: self.mid,
        }
    }
}

impl Clone for Message {
    fn clone(&self) -> (message: Self)
        ensures
            message@ == self@,
    {
        Message {
            topic: self.topic.clone(),
            payload: self.payload.clone(),
            qos: self.qos,
            retain: self.retain,
            mid: self.mid,
        }
    }
}

impl Default for Message {
    fn default() -> (message: Self)
        ensures
            message@ == (MessageView {
                topic: Seq::empty(),
                payload: Seq::empty(),
                qos: QoS::AtMostOnce,
                retain: false,
                mid: 0,
            }),
    {
        Message {
            topic: String::new(),
            payload: Vec::new(),
            qos: QoS::AtMostOnce,
            retain: false,
            mid: 0,
        }
    }
}

/// Shows a payload as text if it is text.
pub struct PayloadPrinter<'a>(pub &'a [u8]);

/// What a developer is shown of a payload: its text if it is valid UTF-8, and
/// its bytes otherwise.
pub open spec fn shown_payload(payload: Seq<u8>) -> Seq<char> {
    if vstd::utf8::valid_utf8(payload) {
        crate::render::quoted(vstd::utf8::decode_utf8(payload))
    } else {
        crate::render::hex_list(payload)
    }
}

impl<'a> PayloadPrinter<'a> {
    /// Returns what a developer is shown of the payload.
    pub fn debug(&self) -> (shown: String)
        ensures
            shown@ == shown_payload(self.0@),
    {
        match utf8_text(self.0) {
            Some(text) => quoted_text(text),
            None => hex_list_text(self.0),
        }
    }
}

impl MessageView {
    /// What a developer is shown of the message, given what is shown of its
    /// topic and of its payload.
    pub open spec fn shown_with(self, topic: Seq<char>, payload: Seq<char>) -> Seq<char> {
        let retain = if self.retain {
            "true"@
        } else {
            "false"@
        };
        "Message { topic: "@ + topic + ", payload: "@ + payload + ", qos: "@ + self.qos.spec_name()
            + ", retain: "@ + retain + ", mid: "@ + crate::render::signed_decimal(self.mid as int)
            + " }"@
    }

    /// What a developer is shown of the message.
    pub open spec fn shown(self) -> Seq<char> {
        self.shown_with(crate::render::quoted(self.topic), shown_payload(self.payload))
    }
}

impl Message {
    /// Returns what a developer is shown of the message, given what is shown
    /// of its topic and of its payload.
    pub fn debug_with(&self, topic: &str, payload: &str) -> (shown: String)
        ensures
            shown@ == self@.shown_with(topic@, payload@),
    {
        let mut shown = String::new();
        shown.append("Message { topic: ");
        assert(shown@ =~= "Message { topic: "@);
        shown.append(topic);
        shown.append(", payload: ");
        shown.append(payload);
        shown.append(", qos: ");
        shown.append(self.qos.name());
        shown.append(", retain: ");
        shown.append(if self.retain {
            "true"
        } else {
            "false"
        });
        shown.append(", mid: ");
        append_signed_decimal(&mut shown, self.mid);
        shown.append(" }");
        shown
    }

    /// Returns what a developer is shown of the message: its fields by name,
    /// with the payload as text if it is text.
    pub fn debug(&self) -> (shown: String)
        ensures
            shown@ == self@.shown(),
    {
        let topic = quoted_text(self.topic.as_str());
        let payload = PayloadPrinter(self.payload.as_slice()).debug();
        self.debug_with(topic.as_str(), payload.as_str())
    }
}

/// An event received either from the broker, or from
/// the thread that is managing the connection to the
/// broker.
#[derive(Eq, PartialEq)]
pub enum Event {
    /// A message was received from one of your subscriptions.
    Message(Message),
    /// The session was (re)connected.
    /// You will need to (re-)subscribe to topics of
    /// interest.
    Connected(ConnectionStatus),
    /// The session was disconnected.
    /// For unexpected disconnects, the client will
    /// automatically try to reconnect.
    Disconnected(ReasonCode),
}

/// What an [`Event`] says.
pub enum EventView {
    Message(MessageView),
    Connected(ConnectionStatus),
    Disconnected(ReasonCode),
}

impl View for Event {
    type V = EventView;

    open spec fn view(&self) -> EventView {
        match self {
            Event::Message(message) => EventView::Message(message@),
            Event::Connected(status) => EventView::Connected(*status),
            Event::Disconnected(reason) => EventView::Disconnected(*reason),
        }
    }
}

impl EventView {
    /// What a developer is shown of the event.
    pub open spec fn shown(self) -> Seq<char> {
        match self {
            EventView::Message(message) => "Message("@ + message.shown() + ")"@,
            EventView::Connected(status) => "Connected(ConnectionStatus("@
                + crate::render::signed_decimal(status.0 as int) + "))"@,
            EventView::Disconnected(reason) => "Disconnected(ReasonCode("@
                + crate::render::signed_decimal(reason.0 as int) + "))"@,
        }
    }
}

impl Event {
    /// Returns what a developer is shown of the event: its kind, with what is
    /// shown of the message, or with the code.
    pub fn debug(&self) -> (shown: String)
        ensures
            shown@ == self@.shown(),
    {
        let mut shown = String::new();
        match self {
            Event::Message(message) => {
                shown.append("Message(");
                assert(shown@ =~= "Message("@);
                let text = message.debug();
                shown.append(text.as_str());
                shown.append(")");
            },
            Event::Connected(status) => {
                shown.append("Connected(ConnectionStatus(");
                assert(shown@ =~= "Connected(ConnectionStatus("@);
                append_signed_decimal(&mut shown, status.0);
                shown.append("))");
            },
            Event::Disconnected(reason) => {
                shown.append("Disconnected(ReasonCode(");
                assert(shown@ =~= "Disconnected(ReasonCode("@);
                append_signed_decimal(&mut shown, reason.0);
                shown.append("))");
            },
        }
        shown
    }
}

impl Clone for Event {
    fn clone(&self) -> (event: Self)
        ensures
            event@ == self@,
    {
        match self {
            Event::Message(message) => Event::Message(message.clone()),
            Event::Connected(status) => Event::Connected(*status),
            Event::Disconnected(reason) => Event::Disconnected(*reason),
        }
    }
}

} // verus!
