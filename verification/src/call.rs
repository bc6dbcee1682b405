//! The calls that the client makes into the mosquitto library.
use std::time::Duration;
use vstd::prelude::*;

use crate::channel::Answer;
use crate::types::QoS;

verus! {

/// An option of a mosquitto session.
#[derive(Debug, Copy, Clone, Eq, PartialEq, Structural)]
pub enum MosqOption {
    ProtocolVersion,
    ReceiveMaximum,
    SendMaximum,
    TlsOcspRequired,
    TlsEngine,
    TlsKeyForm,
    TlsEngineKpassSha1,
    TlsAlpn,
}

/// A call into the mosquitto library.
#[derive(Debug, Copy, Clone, Eq, PartialEq)]
pub enum Call<'a> {
    /// Make a session with the given id.
    CreateWithId { id: &'a str, clean_session: bool },
    /// Make a session with a random id.
    CreateWithAutoId,
    /// Start the thread that runs the session.
    StartLoopThread,
    /// Configure the credentials of the session.
    SetUsernameAndPassword { username: Option<&'a str>, password: Option<&'a str> },
    /// Connect to a broker.
    Connect {
        host: &'a str,
        port: i32,
        keep_alive_interval: Duration,
        bind_address: Option<&'a str>,
    },
    /// End the session.
    Disconnect,
    /// Publish a message; the library assigns it a message id.
    Publish { topic: &'a str, payload: &'a [u8], qos: QoS, retain: bool },
    /// Subscribe to a topic pattern; the library assigns the request a message id.
    Subscribe { pattern: &'a str, qos: QoS },
    /// Unsubscribe from a topic pattern; the library assigns the request a
    /// message id.
    Unsubscribe { pattern: &'a str },
    /// Configure the message that the broker publishes when the session is lost.
    SetLastWill { topic: &'a str, payload: &'a [u8], qos: QoS, retain: bool },
    /// Remove the configured will.
    ClearLastWill,
    /// Set an option that takes a number.
    SetIntOption { option: MosqOption, number: i32 },
    /// Set an option that takes text.
    SetStringOption { option: MosqOption, text: &'a str },
    /// Choose whether the host name in the server's certificate is ignored.
    SetTlsInsecure { insecure: bool },
    /// Configure the delay between attempts to reconnect.
    SetReconnectDelay {
        reconnect_delay: Duration,
        max_reconnect_delay: Duration,
        use_exponential_backoff: bool,
    },
}

/// A session as the callbacks see it: the calls that they ask for are
/// collected here in order, to be made when the callback has returned.
/// [`on_connect`](crate::Handler::on_connect) comes in two halves, so that what
/// the first asks for can be made before the second begins.
pub struct Mosq {
    calls: Vec<Call<'static>>,
}

impl View for Mosq {
    type V = Seq<Call<'static>>;

    closed spec fn view(&self) -> Seq<Call<'static>> {
        self.calls@
    }
}

/// The calls that have been asked for once a channel has answered an offer: a
/// message that was not taken costs the session its connection.
pub open spec fn settled(calls: Seq<Call<'static>>, answer: Answer) -> Seq<Call<'static>> {
    if answer is Taken {
        calls
    } else {
        calls.push(Call::Disconnect)
    }
}

impl Mosq {
    /// A session of which nothing has been asked yet.
    pub fn new() -> (mosq: Self)
        ensures
            mosq@ == Seq::<Call<'static>>::empty(),
    {
        Mosq { calls: Vec::new() }
    }

    /// Asks for the session to be ended.
    pub fn disconnect(&mut self)
        ensures
            final(self)@ == old(self)@.push(Call::Disconnect),
    {
        self.calls.push(Call::Disconnect);
    }

    /// Ends the session unless a message that was offered to a channel was
    /// taken.
    pub fn settle(&mut self, answer: Answer)
        ensures
            final(self)@ == settled(old(self)@, answer),
    {
        match answer {
            Answer::Taken => {},
            Answer::Full | Answer::Closed => {
                self.disconnect();
            },
        }
    }

    /// The calls that have been asked for, oldest first.
    pub fn into_calls(self) -> (calls: Vec<Call<'static>>)
        ensures
            calls@ == self@,
    {
        self.calls
    }
}

} // verus!
