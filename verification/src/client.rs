//! The client: what each of its operations asks of the mosquitto library, and
//! what it makes of the answer.
use std::time::Duration;

use async_channel::{Receiver, RecvError};
use vstd::prelude::*;

use crate::call::{Call, MosqOption};
use crate::handler::{Handler, HandlerView};
use crate::message::Event;
use crate::types::{ConnectionStatus, Error, MessageId, QoS, MOSQ_ERR_INVAL};

verus! {

/// The error of a receiver of `async_channel` whose channel is empty and
/// closed.
#[verifier::external_type_specification]
#[verifier::external_body]
pub struct ExRecvError(async_channel::RecvError);

/// The version of the MQTT protocol.
#[derive(Debug, Copy, Clone, Eq, PartialEq, Structural)]
pub enum ProtocolVersion {
    V31,
    V311,
    V5,
}

impl Default for ProtocolVersion {
    fn default() -> (version: Self)
        ensures
            version == ProtocolVersion::V31,
    {
        ProtocolVersion::V31
    }
}

impl ProtocolVersion {
    /// The number by which mosquitto knows the version.
    pub open spec fn spec_number(self) -> i32 {
        match self {
            ProtocolVersion::V31 => 3,
            ProtocolVersion::V311 => 4,
            ProtocolVersion::V5 => 5,
        }
    }

    /// Returns the number by which mosquitto knows the version.
    pub fn number(self) -> (number: i32)
        ensures
            number == self.spec_number(),
            self is V31 ==> number == 3,
            self is V311 ==> number == 4,
            self is V5 ==> number == 5,
    {
        match self {
            ProtocolVersion::V31 => 3,
            ProtocolVersion::V311 => 4,
            ProtocolVersion::V5 => 5,
        }
    }
}

/// An option of the client.
#[derive(Debug, Copy, Clone, Eq, PartialEq)]
pub enum ClientOption<'a> {
    /// Specifies the version of the MQTT protocol to be used.
    /// Defaults to ProtocolVersion::V31
    ProtocolVersion(ProtocolVersion),

    /// Value can be set between 1 and 65535 inclusive, and represents the maximum number of
    /// incoming QoS 1 and QoS 2 messages that this client wants to process at once. Defaults to
    /// 20. This option is not valid for MQTT v3.1 or v3.1.1 clients.  Note that if the
    /// MQTT_PROP_RECEIVE_MAXIMUM property is in the proplist passed to mosquitto_connect_v5(),
    /// then that property will override this option. Using this option is the recommended method
    /// however.
    ReceiveMaximum(u16),

    /// Value can be set between 1 and 65535 inclusive, and represents the maximum number of
    /// outgoing QoS 1 and QoS 2 messages that this client will attempt to have "in flight" at
    /// once. Defaults to 20.  This option is not valid for MQTT v3.1 or v3.1.1 clients.  Note that
    /// if the broker being connected to sends a MQTT_PROP_RECEIVE_MAXIMUM property that has a
    /// lower value than this option, then the broker provided value will be used.
    SendMaximum(u16),

    /// Set whether OCSP checking on TLS connections is required.
    /// The default is false for no checking
    OcspRequired(bool),

    /// Configure the client for TLS Engine support; set this to a TLS Engine ID
    /// to be used when creating TLS connections.
    TlsEngine(&'a str),

    /// Configure the client to treat the keyfile differently depending on its type.  Must be set
    /// before connecting.  Set as either "pem" or "engine", to determine from where the
    /// private key for a TLS connection will be obtained. Defaults to "pem", a normal private key
    /// file.
    TlsKeyForm(&'a str),

    /// Where the TLS Engine requires the use of a password to be accessed, this option allows a
    /// hex encoded SHA1 hash of the private key password to be passed to the engine directly.
    /// Must be set before connecting.
    TlsKPassSha1(&'a str),

    /// If the broker being connected to has multiple services available on a single TLS port, such
    /// as both MQTT and WebSockets, use this option to configure the ALPN option for the
    /// connection.
    TlsALPN(&'a str),
}

impl<'a> ClientOption<'a> {
    /// The call that sets the option.
    pub open spec fn setting(self) -> Call<'a> {
        match self {
            ClientOption::ProtocolVersion(version) => Call::SetIntOption {
                option: MosqOption::ProtocolVersion,
                number: version.spec_number(),
            },
            ClientOption::ReceiveMaximum(maximum) => Call::SetIntOption {
                option: MosqOption::ReceiveMaximum,
                number: maximum as i32,
            },
            ClientOption::SendMaximum(maximum) => Call::SetIntOption {
                option: MosqOption::SendMaximum,
                number: maximum as i32,
            },
            ClientOption::OcspRequired(required) => Call::SetIntOption {
                option: MosqOption::TlsOcspRequired,
                number: if required {
                    1
                } else {
                    0
                },
            },
            ClientOption::TlsEngine(engine) => Call::SetStringOption {
                option: MosqOption::TlsEngine,
                text: engine,
            },
            ClientOption::TlsKeyForm(form) => Call::SetStringOption {
                option: MosqOption::TlsKeyForm,
                text: form,
            },
            ClientOption::TlsKPassSha1(hash) => Call::SetStringOption {
                option: MosqOption::TlsEngineKpassSha1,
                text: hash,
            },
            ClientOption::TlsALPN(alpn) => Call::SetStringOption {
                option: MosqOption::TlsAlpn,
                text: alpn,
            },
        }
    }
}

/// The parameters of TLS, as they were given to
/// [`configure_tls`](Client::configure_tls).
pub struct TlsParameters<CAFILE, CAPATH, CERTFILE, KEYFILE, CALLBACK> {
    pub ca_file: Option<CAFILE>,
    pub ca_path: Option<CAPATH>,
    pub cert_file: Option<CERTFILE>,
    pub key_file: Option<KEYFILE>,
    pub pw_callback: Option<CALLBACK>,
}

/// How far the making of a client has got: it takes two calls, of which the
/// second is made only if the first has succeeded.
#[derive(Debug, Copy, Clone, Eq, PartialEq)]
pub enum Setup<'a> {
    /// The session is to be made, by this call.
    Create(Call<'a>),
    /// The session is there, and its thread is to be started.
    Start,
}

/// What comes after a call that a [`Setup`] asked for.
#[derive(Debug, Copy, Clone, Eq, PartialEq)]
pub enum Progress<'a> {
    /// There is another call to make.
    Next(Setup<'a>),
    /// The client can be used.
    Ready,
    /// The client cannot be made.
    Failed(Error),
}

impl<'a> Setup<'a> {
    /// The call to make next.
    pub open spec fn spec_call(self) -> Call<'a> {
        match self {
            Setup::Create(call) => call,
            Setup::Start => Call::StartLoopThread,
        }
    }

    /// Returns the call to make next.
    pub fn call(&self) -> (call: Call<'a>)
        ensures
            call == self.spec_call(),
    {
        match self {
            Setup::Create(call) => *call,
            Setup::Start => Call::StartLoopThread,
        }
    }

    /// What comes after the call that was to be made next.
    pub open spec fn spec_reply(self, reply: Result<(), Error>) -> Progress<'a> {
        match (reply, self) {
            (Err(error), _) => Progress::Failed(error),
            (Ok(()), Setup::Create(_)) => Progress::Next(Setup::Start),
            (Ok(()), Setup::Start) => Progress::Ready,
        }
    }

    /// Goes on with the answer to the call that was to be made next.
    pub fn reply(self, reply: Result<(), Error>) -> (progress: Progress<'a>)
        ensures
            progress == self.spec_reply(reply),
    {
        match reply {
            Err(error) => Progress::Failed(error),
            Ok(()) => match self {
                Setup::Create(_) => Progress::Next(Setup::Start),
                Setup::Start => Progress::Ready,
            },
        }
    }
}

/// A high-level, asynchronous mosquitto MQTT client
///
/// A client does not call the mosquitto library itself: its methods return the
/// [`Call`] to make, and take what came back.
pub struct Client {
    handler: Handler,
}

impl View for Client {
    type V = HandlerView;

    closed spec fn view(&self) -> HandlerView {
        self.handler@
    }
}

impl Client {
    /// Create a new client instance with the specified id.
    /// If clean_session is true, instructs the broker to clean all messages
    /// and subscriptions on disconnect.  Otherwise it will preserve them.
    ///
    /// The client can be used once the calls of the [`Setup`] have succeeded.
    pub fn with_id<'a>(id: &'a str, clean_session: bool) -> (made: (Self, Setup<'a>))
        ensures
            made.0@.is_fresh(),
            made.0@.well_formed(),
            made.1 == Setup::Create(Call::CreateWithId { id, clean_session }),
    {
        let client = Client { handler: Handler::new() };
        (client, Setup::Create(Call::CreateWithId { id, clean_session }))
    }

    /// Create a new client instance with a random client id
    ///
    /// The client can be used once the calls of the [`Setup`] have succeeded.
    pub fn with_auto_id() -> (made: (Self, Setup<'static>))
        ensures
            made.0@.is_fresh(),
            made.0@.well_formed(),
            made.1 == Setup::Create(Call::CreateWithAutoId),
    {
        let client = Client { handler: Handler::new() };
        (client, Setup::Create(Call::CreateWithAutoId))
    }

    /// The handler to which the session reports.
    pub fn get_callbacks(&mut self) -> (handler: &mut Handler)
        ensures
            handler@ == old(self)@,
            final(self)@ == final(handler)@,
    {
        &mut self.handler
    }

    /// Configure the client with an optional username and password.
    /// The default is `None` for both.
    /// Whether you need to configure these credentials depends on the
    /// broker configuration.
    pub fn set_username_and_password<'a>(
        &self,
        username: Option<&'a str>,
        password: Option<&'a str>,
    ) -> (call: Call<'a>)
        ensures
            call == (Call::SetUsernameAndPassword { username, password }),
    {
        Call::SetUsernameAndPassword { username, password }
    }

    /// Connect to the broker on the specified host and port.
    /// port is typically 1883 for mqtt, but it may be different
    /// in your environment.
    ///
    /// `keep_alive_interval` specifies the interval at which
    /// keepalive requests are sent.  mosquitto has a minimum value
    /// of 5 seconds for this and will generate an error if you use a smaller
    /// value.
    ///
    /// `bind_address` can be used to specify the outgoing interface
    /// for the connection.
    ///
    /// The answer to the call goes to [`attempted`](Client::attempted). The
    /// receiver gets the broker's answer to the CONNECT command, which
    /// [`connected`](Client::connected) judges.
    pub fn connect<'a>(
        &mut self,
        host: &'a str,
        port: i32,
        keep_alive_interval: Duration,
        bind_address: Option<&'a str>,
    ) -> (attempt: (Call<'a>, Receiver<ConnectionStatus>))
        ensures
            attempt.0 == (Call::Connect { host, port, keep_alive_interval, bind_address }),
            old(self)@.awaits_connection(final(self)@, attempt.1),
            old(self)@.well_formed() ==> final(self)@.well_formed(),
    {
        let rx = self.handler.await_connection();
        (Call::Connect { host, port, keep_alive_interval, bind_address }, rx)
    }

    /// Takes the answer to the call that makes a connection attempt: there is
    /// no answer of the broker to wait for if the call failed.
    pub fn attempted(reply: Result<(), Error>, rx: Receiver<ConnectionStatus>) -> (waiting: Result<
        Receiver<ConnectionStatus>,
        Error,
    >)
        ensures
            waiting == match reply {
                Ok(()) => Ok(rx),
                Err(error) => Err(error),
            },
    {
        match reply {
            Ok(()) => Ok(rx),
            Err(error) => Err(error),
        }
    }

    /// Judges the answer to a connection attempt.
    ///
    /// Yields the connection return code; if the status was rejected,
    /// then an Error::RejectedConnection() variant will be returned
    /// so that you don't have to manually check the success. An attempt that
    /// was given up yields an error too.
    pub fn connected(answer: Result<ConnectionStatus, RecvError>) -> (result: Result<
        ConnectionStatus,
        Error,
    >)
        ensures
            result == match answer {
                Err(_) => Err(Error::Mosq(MOSQ_ERR_INVAL)),
                Ok(status) => if status.0 == 0 {
                    Ok(status)
                } else {
                    Err(Error::RejectedConnection(status))
                },
            },
    {
        match answer {
            Err(_) => Err(Error::Mosq(MOSQ_ERR_INVAL)),
            Ok(status) => {
                if !status.is_successful() {
                    Err(Error::RejectedConnection(status))
                } else {
                    Ok(status)
                }
            },
        }
    }

    /// Publish a message to the specified topic.
    ///
    /// The payload size can be 0-283, 435 or 455 bytes; other values
    /// will generate an error result, with which mosquitto answers the call.
    ///
    /// `retain` will set the message to be retained by the broker,
    /// and delivered to new subscribers.
    ///
    /// The answer to the call goes to [`requested`](Client::requested).
    pub fn publish<'a>(&self, topic: &'a str, payload: &'a [u8], qos: QoS, retain: bool) -> (call:
        Call<'a>)
        ensures
            call == (Call::Publish { topic, payload, qos, retain }),
    {
        Call::Publish { topic, payload, qos, retain }
    }

    /// Takes the answer to a call that makes a request: the id which the
    /// request was assigned, or why there is no request.
    ///
    /// The receiver gets the broker's acknowledgement. So that it cannot be
    /// missed, the session must not report anything to the handler between
    /// the call and this.
    pub fn requested(&mut self, reply: Result<MessageId, Error>) -> (waiting: Result<
        Receiver<MessageId>,
        Error,
    >)
        ensures
            match reply {
                Ok(mid) => waiting is Ok && old(self)@.awaits_completion(
                    final(self)@,
                    mid,
                    waiting->Ok_0,
                ),
                Err(error) => waiting == Err::<Receiver<MessageId>, Error>(error) && final(self)@
                    == old(self)@,
            },
            old(self)@.well_formed() ==> final(self)@.well_formed(),
    {
        match reply {
            Ok(mid) => Ok(self.handler.await_completion(mid)),
            Err(error) => Err(error),
        }
    }

    /// Judges the acknowledgement of a published message.
    ///
    /// Returns the assigned MessageId value for the publish.
    pub fn published(answer: Result<MessageId, RecvError>) -> (result: Result<MessageId, Error>)
        ensures
            result == match answer {
                Err(_) => Err(Error::Mosq(MOSQ_ERR_INVAL)),
                Ok(mid) => Ok(mid),
            },
    {
        match answer {
            Err(_) => Err(Error::Mosq(MOSQ_ERR_INVAL)),
            Ok(mid) => Ok(mid),
        }
    }

    /// Configure will information for a mosquitto instance.
    /// By default, clients do not have a will.
    /// This must be called before calling `connect`.
    ///
    /// The payload size can be 0-283, 435 or 455 bytes; other values
    /// will generate an error result, with which mosquitto answers the call.
    ///
    /// `retain` will set the message to be retained by the broker,
    /// and delivered to new subscribers.
    pub fn set_last_will<'a>(
        &self,
        topic: &'a str,
        payload: &'a [u8],
        qos: QoS,
        retain: bool,
    ) -> (call: Call<'a>)
        ensures
            call == (Call::SetLastWill { topic, payload, qos, retain }),
    {
        Call::SetLastWill { topic, payload, qos, retain }
    }

    /// Remove a previously configured will.
    /// This must be called before calling connect
    pub fn clear_last_will(&self) -> (call: Call<'static>)
        ensures
            call == Call::ClearLastWill,
    {
        Call::ClearLastWill
    }

    /// Returns a channel that yields messages from topics that this
    /// client has subscribed to.
    /// This method can be called only once; the first time it returns
    /// the channel and subsequently it no longer has the channel
    /// receiver to return, so will yield None.
    pub fn subscriber(&mut self) -> (rx: Option<Receiver<Event>>)
        ensures
            old(self)@.claimed(final(self)@, rx),
            old(self)@.well_formed() ==> final(self)@.well_formed(),
    {
        self.handler.subscriber()
    }

    /// Establish a subscription to topics matching pattern.
    /// The messages will be delivered via the channel returned
    /// via the [subscriber](#method.subscriber) method.
    ///
    /// The answer to the call goes to [`requested`](Client::requested).
    pub fn subscribe<'a>(&self, pattern: &'a str, qos: QoS) -> (call: Call<'a>)
        ensures
            call == (Call::Subscribe { pattern, qos }),
    {
        Call::Subscribe { pattern, qos }
    }

    /// Judges the acknowledgement of a subscription.
    pub fn subscribed(answer: Result<MessageId, RecvError>) -> (result: Result<(), Error>)
        ensures
            result == match answer {
                Err(_) => Err(Error::Mosq(MOSQ_ERR_INVAL)),
                Ok(_) => Ok(()),
            },
    {
        match answer {
            Err(_) => Err(Error::Mosq(MOSQ_ERR_INVAL)),
            Ok(_) => Ok(()),
        }
    }

    /// Remove subscription(s) for topics that match `pattern`.
    ///
    /// The answer to the call goes to [`requested`](Client::requested).
    pub fn unsubscribe<'a>(&self, pattern: &'a str) -> (call: Call<'a>)
        ensures
            call == (Call::Unsubscribe { pattern }),
    {
        Call::Unsubscribe { pattern }
    }

    /// Judges the acknowledgement of the end of a subscription.
    pub fn unsubscribed(answer: Result<MessageId, RecvError>) -> (result: Result<(), Error>)
        ensures
            result == match answer {
                Err(_) => Err(Error::Mosq(MOSQ_ERR_INVAL)),
                Ok(_) => Ok(()),
            },
    {
        match answer {
            Err(_) => Err(Error::Mosq(MOSQ_ERR_INVAL)),
            Ok(_) => Ok(()),
        }
    }

    /// Set an option for the client.
    /// Most options need to be set prior to calling `connect` in order
    /// to have any effect.
    pub fn set_option<'a>(&self, option: &ClientOption<'a>) -> (call: Call<'a>)
        ensures
            call == option.setting(),
            option matches ClientOption::ReceiveMaximum(maximum) ==> call is SetIntOption
                && call->SetIntOption_option == MosqOption::ReceiveMaximum && call->number
                == maximum,
            option matches ClientOption::SendMaximum(maximum) ==> call is SetIntOption
                && call->SetIntOption_option == MosqOption::SendMaximum && call->number == maximum,
    {
        match option {
            ClientOption::ProtocolVersion(v) => Call::SetIntOption {
                option: MosqOption::ProtocolVersion,
                number: v.number(),
            },
            ClientOption::ReceiveMaximum(v) => Call::SetIntOption {
                option: MosqOption::ReceiveMaximum,
                number: *v as i32,
            },
            ClientOption::SendMaximum(v) => Call::SetIntOption {
                option: MosqOption::SendMaximum,
                number: *v as i32,
            },
            ClientOption::OcspRequired(v) => Call::SetIntOption {
                option: MosqOption::TlsOcspRequired,
                number: if *v {
                    1
                } else {
                    0
                },
            },
            ClientOption::TlsEngine(e) => Call::SetStringOption {
                option: MosqOption::TlsEngine,
                text: e,
            },
            ClientOption::TlsKeyForm(e) => Call::SetStringOption {
                option: MosqOption::TlsKeyForm,
                text: e,
            },
            ClientOption::TlsKPassSha1(e) => Call::SetStringOption {
                option: MosqOption::TlsEngineKpassSha1,
                text: e,
            },
            ClientOption::TlsALPN(e) => Call::SetStringOption {
                option: MosqOption::TlsAlpn,
                text: e,
            },
        }
    }

    /// Configures the TLS parameters for the client.
    ///
    /// `ca_file` is the path to a PEM encoded trust CA certificate file.
    /// Either `ca_file` or `ca_path` must be set.
    ///
    /// `ca_path` is the path to a directory containing PEM encoded trust
    /// CA certificates.  Either `ca_file` or `ca_path` must be set.
    ///
    /// `cert_file` path to a file containing the PEM encoded certificate
    /// file for this client.  If `None` then `key_file` must also be `None`
    /// and no client certificate will be used.
    ///
    /// `key_file` path to a file containing the PEM encoded private key
    /// for this client.  If `None` them `cert_file` must also be `None`
    /// and no client certificate will be used.
    ///
    /// `pw_callback` allows you to provide a password to decrypt an
    /// encrypted key file.  Specify `None` if the key file isn't
    /// password protected.
    pub fn configure_tls<CAFILE, CAPATH, CERTFILE, KEYFILE, CALLBACK>(
        &self,
        ca_file: Option<CAFILE>,
        ca_path: Option<CAPATH>,
        cert_file: Option<CERTFILE>,
        key_file: Option<KEYFILE>,
        pw_callback: Option<CALLBACK>,
    ) -> (tls: TlsParameters<CAFILE, CAPATH, CERTFILE, KEYFILE, CALLBACK>)
        ensures
            tls == (TlsParameters { ca_file, ca_path, cert_file, key_file, pw_callback }),
    {
        TlsParameters { ca_file, ca_path, cert_file, key_file, pw_callback }
    }

    /// Disables verification of the server hostname in the server certificate.
    /// If this is disabled, it is impossible to guarantee that the host you
    /// are connecting to is not impersonating your server.  This can be useful
    /// in initial server testing, but makes it possible for a malicious third
    /// party to impersonate your server through DNS spoofing, for example.  Do
    /// not use this function in a real system.  Disabling this makes the
    /// connection encryption pointless.  Must be called before connect.
    pub fn disable_tls_hostname_validation(&self) -> (call: Call<'static>)
        ensures
            call == (Call::SetTlsInsecure { insecure: true }),
    {
        Call::SetTlsInsecure { insecure: true }
    }

    /// Enables verification of the server hostname in the server certificate.
    /// By default this validation is enabled. If this is disabled, it is
    /// impossible to guarantee that the host you are connecting to is not
    /// impersonating your server.  This can be useful in initial server
    /// testing, but makes it possible for a malicious third party to
    /// impersonate your server through DNS spoofing, for example. Must be
    /// called before connect.
    pub fn enable_tls_hostname_validation(&self) -> (call: Call<'static>)
        ensures
            call == (Call::SetTlsInsecure { insecure: false }),
    {
        Call::SetTlsInsecure { insecure: false }
    }

    /// Controls reconnection behavior when running in the message loop.
    /// By default, if a client is unexpectedly disconnected, mosquitto will
    /// try to reconnect.  The default reconnect parameters are to retry once
    /// per second to reconnect.
    ///
    /// You change adjust the delay between connection attempts by changing
    /// the parameters with this function.
    ///
    /// `reconnect_delay` is the base delay amount.
    ///
    /// If `use_exponential_backoff` is true, then the delay is doubled on
    /// each successive attempt, until the `max_reconnect_delay` is reached.
    ///
    /// If `use_exponential_backoff` is false, then the `reconnect_delay` is
    /// added on each successive attempt, until the `max_reconnect_delay` is
    /// reached.
    pub fn set_reconnect_delay(
        &self,
        reconnect_delay: Duration,
        max_reconnect_delay: Duration,
        use_exponential_backoff: bool,
    ) -> (call: Call<'static>)
        ensures
            call == (Call::SetReconnectDelay {
                reconnect_delay,
                max_reconnect_delay,
                use_exponential_backoff,
            }),
    {
        Call::SetReconnectDelay { reconnect_delay, max_reconnect_delay, use_exponential_backoff }
    }
}

} // verus!
