//! The logic of an asynchronous MQTT client on top of libmosquitto.
//!
//! A [`Client`] does no input or output. Its methods return the [`Call`] that
//! is to be made into the mosquitto library and take what came back, and the
//! library reports to the client's [`Handler`], which passes everything on to
//! the tasks that wait for it: the answer to a connection attempt, the
//! acknowledgement of a request, and the feed of events. What the callbacks
//! ask of the session in turn is collected in a [`Mosq`].
pub mod call;
pub mod channel;
pub mod client;
pub mod handler;
pub mod laws;
pub mod message;
pub mod render;
pub mod types;

pub use call::{Call, Mosq, MosqOption};
pub use channel::Answer;
pub use client::{Client, ClientOption, Progress, ProtocolVersion, Setup, TlsParameters};
pub use handler::{Handler, HandlerView};
pub use message::{Event, EventView, Message, MessageView, PayloadPrinter};
pub use types::{ConnectionStatus, Error, MessageId, QoS, ReasonCode, MOSQ_ERR_INVAL};
