//! The values that pass between the client and the mosquitto library.
use vstd::prelude::*;

verus! {

/// Identifies a request (publish, subscribe or unsubscribe) until the broker
/// acknowledges it.
pub type MessageId = i32;

/// The mosquitto error code for an invalid argument or a request that was
/// given up.
pub const MOSQ_ERR_INVAL: i32 = 3;

/// The level of service with which a message is delivered.
#[derive(Debug, Copy, Clone, Eq, PartialEq, Structural)]
pub enum QoS {
    /// Fire and forget
    AtMostOnce,
    /// Delivered at least once; duplicates are possible
    AtLeastOnce,
    /// Delivered exactly once
    ExactlyOnce,
}

impl Default for QoS {
    fn default() -> (qos: Self)
        ensures
            qos == QoS::AtMostOnce,
    {
        QoS::AtMostOnce
    }
}

impl QoS {
    /// The name of the variant.
    pub open spec fn spec_name(self) -> Seq<char> {
        match self {
            QoS::AtMostOnce => "AtMostOnce"@,
            QoS::AtLeastOnce => "AtLeastOnce"@,
            QoS::ExactlyOnce => "ExactlyOnce"@,
        }
    }

    /// Returns the name of the variant.
    pub fn name(self) -> (name: &'static str)
        ensures
            name@ == self.spec_name(),
    {
        match self {
            QoS::AtMostOnce => "AtMostOnce",
            QoS::AtLeastOnce => "AtLeastOnce",
            QoS::ExactlyOnce => "ExactlyOnce",
        }
    }
}

/// The broker's answer to a connection attempt.
/// Zero means that the connection was accepted; the meaning of the other
/// values depends on the protocol version.
#[derive(Debug, Copy, Clone, Eq, PartialEq, Structural)]
pub struct ConnectionStatus(pub i32);

impl ConnectionStatus {
    /// Returns true if the broker accepted the connection.
    pub fn is_successful(&self) -> (accepted: bool)
        ensures
            accepted == (self.0 == 0),
    {
        self.0 == 0
    }
}

/// Why a session ended.
/// Zero means that the client asked for it.
#[derive(Debug, Copy, Clone, Eq, PartialEq, Structural)]
pub struct ReasonCode(pub i32);

impl ReasonCode {
    /// Returns true unless the session ended because the client asked for it.
    pub fn is_unexpected_disconnect(&self) -> (unexpected: bool)
        ensures
            unexpected == (self.0 != 0),
    {
        self.0 != 0
    }
}

/// Why an operation of the client failed.
#[derive(Debug, Copy, Clone, Eq, PartialEq, Structural)]
pub enum Error {
    /// The mosquitto library reported this error code.
    Mosq(i32),
    /// The broker turned the connection down.
    RejectedConnection(ConnectionStatus),
}

} // verus!
