//! Failures reported by the broker.

use vstd::prelude::*;

verus! {

/// The kind of a failure, without its detail text.
#[derive(Clone, Copy, Debug, PartialEq, Eq, Structural)]
pub enum ErrorKind {
    Config,
    Connection,
    UnknownMessageType,
    Serialization,
    Send,
    Lock,
    Receive,
    HandlerRegistration,
    Deserialization,
    Io,
    RabbitMq,
    Kafka,
    Unknown,
}

/// A failure of the broker. Every variant but `Unknown` carries a detail text;
/// the variants for I/O and for the two backend families carry the text of the
/// failure they stand for.
#[derive(Clone, Debug, PartialEq, Eq)]
pub enum BrokerError {
    ConfigError(String),
    ConnectionError(String),
    UnknownMessageType(String),
    SerializationError(String),
    SendError(String),
    LockError(String),
    ReceiveError(String),
    HandlerError(String),
    DeserializationError(String),
    IoError(String),
    RabbitMQError(String),
    KafkaError(String),
    Unknown,
}

/// What a `BrokerError` is in contracts: its kind and its detail text.
pub struct ErrorView {
    pub kind: ErrorKind,
    pub detail: Seq<char>,
}

/// The text that introduces a failure of the given kind.
pub open spec fn prefix(kind: ErrorKind) -> Seq<char> {
    match kind {
        ErrorKind::Config => "Configuration error: "@,
        ErrorKind::Connection => "Connection error: "@,
        ErrorKind::UnknownMessageType => "Unknown message type: "@,
        ErrorKind::Serialization => "Serialization error: "@,
        ErrorKind::Send => "Message sending failed: "@,
        ErrorKind::Lock => "Lock error: "@,
        ErrorKind::Receive => "Message receiving failed: "@,
        ErrorKind::HandlerRegistration => "Handler registration failed: "@,
        ErrorKind::Deserialization => "Deserialization error: "@,
        ErrorKind::Io => "I/O error: "@,
        ErrorKind::RabbitMq => "RabbitMQ error: "@,
        ErrorKind::Kafka => "Kafka error: "@,
        ErrorKind::Unknown => "Unknown error occurred"@,
    }
}

impl ErrorView {
    /// The full text of the failure: the prefix of its kind, then its detail.
    pub open spec fn message(self) -> Seq<char> {
        prefix(self.kind) + self.detail
    }

    /// The failure that `send` reports when `self` was the first failure of
    /// the attempt.
    pub open spec fn wrapped(self) -> ErrorView {
        ErrorView { kind: ErrorKind::Send, detail: self.message() }
    }
}

impl View for BrokerError {
    type V = ErrorView;

    open spec fn view(&self) -> ErrorView {
        match self {
            BrokerError::ConfigError(d) => ErrorView { kind: ErrorKind::Config, detail: d@ },
            BrokerError::ConnectionError(d) => ErrorView { kind: ErrorKind::Connection, detail: d@ },
            BrokerError::UnknownMessageType(d) => ErrorView {
                kind: ErrorKind::UnknownMessageType,
                detail: d@,
            },
            BrokerError::SerializationError(d) => ErrorView {
                kind: ErrorKind::Serialization,
                detail: d@,
            },
            BrokerError::SendError(d) => ErrorView { kind: ErrorKind::Send, detail: d@ },
            BrokerError::LockError(d) => ErrorView { kind: ErrorKind::Lock, detail: d@ },
            BrokerError::ReceiveError(d) => ErrorView { kind: ErrorKind::Receive, detail: d@ },
            BrokerError::HandlerError(d) => ErrorView {
                kind: ErrorKind::HandlerRegistration,
                detail: d@,
            },
            BrokerError::DeserializationError(d) => ErrorView {
                kind: ErrorKind::Deserialization,
                detail: d@,
            },
            BrokerError::IoError(d) => ErrorView { kind: ErrorKind::Io, detail: d@ },
            BrokerError::RabbitMQError(d) => ErrorView { kind: ErrorKind::RabbitMq, detail: d@ },
            BrokerError::KafkaError(d) => ErrorView { kind: ErrorKind::Kafka, detail: d@ },
            BrokerError::Unknown => ErrorView { kind: ErrorKind::Unknown, detail: Seq::empty() },
        }
    }
}

impl BrokerError {
    /// The kind of this failure.
    pub fn kind(&self) -> (k: ErrorKind)
        ensures
            k == self@.kind,
    {
        match self {
            BrokerError::ConfigError(_) => ErrorKind::Config,
            BrokerError::ConnectionError(_) => ErrorKind::Connection,
            BrokerError::UnknownMessageType(_) => ErrorKind::UnknownMessageType,
            BrokerError::SerializationError(_) => ErrorKind::Serialization,
            BrokerError::SendError(_) => ErrorKind::Send,
            BrokerError::LockError(_) => ErrorKind::Lock,
            BrokerError::ReceiveError(_) => ErrorKind::Receive,
            BrokerError::HandlerError(_) => ErrorKind::HandlerRegistration,
            BrokerError::DeserializationError(_) => ErrorKind::Deserialization,
            BrokerError::IoError(_) => ErrorKind::Io,
            BrokerError::RabbitMQError(_) => ErrorKind::RabbitMq,
            BrokerError::KafkaError(_) => ErrorKind::Kafka,
            BrokerError::Unknown => ErrorKind::Unknown,
        }
    }

    /// The full text of this failure, as it is shown to a reader.
    pub fn message(&self) -> (text: String)
        ensures
            text@ == self@.message(),
    {
        match self {
            BrokerError::ConfigError(d) => String::from_str("Configuration error: ").concat(d.as_str()),
            BrokerError::ConnectionError(d) => String::from_str("Connection error: ").concat(d.as_str()),
            BrokerError::UnknownMessageType(d) => String::from_str("Unknown message type: ").concat(
                d.as_str(),
            ),
            BrokerError::SerializationError(d) => String::from_str("Serialization error: ").concat(
                d.as_str(),
            ),
            BrokerError::SendError(d) => String::from_str("Message sending failed: ").concat(d.as_str()),
            BrokerError::LockError(d) => String::from_str("Lock error: ").concat(d.as_str()),
            BrokerError::ReceiveError(d) => String::from_str("Message receiving failed: ").concat(
                d.as_str(),
            ),
            BrokerError::HandlerError(d) => String::from_str("Handler registration failed: ").concat(
                d.as_str(),
            ),
            BrokerError::DeserializationError(d) => String::from_str("Deserialization error: ").concat(
                d.as_str(),
            ),
            BrokerError::IoError(d) => String::from_str("I/O error: ").concat(d.as_str()),
            BrokerError::RabbitMQError(d) => String::from_str("RabbitMQ error: ").concat(d.as_str()),
            BrokerError::KafkaError(d) => String::from_str("Kafka error: ").concat(d.as_str()),
            BrokerError::Unknown => String::from_str("Unknown error occurred"),
        }
    }

    /// The failure that `send` reports when `cause` was the first failure of
    /// the attempt: a send failure whose detail is the full text of `cause`.
    pub fn send_failure(cause: &BrokerError) -> (e: BrokerError)
        ensures
            e@ == cause@.wrapped(),
    {
        BrokerError::SendError(cause.message())
    }
}

} // verus!
