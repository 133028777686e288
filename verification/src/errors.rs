//! Errors of the services: the service error, and the error of a client
//! that lost its connection.
use vstd::prelude::*;

verus! {

/// An error of a service endpoint. The database and authentication errors
/// that cause an error are carried as their messages.
#[derive(Debug, Clone, PartialEq, Eq)]
pub enum ServiceError {
    /// A malformed or refused request, with an optional jetstream error code.
    Request { message: String, code: Option<u64> },
    /// A database operation failed.
    Database { source: String, collection: Option<String>, operation: Option<String> },
    /// Authentication failed.
    Authentication { source: String, subject: Option<String> },
    /// NATS failed.
    NATS { message: String, subject: Option<String> },
    /// An internal error.
    Internal { message: String, context: Option<String> },
    /// A workload error.
    Workload { message: String, context: Option<String> },
}

pub open spec fn opt_view(o: Option<String>) -> Option<Seq<char>> {
    match o {
        Some(s) => Some(s@),
        None => None,
    }
}

impl ServiceError {
    /// The message of the error, without the prefix naming its kind.
    pub open spec fn spec_message(&self) -> Seq<char> {
        match self {
            ServiceError::Request { message, .. } => message@,
            ServiceError::Database { source, .. } => source@,
            ServiceError::Authentication { source, .. } => source@,
            ServiceError::NATS { message, .. } => message@,
            ServiceError::Internal { message, .. } => message@,
            ServiceError::Workload { message, .. } => message@,
        }
    }

    /// The error as it is displayed: its kind, then its message.
    pub open spec fn spec_display(&self) -> Seq<char> {
        match self {
            ServiceError::Request { message, .. } => "Request error: "@ + message@,
            ServiceError::Database { source, .. } => "Database error: "@ + source@,
            ServiceError::Authentication { source, .. } => "Authentication error: "@ + source@,
            ServiceError::NATS { message, .. } => "NATS error: "@ + message@,
            ServiceError::Internal { message, .. } => "Internal error: "@ + message@,
            ServiceError::Workload { message, .. } => "Workload error: "@ + message@,
        }
    }

    /// Creates a request error with an optional error code.
    pub fn request(message: String, code: Option<u64>) -> (e: Self)
        ensures
            e == (ServiceError::Request { message, code }),
    {
        ServiceError::Request { message, code }
    }

    /// Creates a database error with its context.
    pub fn database(source: String, collection: Option<String>, operation: Option<String>) -> (e:
        Self)
        ensures
            e == (ServiceError::Database { source, collection, operation }),
    {
        ServiceError::Database { source, collection, operation }
    }

    /// Creates an authentication error for a subject.
    pub fn auth(source: String, subject: Option<String>) -> (e: Self)
        ensures
            e == (ServiceError::Authentication { source, subject }),
    {
        ServiceError::Authentication { source, subject }
    }

    /// Creates a NATS error with an optional subject.
    pub fn nats(message: String, subject: Option<String>) -> (e: Self)
        ensures
            e == (ServiceError::NATS { message, subject }),
    {
        ServiceError::NATS { message, subject }
    }

    /// Creates an internal error with an optional context.
    pub fn internal(message: String, context: Option<String>) -> (e: Self)
        ensures
            e == (ServiceError::Internal { message, context }),
    {
        ServiceError::Internal { message, context }
    }

    /// The error that a malformed JSON body gives: a request error with the
    /// jetstream code for a bad request (10003).
    pub fn from_json_error(message: String) -> (e: Self)
        ensures
            e == (ServiceError::Request { message, code: Some(10003u64) }),
    {
        ServiceError::Request { message, code: Some(10003) }
    }

    /// The error that a failed BSON serialization gives.
    pub fn from_bson_ser_error(message: String) -> (e: Self)
        ensures
            e matches ServiceError::Internal { message: m, context: Some(c) } && m == message && c@
                == "BSON serialization failed"@,
    {
        ServiceError::Internal { message, context: Some(String::from_str("BSON serialization failed")) }
    }

    /// The error that a failed BSON deserialization gives.
    pub fn from_bson_de_error(message: String) -> (e: Self)
        ensures
            e matches ServiceError::Internal { message: m, context: Some(c) } && m == message && c@
                == "BSON deserialization failed"@,
    {
        ServiceError::Internal {
            message,
            context: Some(String::from_str("BSON deserialization failed")),
        }
    }

    /// True for a request error.
    pub fn is_request(&self) -> (b: bool)
        ensures
            b == self is Request,
    {
        matches!(self, ServiceError::Request { .. })
    }

    /// True for a database error.
    pub fn is_database(&self) -> (b: bool)
        ensures
            b == self is Database,
    {
        matches!(self, ServiceError::Database { .. })
    }

    /// True for an authentication error.
    pub fn is_auth(&self) -> (b: bool)
        ensures
            b == self is Authentication,
    {
        matches!(self, ServiceError::Authentication { .. })
    }

    /// True for a NATS error.
    pub fn is_nats(&self) -> (b: bool)
        ensures
            b == self is NATS,
    {
        matches!(self, ServiceError::NATS { .. })
    }

    /// True for an internal error.
    pub fn is_internal(&self) -> (b: bool)
        ensures
            b == self is Internal,
    {
        matches!(self, ServiceError::Internal { .. })
    }

    /// The message of the error, without the prefix naming its kind.
    pub fn message(&self) -> (m: String)
        ensures
            m@ == self.spec_message(),
    {
        match self {
            ServiceError::Request { message, .. } => message.clone(),
            ServiceError::Database { source, .. } => source.clone(),
            ServiceError::Authentication { source, .. } => source.clone(),
            ServiceError::NATS { message, .. } => message.clone(),
            ServiceError::Internal { message, .. } => message.clone(),
            ServiceError::Workload { message, .. } => message.clone(),
        }
    }

    /// The error as it is displayed: its kind, then its message.
    pub fn to_display_string(&self) -> (m: String)
        ensures
            m@ == self.spec_display(),
    {
        let (mut m, rest) = match self {
            ServiceError::Request { message, .. } => (String::from_str("Request error: "), message),
            ServiceError::Database { source, .. } => (
                String::from_str("Database error: "),
                source,
            ),
            ServiceError::Authentication { source, .. } => (
                String::from_str("Authentication error: "),
                source,
            ),
            ServiceError::NATS { message, .. } => (String::from_str("NATS error: "), message),
            ServiceError::Internal { message, .. } => (
                String::from_str("Internal error: "),
                message,
            ),
            ServiceError::Workload { message, .. } => (
                String::from_str("Workload error: "),
                message,
            ),
        };
        m.append(rest.as_str());
        m
    }
}

/// The error of a client whose connection to NATS is closed.
#[derive(Debug, Clone, Copy, PartialEq, Eq)]
pub struct ErrClientDisconnected;

impl ErrClientDisconnected {
    /// The message of the error.
    pub fn message(&self) -> (m: String)
        ensures
            m@ == "Could not reach nats: connection closed"@,
    {
        String::from_str("Could not reach nats: connection closed")
    }
}

} // verus!
