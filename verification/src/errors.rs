//! Error types shared across the library: failures talking to Lightning
//! nodes, and the generic service-layer error.

use vstd::prelude::*;

use crate::text::{concat2, concat3, owned};

verus! {

/// Errors that can occur during Lightning Network operations.
#[derive(Debug, Clone, PartialEq, Eq)]
pub enum LightningError {
    /// Error that occurred while connecting to a Lightning node.
    ConnectionError(String),
    /// Error that occurred while retrieving node information.
    GetInfoError(String),
    /// Error that occurred while sending a payment.
    SendPaymentError(String),
    /// Error that occurred while tracking a payment.
    TrackPaymentError(String),
    /// Error that occurred when a payment hash is invalid.
    InvalidPaymentHash,
    /// Error that occurred while retrieving information about a specific node.
    GetNodeInfoError(String),
    /// Error that occurred during configuration validation.
    ValidationError(String),
    /// Error that represents a permanent failure condition.
    PermanentError(String),
    /// Error that occurred while listing channels.
    ListChannelsError(String),
    /// Error that occurred while getting graph.
    GetGraphError(String),
    /// Error returned by a node's RPC interface.
    RpcError(String),
    /// Error about a specific channel.
    ChannelError(String),
    /// The requested item does not exist on the node.
    NotFound(String),
    /// A value returned by the node could not be parsed.
    Parse(String),
    /// Subscribing to a node's event stream failed.
    StreamingError(String),
}

/// The human-readable message of a Lightning error.
pub open spec fn lightning_error_message(e: LightningError) -> Seq<char> {
    match e {
        LightningError::ConnectionError(m) => "Node connection error: "@ + m@,
        LightningError::GetInfoError(m) => "Get info error: "@ + m@,
        LightningError::SendPaymentError(m) => "Send payment error: "@ + m@,
        LightningError::TrackPaymentError(m) => "Track payment error: "@ + m@,
        LightningError::InvalidPaymentHash => "Invalid payment hash"@,
        LightningError::GetNodeInfoError(m) => "Get node info error: "@ + m@,
        LightningError::ValidationError(m) => "Config validation failed: "@ + m@,
        LightningError::PermanentError(m) => "Permanent error: \""@ + m@ + "\""@,
        LightningError::ListChannelsError(m) => "List channels error: "@ + m@,
        LightningError::GetGraphError(m) => "Get graph error: "@ + m@,
        LightningError::RpcError(m) => "RPC error: "@ + m@,
        LightningError::ChannelError(m) => "Channel error: "@ + m@,
        LightningError::NotFound(m) => "Not found: "@ + m@,
        LightningError::Parse(m) => "Parse error: "@ + m@,
        LightningError::StreamingError(m) => "Streaming error: "@ + m@,
    }
}

impl LightningError {
    /// The human-readable message of this error.
    pub fn message(&self) -> (r: String)
        ensures
            r@ == lightning_error_message(*self),
    {
        match self {
            LightningError::ConnectionError(m) => concat2("Node connection error: ", m.as_str()),
            LightningError::GetInfoError(m) => concat2("Get info error: ", m.as_str()),
            LightningError::SendPaymentError(m) => concat2("Send payment error: ", m.as_str()),
            LightningError::TrackPaymentError(m) => concat2("Track payment error: ", m.as_str()),
            LightningError::InvalidPaymentHash => owned("Invalid payment hash"),
            LightningError::GetNodeInfoError(m) => concat2("Get node info error: ", m.as_str()),
            LightningError::ValidationError(m) => concat2(
                "Config validation failed: ",
                m.as_str(),
            ),
            LightningError::PermanentError(m) => concat3("Permanent error: \"", m.as_str(), "\""),
            LightningError::ListChannelsError(m) => concat2("List channels error: ", m.as_str()),
            LightningError::GetGraphError(m) => concat2("Get graph error: ", m.as_str()),
            LightningError::RpcError(m) => concat2("RPC error: ", m.as_str()),
            LightningError::ChannelError(m) => concat2("Channel error: ", m.as_str()),
            LightningError::NotFound(m) => concat2("Not found: ", m.as_str()),
            LightningError::Parse(m) => concat2("Parse error: ", m.as_str()),
            LightningError::StreamingError(m) => concat2("Streaming error: ", m.as_str()),
        }
    }
}

/// Generic service error that can be used across all entities.
#[derive(Debug, Clone, PartialEq, Eq)]
pub enum ServiceError {
    Validation { message: String },
    NotFound { entity: String, identifier: String },
    AlreadyExists { entity: String, identifier: String },
    PermissionDenied { message: String },
    InvalidOperation { message: String },
    /// A storage failure; `source` is the storage layer's description of it.
    Database { source: String },
    ExternalService { message: String },
}

/// The human-readable message of a service error.
pub open spec fn service_error_message(e: ServiceError) -> Seq<char> {
    match e {
        ServiceError::Validation { message } => "Validation error: "@ + message@,
        ServiceError::NotFound { entity, identifier } => entity@ + " not found: "@ + identifier@,
        ServiceError::AlreadyExists { entity, identifier } => entity@ + " already exists: "@
            + identifier@,
        ServiceError::PermissionDenied { message } => "Permission denied: "@ + message@,
        ServiceError::InvalidOperation { message } => "Invalid operation: "@ + message@,
        ServiceError::Database { source } => "Database error: "@ + source@,
        ServiceError::ExternalService { message } => "External service error: "@ + message@,
    }
}

impl ServiceError {
    /// A validation failure with the given message.
    pub fn validation(message: &str) -> (r: Self)
        ensures
            r matches ServiceError::Validation { message: m } && m@ == message@,
    {
        ServiceError::Validation { message: owned(message) }
    }

    /// The entity identified by `identifier` does not exist.
    pub fn not_found(entity: &str, identifier: &str) -> (r: Self)
        ensures
            r matches ServiceError::NotFound { entity: e, identifier: i } && e@ == entity@ && i@
                == identifier@,
    {
        ServiceError::NotFound { entity: owned(entity), identifier: owned(identifier) }
    }

    /// The entity identified by `identifier` already exists.
    pub fn already_exists(entity: &str, identifier: &str) -> (r: Self)
        ensures
            r matches ServiceError::AlreadyExists { entity: e, identifier: i } && e@ == entity@
                && i@ == identifier@,
    {
        ServiceError::AlreadyExists { entity: owned(entity), identifier: owned(identifier) }
    }

    /// The caller may not perform the operation.
    pub fn permission_denied(message: &str) -> (r: Self)
        ensures
            r matches ServiceError::PermissionDenied { message: m } && m@ == message@,
    {
        ServiceError::PermissionDenied { message: owned(message) }
    }

    /// The operation is not valid in the current state.
    pub fn invalid_operation(message: &str) -> (r: Self)
        ensures
            r matches ServiceError::InvalidOperation { message: m } && m@ == message@,
    {
        ServiceError::InvalidOperation { message: owned(message) }
    }

    /// An outside service failed.
    pub fn external_service(message: &str) -> (r: Self)
        ensures
            r matches ServiceError::ExternalService { message: m } && m@ == message@,
    {
        ServiceError::ExternalService { message: owned(message) }
    }

    /// The human-readable message of this error.
    pub fn message(&self) -> (r: String)
        ensures
            r@ == service_error_message(*self),
    {
        match self {
            ServiceError::Validation { message } => concat2("Validation error: ", message.as_str()),
            ServiceError::NotFound { entity, identifier } => concat3(
                entity.as_str(),
                " not found: ",
                identifier.as_str(),
            ),
            ServiceError::AlreadyExists { entity, identifier } => concat3(
                entity.as_str(),
                " already exists: ",
                identifier.as_str(),
            ),
            ServiceError::PermissionDenied { message } => concat2(
                "Permission denied: ",
                message.as_str(),
            ),
            ServiceError::InvalidOperation { message } => concat2(
                "Invalid operation: ",
                message.as_str(),
            ),
            ServiceError::Database { source } => concat2("Database error: ", source.as_str()),
            ServiceError::ExternalService { message } => concat2(
                "External service error: ",
                message.as_str(),
            ),
        }
    }
}

} // verus!
