//! The outbound message taxonomy and the classifier.
//!
//! The protocol's outbound messages form a closed set of request and
//! notification variants, modelled here as plain enums holding exactly the
//! structural tags that classification reads.  The classifier is a total
//! function over that set: a single exhaustive match, never a re-parse of
//! a serialized field, and every variant outside the six limited kinds
//! falls into [`MessageType::Other`].

use vstd::prelude::*;

verus! {

/// Message categories for rate limiting.
#[derive(Debug, Clone, Copy, Hash, Eq, PartialEq, Structural)]
pub enum MessageType {
    ProgressNotification,
    LoggingMessage,
    SamplingRequest,
    CompletionRequest,
    ElicitationRequest,
    ToolCall,
    Other,
}

/// The request kinds a client can send.
#[derive(Debug, Clone, Copy, Hash, Eq, PartialEq, Structural)]
pub enum ClientRequest {
    PingRequest,
    InitializeRequest,
    CompleteRequest,
    SetLevelRequest,
    GetPromptRequest,
    ListPromptsRequest,
    ListResourcesRequest,
    ListResourceTemplatesRequest,
    ReadResourceRequest,
    SubscribeRequest,
    UnsubscribeRequest,
    CallToolRequest,
    ListToolsRequest,
}

/// The request kinds a server can send.
#[derive(Debug, Clone, Copy, Hash, Eq, PartialEq, Structural)]
pub enum ServerRequest {
    PingRequest,
    CreateMessageRequest,
    ListRootsRequest,
    CreateElicitationRequest,
}

/// The notification kinds a client can send.
#[derive(Debug, Clone, Copy, Hash, Eq, PartialEq, Structural)]
pub enum ClientNotification {
    CancelledNotification,
    ProgressNotification,
    InitializedNotification,
    RootsListChangedNotification,
}

/// The notification kinds a server can send.
#[derive(Debug, Clone, Copy, Hash, Eq, PartialEq, Structural)]
pub enum ServerNotification {
    CancelledNotification,
    ProgressNotification,
    LoggingMessageNotification,
    ResourceUpdatedNotification,
    ResourceListChangedNotification,
    ToolListChangedNotification,
    PromptListChangedNotification,
}

/// An outbound request, from either side of the connection.
#[derive(Debug, Clone, Copy, Hash, Eq, PartialEq, Structural)]
pub enum RequestKind {
    Client(ClientRequest),
    Server(ServerRequest),
}

/// An outbound notification, from either side of the connection.
#[derive(Debug, Clone, Copy, Hash, Eq, PartialEq, Structural)]
pub enum NotificationKind {
    Client(ClientNotification),
    Server(ServerNotification),
}

/// The shape of an outbound protocol message, reduced to what
/// classification reads: its structural variant.
#[derive(Debug, Clone, Copy, Hash, Eq, PartialEq, Structural)]
pub enum JsonRpcMessage {
    Request(RequestKind),
    Notification(NotificationKind),
    Response,
    Error,
}

/// The category of a client request variant.
pub open spec fn spec_classify_client_request(request: ClientRequest) -> MessageType {
    match request {
        ClientRequest::CompleteRequest => MessageType::CompletionRequest,
        ClientRequest::CallToolRequest => MessageType::ToolCall,
        _ => MessageType::Other,
    }
}

/// The category of a server request variant.
pub open spec fn spec_classify_server_request(request: ServerRequest) -> MessageType {
    match request {
        ServerRequest::CreateMessageRequest => MessageType::SamplingRequest,
        ServerRequest::CreateElicitationRequest => MessageType::ElicitationRequest,
        _ => MessageType::Other,
    }
}

/// The category of a client notification variant.
pub open spec fn spec_classify_client_notification(notification: ClientNotification) -> MessageType {
    match notification {
        ClientNotification::ProgressNotification => MessageType::ProgressNotification,
        _ => MessageType::Other,
    }
}

/// The category of a server notification variant.
pub open spec fn spec_classify_server_notification(notification: ServerNotification) -> MessageType {
    match notification {
        ServerNotification::ProgressNotification => MessageType::ProgressNotification,
        ServerNotification::LoggingMessageNotification => MessageType::LoggingMessage,
        _ => MessageType::Other,
    }
}

/// The category of a request from either side.
pub open spec fn spec_classify_request(request: RequestKind) -> MessageType {
    match request {
        RequestKind::Client(r) => spec_classify_client_request(r),
        RequestKind::Server(r) => spec_classify_server_request(r),
    }
}

/// The category of a notification from either side.
pub open spec fn spec_classify_notification(notification: NotificationKind) -> MessageType {
    match notification {
        NotificationKind::Client(n) => spec_classify_client_notification(n),
        NotificationKind::Server(n) => spec_classify_server_notification(n),
    }
}

/// The category of an outbound message: requests and notifications go by
/// their variant, every other message shape is `Other`.
pub open spec fn spec_classify_message(msg: JsonRpcMessage) -> MessageType {
    match msg {
        JsonRpcMessage::Request(request) => spec_classify_request(request),
        JsonRpcMessage::Notification(notification) => spec_classify_notification(notification),
        _ => MessageType::Other,
    }
}

/// Classify client request variants.
pub fn classify_client_request(request: &ClientRequest) -> (r: MessageType)
    ensures
        r == spec_classify_client_request(*request),
{
    match request {
        ClientRequest::CompleteRequest => MessageType::CompletionRequest,
        ClientRequest::CallToolRequest => MessageType::ToolCall,
        _ => MessageType::Other,
    }
}

/// Classify server request variants.
pub fn classify_server_request(request: &ServerRequest) -> (r: MessageType)
    ensures
        r == spec_classify_server_request(*request),
{
    match request {
        ServerRequest::CreateMessageRequest => MessageType::SamplingRequest,
        ServerRequest::CreateElicitationRequest => MessageType::ElicitationRequest,
        _ => MessageType::Other,
    }
}

/// Classify client notification variants.
pub fn classify_client_notification(notification: &ClientNotification) -> (r: MessageType)
    ensures
        r == spec_classify_client_notification(*notification),
{
    match notification {
        ClientNotification::ProgressNotification => MessageType::ProgressNotification,
        _ => MessageType::Other,
    }
}

/// Classify server notification variants.
pub fn classify_server_notification(notification: &ServerNotification) -> (r: MessageType)
    ensures
        r == spec_classify_server_notification(*notification),
{
    match notification {
        ServerNotification::ProgressNotification => MessageType::ProgressNotification,
        ServerNotification::LoggingMessageNotification => MessageType::LoggingMessage,
        _ => MessageType::Other,
    }
}

/// Classify a request from either side.
pub fn classify_request(request: &RequestKind) -> (r: MessageType)
    ensures
        r == spec_classify_request(*request),
{
    match request {
        RequestKind::Client(req) => classify_client_request(req),
        RequestKind::Server(req) => classify_server_request(req),
    }
}

/// Classify a notification from either side.
pub fn classify_notification(notification: &NotificationKind) -> (r: MessageType)
    ensures
        r == spec_classify_notification(*notification),
{
    match notification {
        NotificationKind::Client(not) => classify_client_notification(not),
        NotificationKind::Server(not) => classify_server_notification(not),
    }
}

/// Classify an outbound message for rate limiting.  Total over the message
/// taxonomy and deterministic: the result is exactly
/// [`spec_classify_message`] of the input.
pub fn classify_message(msg: &JsonRpcMessage) -> (r: MessageType)
    ensures
        r == spec_classify_message(*msg),
{
    match msg {
        JsonRpcMessage::Request(request) => classify_request(request),
        JsonRpcMessage::Notification(notification) => classify_notification(notification),
        _ => MessageType::Other,
    }
}

} // verus!
