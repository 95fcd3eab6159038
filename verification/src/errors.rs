//! The two kinds of failure a request can end in, and what is sent for each.

use vstd::prelude::*;
use vstd::string::StringExecFns;
use crate::collaborators::{
    describe_image_error, describe_parse_error, describe_render_error, encode_failure,
    image_error_text, parse_error_text, render_error_text, render_failure,
};
use crate::response::ContentType;
use image::ImageError;
use riichi_hand::parser::HandParseError;
use riichi_hand::raster_renderer::HandRenderError;
use tokio::task::JoinError;

verus! {

/// The status sent for a failure that the server is to blame for.
pub const STATUS_INTERNAL_SERVER_ERROR: u16 = 500;

/// The status sent for a failure that the request is to blame for.
pub const STATUS_BAD_REQUEST: u16 = 400;

/// A failed request: who is to blame, and a message for the reader.
#[derive(Debug, Clone)]
pub enum ServiceError {
    /// The server failed.
    Internal(String),
    /// The request cannot be served as it is.
    BadRequest(String),
}

/// A `ServiceError` with its message as a sequence of characters.
pub enum ServiceErrorView {
    Internal(Seq<char>),
    BadRequest(Seq<char>),
}

impl ServiceErrorView {
    /// The message of the failure.
    pub open spec fn message(self) -> Seq<char> {
        match self {
            ServiceErrorView::Internal(message) => message,
            ServiceErrorView::BadRequest(message) => message,
        }
    }

    /// The HTTP status that the failure is answered with.
    pub open spec fn status(self) -> u16 {
        match self {
            ServiceErrorView::Internal(_) => STATUS_INTERNAL_SERVER_ERROR,
            ServiceErrorView::BadRequest(_) => STATUS_BAD_REQUEST,
        }
    }
}

impl View for ServiceError {
    type V = ServiceErrorView;

    open spec fn view(&self) -> ServiceErrorView {
        match self {
            ServiceError::Internal(message) => ServiceErrorView::Internal(message@),
            ServiceError::BadRequest(message) => ServiceErrorView::BadRequest(message@),
        }
    }
}

#[verifier::external_type_specification]
#[verifier::external_body]
pub struct ExJoinError(JoinError);

/// The text that a `JoinError` is displayed as.
pub uninterp spec fn join_error_text(error: JoinError) -> Seq<char>;

/// Calls `to_string` on a `tokio::task::JoinError`: the text depends on the
/// error alone.
#[verifier::external_body]
fn describe_join_error(error: &JoinError) -> (text: String)
    ensures
        text@ == join_error_text(*error),
{
    error.to_string()
}

impl ServiceError {
    /// The HTTP status that this failure is answered with.
    pub fn get_http_status(&self) -> (status: u16)
        ensures
            status == self@.status(),
    {
        match self {
            ServiceError::Internal(_) => STATUS_INTERNAL_SERVER_ERROR,
            ServiceError::BadRequest(_) => STATUS_BAD_REQUEST,
        }
    }

    /// The message of this failure.
    pub fn message(&self) -> (message: &String)
        ensures
            message@ == self@.message(),
    {
        match self {
            ServiceError::Internal(message) => message,
            ServiceError::BadRequest(message) => message,
        }
    }

    /// The text this failure is displayed as: its message.
    pub fn to_string(&self) -> (text: String)
        ensures
            text@ == self@.message(),
    {
        self.message().clone()
    }

    /// A notation that the parser rejects is the request's fault.
    pub fn from_parse_error(error: &HandParseError) -> (failure: ServiceError)
        ensures
            failure@ == ServiceErrorView::BadRequest(parse_error_text(*error)),
    {
        ServiceError::BadRequest(describe_parse_error(error))
    }

    /// A hand that the renderer cannot draw is the request's fault. The
    /// error is one that the renderer gave for a hand within the limit.
    pub fn from_render_error(error: &HandRenderError) -> (failure: ServiceError)
        requires
            render_failure(*error),
        ensures
            failure@ == ServiceErrorView::BadRequest(render_error_text(*error)),
    {
        ServiceError::BadRequest(describe_render_error(error))
    }

    /// A picture that cannot be encoded counts as the request's fault. The
    /// error is one that the encoder gave for a picture of the renderer.
    pub fn from_image_error(error: &ImageError) -> (failure: ServiceError)
        requires
            encode_failure(*error),
        ensures
            failure@ == ServiceErrorView::BadRequest(image_error_text(*error)),
    {
        ServiceError::BadRequest(describe_image_error(error))
    }

    /// A worker that did not finish its task is the server's fault.
    pub fn from_join_error(error: &JoinError) -> (failure: ServiceError)
        ensures
            failure@ == ServiceErrorView::Internal(join_error_text(*error)),
    {
        ServiceError::Internal(describe_join_error(error))
    }
}

/// The body that is sent with a failure: an object with the one field
/// `message`.
#[derive(Debug, Clone)]
pub struct ServiceErrorResponse {
    pub message: String,
}

/// The JSON string literal, quotes included, that `serde_json` writes for a
/// text.
pub uninterp spec fn json_string_literal(text: Seq<char>) -> Seq<char>;

/// Calls `serde_json::to_string` on a text. Writing a string into memory
/// does not fail, and the literal depends on the text alone.
#[verifier::external_body]
fn json_string(text: &str) -> (literal: String)
    ensures
        literal@ == json_string_literal(text@),
{
    serde_json::to_string(text).unwrap_or_default()
}

/// The JSON object whose one field `message` holds the string that
/// `literal` is written as.
pub open spec fn error_frame(literal: Seq<char>) -> Seq<char> {
    "{\"message\":"@ + literal + "}"@
}

/// The JSON object that carries `message`.
pub open spec fn error_body(message: Seq<char>) -> Seq<char> {
    error_frame(json_string_literal(message))
}

/// Puts a JSON string literal into the object that is sent with a failure.
pub fn frame_error_body(literal: &str) -> (json: String)
    ensures
        json@ == error_frame(literal@),
{
    let mut json = String::from_str("{\"message\":");
    json.append(literal);
    json.append("}");
    json
}

impl ServiceErrorResponse {
    /// The body as JSON text.
    pub fn to_json(&self) -> (json: String)
        ensures
            json@ == error_body(self.message@),
    {
        let literal = json_string(self.message.as_str());
        frame_error_body(literal.as_str())
    }

    /// The content type that the body is sent with.
    pub fn content_type(&self) -> (content_type: ContentType)
        ensures
            content_type == ContentType::Json,
    {
        ContentType::Json
    }
}

/// What is sent for a failure: its status, the content type of every
/// failure, and a body that carries its message.
pub fn error_handler(error: &ServiceError) -> (reply: (u16, ContentType, ServiceErrorResponse))
    ensures
        reply.0 == error@.status(),
        reply.1 == ContentType::Json,
        reply.2.message@ == error@.message(),
{
    let body = ServiceErrorResponse { message: error.to_string() };
    (error.get_http_status(), body.content_type(), body)
}

} // verus!
