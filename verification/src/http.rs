//! Response shaping for the HTTP endpoints: each handler turns a request
//! body into a complete reply — a payload with its content type on success,
//! or a server-failure status with a human-readable message.

use vstd::prelude::*;
use crate::codec::CodecError;
use crate::codec::compress;
use crate::codec::compress_post;
use crate::codec::decompress;
use crate::codec::decompress_post;
use crate::codec::gunzip_of;
use crate::codec::outcome;

verus! {

/// The content types the endpoints answer with.
#[derive(Clone, Copy, Debug, PartialEq, Eq, Structural)]
pub enum BodyKind {
    /// `application/gzip`, for compressed payloads.
    Gzip,
    /// `application/octet-stream`, for decompressed payloads.
    OctetStream,
    /// `text/plain`, for failure messages.
    PlainText,
}

impl BodyKind {
    /// The content-type header value for this kind of body.
    pub open spec fn label_spec(self) -> Seq<char> {
        match self {
            BodyKind::Gzip => "application/gzip"@,
            BodyKind::OctetStream => "application/octet-stream"@,
            BodyKind::PlainText => "text/plain"@,
        }
    }

    /// The content-type header value for this kind of body.
    pub fn label(self) -> (r: &'static str)
        ensures
            r@ == self.label_spec(),
    {
        match self {
            BodyKind::Gzip => "application/gzip",
            BodyKind::OctetStream => "application/octet-stream",
            BodyKind::PlainText => "text/plain",
        }
    }
}

/// A complete endpoint reply: the transformed bytes with their content
/// type, or a failure status with its message.
pub enum HttpReply {
    /// A success: status 200 with the transformed bytes.
    Payload { content_type: BodyKind, bytes: Vec<u8> },
    /// A failure: the status code and a plain-text message body.
    Failure { status: u16, message: &'static str },
}

impl HttpReply {
    /// The HTTP status code of this reply.
    pub open spec fn status_spec(self) -> u16 {
        match self {
            HttpReply::Payload { .. } => 200u16,
            HttpReply::Failure { status, .. } => status,
        }
    }

    /// The HTTP status code of this reply.
    pub fn status(&self) -> (s: u16)
        ensures
            s == self.status_spec(),
    {
        match self {
            HttpReply::Payload { .. } => 200,
            HttpReply::Failure { status, .. } => *status,
        }
    }
}

/// Answers a compression request: the body bytes are compressed into an
/// in-memory buffer, which cannot fail, so the reply is always a status-200
/// gzip payload.
pub fn handle_compress(body: &Vec<u8>) -> (r: HttpReply)
    ensures
        r is Payload,
        r matches HttpReply::Payload { content_type, bytes } ==> {
            &&& content_type == BodyKind::Gzip
            &&& compress_post(body@, Ok(bytes@))
        },
{
    match compress(body) {
        Ok(bytes) => HttpReply::Payload { content_type: BodyKind::Gzip, bytes },
        Err(e) => HttpReply::Failure { status: 500, message: e.message() },
    }
}

/// Answers a decompression request: the body bytes are decompressed, and
/// the reply is the recovered payload, or a 500 with the error's message
/// when the body is not valid gzip data.
pub fn handle_decompress(body: &Vec<u8>) -> (r: HttpReply)
    ensures
        r is Payload <==> gunzip_of(body@) is Some,
        r matches HttpReply::Payload { content_type, bytes } ==> {
            &&& content_type == BodyKind::OctetStream
            &&& decompress_post(body@, Ok(bytes@))
        },
        r matches HttpReply::Failure { status, message } ==> {
            &&& status == 500u16
            &&& message@ == CodecError::InvalidFormat.message_spec()
            &&& gunzip_of(body@) is None
        },
{
    match decompress(body) {
        Ok(bytes) => HttpReply::Payload { content_type: BodyKind::OctetStream, bytes },
        Err(e) => HttpReply::Failure { status: 500, message: e.message() },
    }
}

} // verus!
