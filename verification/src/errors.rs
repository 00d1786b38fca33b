//! The error taxonomy of the proxy and its stable wire codes.

use vstd::prelude::*;

verus! {

/// Every failure a request can surface, collapsed to the codes the RPC
/// layer exposes.
#[derive(PartialEq, Eq, Structural, Clone, Copy, Debug)]
pub enum Errors {
    InvalidRpcVersionError,
    InvalidRpcMethodError,
    RpcPayloadTooBigError,
    JsonDecodeError,
    InternalError,
    FetchFailed,
    NotFound,
    ModerationFailed,
    UnsupportedImageType,
    UnsupportedUriScheme,
    InvalidUri,
    InvalidOrBlockedHost,
    TimedOut,
    ImageResizeError,
}

/// The error object of the RPC envelope.
pub struct RpcError {
    pub code: u8,
    pub reason: String,
    pub request_id: u128,
}

/// The stable numeric code of each error.
pub open spec fn error_code(e: Errors) -> u8 {
    match e {
        Errors::InvalidRpcVersionError => 100,
        Errors::InvalidRpcMethodError => 101,
        Errors::JsonDecodeError => 102,
        Errors::InternalError => 103,
        Errors::FetchFailed => 104,
        Errors::NotFound => 105,
        Errors::ModerationFailed => 106,
        Errors::UnsupportedImageType => 107,
        Errors::UnsupportedUriScheme => 108,
        Errors::InvalidUri => 109,
        Errors::InvalidOrBlockedHost => 110,
        Errors::TimedOut => 111,
        Errors::ImageResizeError => 112,
        Errors::RpcPayloadTooBigError => 113,
    }
}

/// The human-readable reason of each error.
pub open spec fn error_reason(e: Errors) -> Seq<char> {
    match e {
        Errors::InvalidRpcVersionError => "Invalid RPC version"@,
        Errors::InvalidRpcMethodError => "Invalid RPC method"@,
        Errors::JsonDecodeError => "Invalid JSON supplied"@,
        Errors::InternalError => "Internal Error"@,
        Errors::FetchFailed => "Fetch Failed"@,
        Errors::NotFound => "Image not found"@,
        Errors::ModerationFailed => "Image moderation failed"@,
        Errors::UnsupportedImageType => "Image type unsupported"@,
        Errors::UnsupportedUriScheme => "Uri scheme unsupported"@,
        Errors::InvalidUri => "Invalid Uri"@,
        Errors::InvalidOrBlockedHost => "Invalid or blocked destination host"@,
        Errors::TimedOut => "Connection/Request/Response from the destination timed out"@,
        Errors::ImageResizeError => "Image Resize Error"@,
        Errors::RpcPayloadTooBigError => "RPC Payload too big"@,
    }
}

impl Errors {
    /// The wire form of the error: its stable code, reason and the request
    /// it failed.
    pub fn to_rpc_error(&self, request_id: u128) -> (r: RpcError)
        ensures
            r.code == error_code(*self),
            r.reason@ == error_reason(*self),
            r.request_id == request_id,
    {
        let (code, reason): (u8, String) = match *self {
            Errors::InvalidRpcVersionError => (100, "Invalid RPC version".to_owned()),
            Errors::InvalidRpcMethodError => (101, "Invalid RPC method".to_owned()),
            Errors::JsonDecodeError => (102, "Invalid JSON supplied".to_owned()),
            Errors::InternalError => (103, "Internal Error".to_owned()),
            Errors::FetchFailed => (104, "Fetch Failed".to_owned()),
            Errors::NotFound => (105, "Image not found".to_owned()),
            Errors::ModerationFailed => (106, "Image moderation failed".to_owned()),
            Errors::UnsupportedImageType => (107, "Image type unsupported".to_owned()),
            Errors::UnsupportedUriScheme => (108, "Uri scheme unsupported".to_owned()),
            Errors::InvalidUri => (109, "Invalid Uri".to_owned()),
            Errors::InvalidOrBlockedHost => (
                110,
                "Invalid or blocked destination host".to_owned(),
            ),
            Errors::TimedOut => (
                111,
                "Connection/Request/Response from the destination timed out".to_owned(),
            ),
            Errors::ImageResizeError => (112, "Image Resize Error".to_owned()),
            Errors::RpcPayloadTooBigError => (113, "RPC Payload too big".to_owned()),
        };
        RpcError { code, reason, request_id }
    }
}

/// Errors with the same wire code are the same error: the table is
/// injective, so a code identifies its trigger.
pub proof fn lemma_error_code_injective(a: Errors, b: Errors)
    requires
        error_code(a) == error_code(b),
    ensures
        a == b,
{
}

} // verus!
