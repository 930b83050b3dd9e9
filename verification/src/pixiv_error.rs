//! Errors of the Pixiv integration, with the context they carry.
use vstd::prelude::*;

use crate::text::{chars_of, dec_text, int_text, owned, push_chars, push_dec, push_int};

verus! {

/// Error type for Pixiv operations, with the credential or operation it
/// concerns. The client error that caused it is kept by the caller.
#[derive(Debug)]
#[allow(inconsistent_fields)]
pub enum PixivError {
    /// Authentication failed (invalid token, expired refresh token, etc.)
    Auth { message: String, credential_id: Option<i32> },
    /// API request failed (network error, timeout, etc.)
    Request { message: String, operation: String },
    /// API returned an error status code, shown as its number and reason.
    Status { status: u16, reason: String, operation: String },
    /// Token persistence failed (database error)
    Persistence { message: String, credential_id: i32 },
    /// No active credentials found
    NoCredentials,
    /// Invalid configuration or parameters
    InvalidConfig(String),
}

/// The kind of an error of the Pixiv client.
#[derive(Debug)]
pub enum ClientErrorKind {
    /// Authentication was refused.
    Auth,
    /// The API answered with an error status, given as its number and reason.
    Status { status: u16, reason: String },
    /// Anything else (network, decoding, ...).
    Other,
}

/// The human-readable text of an error.
pub open spec fn pixiv_error_text(e: PixivError) -> Seq<char> {
    match e {
        PixivError::Auth { message, credential_id } => match credential_id {
            Some(id) => "Pixiv auth failed (credential "@ + int_text(id as int) + "): "@ + message@,
            None => "Pixiv auth failed: "@ + message@,
        },
        PixivError::Request { message, operation } => "Pixiv "@ + operation@ + " request failed: "@
            + message@,
        PixivError::Status { status, reason, operation } => "Pixiv "@ + operation@
            + " returned error status: "@ + dec_text(status as nat) + " "@ + reason@,
        PixivError::Persistence { message, credential_id } => "Failed to persist tokens for credential "@
            + int_text(credential_id as int) + ": "@ + message@,
        PixivError::NoCredentials => "No active Pixiv credentials found"@,
        PixivError::InvalidConfig(msg) => "Invalid Pixiv configuration: "@ + msg@,
    }
}

fn push_str(out: &mut String, s: &str)
    ensures
        final(out)@ == old(out)@ + s@,
{
    let v = chars_of(s);
    push_chars(out, &v);
}

impl PixivError {
    /// An authentication error for the credential `credential_id`.
    pub fn auth_credential(message: &str, credential_id: i32) -> (r: PixivError)
        ensures
            r matches PixivError::Auth { message: m, credential_id: c } && m@ == message@ && c
                == Some(credential_id),
    {
        PixivError::Auth { message: owned(message), credential_id: Some(credential_id) }
    }

    /// An authentication error carrying the text of the client error that
    /// caused it.
    pub fn auth_from_source(source_text: &str, credential_id: Option<i32>) -> (r: PixivError)
        ensures
            r matches PixivError::Auth { message: m, credential_id: c } && m@ == source_text@ && c
                == credential_id,
    {
        PixivError::Auth { message: owned(source_text), credential_id }
    }

    /// A failed request of `operation`, carrying the text of the client
    /// error.
    pub fn request(operation: &str, source_text: &str) -> (r: PixivError)
        ensures
            r matches PixivError::Request { message: m, operation: o } && m@ == source_text@ && o@
                == operation@,
    {
        PixivError::Request { message: owned(source_text), operation: owned(operation) }
    }

    /// An error status answered to `operation`.
    pub fn status(status: u16, reason: &str, operation: &str) -> (r: PixivError)
        ensures
            r matches PixivError::Status { status: s, reason: x, operation: o } && s == status && x@
                == reason@ && o@ == operation@,
    {
        PixivError::Status { status, reason: owned(reason), operation: owned(operation) }
    }

    /// The error for a client error of the given kind with the given text:
    /// an authentication failure, an error status, or a failed request,
    /// the operation being unknown.
    pub fn from_client(kind: ClientErrorKind, source_text: &str) -> (r: PixivError)
        ensures
            match kind {
                ClientErrorKind::Auth => r matches PixivError::Auth { message: m, credential_id: c }
                    && m@ == source_text@ && c is None,
                ClientErrorKind::Status { status, reason } => r matches PixivError::Status {
                    status: s,
                    reason: x,
                    operation: o,
                } && s == status && x@ == reason@ && o@ == "unknown"@,
                ClientErrorKind::Other => r matches PixivError::Request { message: m, operation: o }
                    && m@ == source_text@ && o@ == "unknown"@,
            },
    {
        match kind {
            ClientErrorKind::Auth => PixivError::auth_from_source(source_text, None),
            ClientErrorKind::Status { status, reason } => PixivError::status(status, reason.as_str(), "unknown"),
            ClientErrorKind::Other => PixivError::request("unknown", source_text),
        }
    }

    /// A token persistence error for the credential `credential_id`.
    pub fn persistence(message: &str, credential_id: i32) -> (r: PixivError)
        ensures
            r matches PixivError::Persistence { message: m, credential_id: c } && m@ == message@
                && c == credential_id,
    {
        PixivError::Persistence { message: owned(message), credential_id }
    }

    /// An invalid-configuration error holding `s`.
    pub fn from_string(s: String) -> (r: PixivError)
        ensures
            r == PixivError::InvalidConfig(s),
    {
        PixivError::InvalidConfig(s)
    }

    /// Returns true if this is an authentication error.
    pub fn is_auth_error(&self) -> (r: bool)
        ensures
            r == (*self is Auth),
    {
        match self {
            PixivError::Auth { .. } => true,
            _ => false,
        }
    }

    /// Returns the credential ID if available.
    pub fn credential_id(&self) -> (r: Option<i32>)
        ensures
            r == match *self {
                PixivError::Auth { credential_id, .. } => credential_id,
                PixivError::Persistence { credential_id, .. } => Some(credential_id),
                _ => None::<i32>,
            },
    {
        match self {
            PixivError::Auth { credential_id, .. } => *credential_id,
            PixivError::Persistence { credential_id, .. } => Some(*credential_id),
            _ => None,
        }
    }

    /// Returns the operation name if available.
    pub fn operation(&self) -> (r: Option<&str>)
        ensures
            match *self {
                PixivError::Request { operation, .. } => r matches Some(o) && o@ == operation@,
                PixivError::Status { operation, .. } => r matches Some(o) && o@ == operation@,
                _ => r is None,
            },
    {
        match self {
            PixivError::Request { operation, .. } => Some(operation.as_str()),
            PixivError::Status { operation, .. } => Some(operation.as_str()),
            _ => None,
        }
    }

    /// The human-readable text of this error.
    pub fn message(&self) -> (r: String)
        ensures
            r@ == pixiv_error_text(*self),
    {
        let mut out = String::new();
        match self {
            PixivError::Auth { message, credential_id } => match credential_id {
                Some(id) => {
                    push_str(&mut out, "Pixiv auth failed (credential ");
                    push_int(&mut out, *id as i64);
                    push_str(&mut out, "): ");
                    push_str(&mut out, message.as_str());
                },
                None => {
                    push_str(&mut out, "Pixiv auth failed: ");
                    push_str(&mut out, message.as_str());
                },
            },
            PixivError::Request { message, operation } => {
                push_str(&mut out, "Pixiv ");
                push_str(&mut out, operation.as_str());
                push_str(&mut out, " request failed: ");
                push_str(&mut out, message.as_str());
            },
            PixivError::Status { status, reason, operation } => {
                push_str(&mut out, "Pixiv ");
                push_str(&mut out, operation.as_str());
                push_str(&mut out, " returned error status: ");
                push_dec(&mut out, *status as u64);
                push_str(&mut out, " ");
                push_str(&mut out, reason.as_str());
            },
            PixivError::Persistence { message, credential_id } => {
                push_str(&mut out, "Failed to persist tokens for credential ");
                push_int(&mut out, *credential_id as i64);
                push_str(&mut out, ": ");
                push_str(&mut out, message.as_str());
            },
            PixivError::NoCredentials => {
                push_str(&mut out, "No active Pixiv credentials found");
            },
            PixivError::InvalidConfig(msg) => {
                push_str(&mut out, "Invalid Pixiv configuration: ");
                push_str(&mut out, msg.as_str());
            },
        }
        assert(out@ =~= pixiv_error_text(*self));
        out
    }
}

} // verus!
