//! Error type shared by every module of the library.

use vstd::prelude::*;

verus! {

/// Errors produced by the library's checks and resolvers.
#[derive(Debug, PartialEq, Eq)]
pub enum ZoteroMcpError {
    /// The request was refused by a security or size policy.
    InputRejected(String),
    /// A write was attempted while writes are disabled.
    PermissionDenied(String),
    /// A requested object does not exist.
    NotFound(String),
    /// A filesystem operation failed.
    Io(String),
    /// The PDF backend could not parse a file.
    PdfExtract(String),
    /// The semantic index location could not be determined.
    LocalDb(String),
    /// Embedding data was malformed.
    Embedding(String),
    /// A request named something that does not exist (resource, prompt).
    InvalidParams(String),
    /// Better BibTeX could not answer a request.
    BetterBibTeX(String),
    /// A backend could not be reached.
    Network(String),
}

impl ZoteroMcpError {
    /// Returns the message carried by the error.
    pub fn message(&self) -> (r: &String)
        ensures
            r == self.message_spec(),
    {
        match self {
            ZoteroMcpError::InputRejected(m) => m,
            ZoteroMcpError::PermissionDenied(m) => m,
            ZoteroMcpError::NotFound(m) => m,
            ZoteroMcpError::Io(m) => m,
            ZoteroMcpError::PdfExtract(m) => m,
            ZoteroMcpError::LocalDb(m) => m,
            ZoteroMcpError::Embedding(m) => m,
            ZoteroMcpError::InvalidParams(m) => m,
            ZoteroMcpError::BetterBibTeX(m) => m,
            ZoteroMcpError::Network(m) => m,
        }
    }

    /// The message carried by the error.
    pub open spec fn message_spec(&self) -> &String {
        match self {
            ZoteroMcpError::InputRejected(m) => m,
            ZoteroMcpError::PermissionDenied(m) => m,
            ZoteroMcpError::NotFound(m) => m,
            ZoteroMcpError::Io(m) => m,
            ZoteroMcpError::PdfExtract(m) => m,
            ZoteroMcpError::LocalDb(m) => m,
            ZoteroMcpError::Embedding(m) => m,
            ZoteroMcpError::InvalidParams(m) => m,
            ZoteroMcpError::BetterBibTeX(m) => m,
            ZoteroMcpError::Network(m) => m,
        }
    }
}

/// `r` is an `InputRejected` error carrying the message `m`.
pub open spec fn rejected_with<T>(r: Result<T, ZoteroMcpError>, m: Seq<char>) -> bool {
    r matches Err(ZoteroMcpError::InputRejected(s)) && s@ == m
}

/// `r` is an `Io` error carrying the message `m`.
pub open spec fn io_failed_with<T>(r: Result<T, ZoteroMcpError>, m: Seq<char>) -> bool {
    r matches Err(ZoteroMcpError::Io(s)) && s@ == m
}

/// `r` is a `NotFound` error carrying the message `m`.
pub open spec fn not_found_with<T>(r: Result<T, ZoteroMcpError>, m: Seq<char>) -> bool {
    r matches Err(ZoteroMcpError::NotFound(s)) && s@ == m
}

/// `r` is a `PermissionDenied` error carrying the message `m`.
pub open spec fn denied_with<T>(r: Result<T, ZoteroMcpError>, m: Seq<char>) -> bool {
    r matches Err(ZoteroMcpError::PermissionDenied(s)) && s@ == m
}

/// `r` is an `InvalidParams` error carrying the message `m`.
pub open spec fn invalid_with<T>(r: Result<T, ZoteroMcpError>, m: Seq<char>) -> bool {
    r matches Err(ZoteroMcpError::InvalidParams(s)) && s@ == m
}

/// `r` succeeded with a string whose characters are `v`.
pub open spec fn ok_string<E>(r: Result<String, E>, v: Seq<char>) -> bool {
    r matches Ok(s) && s@ == v
}

} // verus!
