//! The platform's error kinds and their HTTP status codes.
use vstd::prelude::*;
use crate::text::concat2;

verus! {

#[derive(Clone, Debug)]
pub enum PloyerError {
    NotFound(String),
    Unauthorized(String),
    Forbidden(String),
    BadRequest(String),
    Conflict(String),
    Internal(String),
    Database(String),
    Docker(String),
    Git(String),
    Ssh(String),
    Proxy(String),
}

impl PloyerError {
    pub open spec fn code(&self) -> u16 {
        match self {
            PloyerError::NotFound(_) => 404,
            PloyerError::Unauthorized(_) => 401,
            PloyerError::Forbidden(_) => 403,
            PloyerError::BadRequest(_) => 400,
            PloyerError::Conflict(_) => 409,
            PloyerError::Docker(_) | PloyerError::Proxy(_) => 503,
            _ => 500,
        }
    }

    pub open spec fn prefix(&self) -> Seq<char> {
        match self {
            PloyerError::NotFound(_) => "Not found: "@,
            PloyerError::Unauthorized(_) => "Unauthorized: "@,
            PloyerError::Forbidden(_) => "Forbidden: "@,
            PloyerError::BadRequest(_) => "Bad request: "@,
            PloyerError::Conflict(_) => "Conflict: "@,
            PloyerError::Internal(_) => "Internal error: "@,
            PloyerError::Database(_) => "Database error: "@,
            PloyerError::Docker(_) => "Docker error: "@,
            PloyerError::Git(_) => "Git error: "@,
            PloyerError::Ssh(_) => "SSH error: "@,
            PloyerError::Proxy(_) => "Proxy error: "@,
        }
    }

    pub open spec fn detail(&self) -> Seq<char> {
        match self {
            PloyerError::NotFound(s) | PloyerError::Unauthorized(s) | PloyerError::Forbidden(s)
            | PloyerError::BadRequest(s) | PloyerError::Conflict(s) | PloyerError::Internal(s)
            | PloyerError::Database(s) | PloyerError::Docker(s) | PloyerError::Git(s)
            | PloyerError::Ssh(s) | PloyerError::Proxy(s) => s@,
        }
    }

    /// The HTTP status an API caller receives: absent engine or proxy is
    /// 503, storage, source-control and internal faults are 500.
    pub fn status_code(&self) -> (r: u16)
        ensures
            r == self.code(),
    {
        match self {
            PloyerError::NotFound(_) => 404,
            PloyerError::Unauthorized(_) => 401,
            PloyerError::Forbidden(_) => 403,
            PloyerError::BadRequest(_) => 400,
            PloyerError::Conflict(_) => 409,
            PloyerError::Docker(_) | PloyerError::Proxy(_) => 503,
            _ => 500,
        }
    }

    /// The text shown for the error, such as `Not found: app`.
    pub fn message(&self) -> (r: String)
        ensures
            r@ == self.prefix() + self.detail(),
    {
        match self {
            PloyerError::NotFound(s) => concat2("Not found: ", s.as_str()),
            PloyerError::Unauthorized(s) => concat2("Unauthorized: ", s.as_str()),
            PloyerError::Forbidden(s) => concat2("Forbidden: ", s.as_str()),
            PloyerError::BadRequest(s) => concat2("Bad request: ", s.as_str()),
            PloyerError::Conflict(s) => concat2("Conflict: ", s.as_str()),
            PloyerError::Internal(s) => concat2("Internal error: ", s.as_str()),
            PloyerError::Database(s) => concat2("Database error: ", s.as_str()),
            PloyerError::Docker(s) => concat2("Docker error: ", s.as_str()),
            PloyerError::Git(s) => concat2("Git error: ", s.as_str()),
            PloyerError::Ssh(s) => concat2("SSH error: ", s.as_str()),
            PloyerError::Proxy(s) => concat2("Proxy error: ", s.as_str()),
        }
    }
}

} // verus!
