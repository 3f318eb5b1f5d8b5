use vstd::prelude::*;

verus! {

/// The error codes that the service reports to its clients.
#[derive(Clone, Copy, Debug, PartialEq, Eq, Structural)]
pub enum ErrorCode {
    Unspecified,
    Internal,
    Unauthorized,
    NotFound,
    AlreadyExists,
    InvalidFormat,
    Restricted,
    Unwanted,
}

/// An error of the service: a code and a human readable message.
#[derive(Clone, Debug)]
pub struct Error {
    pub code: ErrorCode,
    pub message: String,
}

/// The name under which an error code is shown.
pub open spec fn spec_code_name(code: ErrorCode) -> Seq<char> {
    match code {
        ErrorCode::Unspecified => "UNSPECIFIED"@,
        ErrorCode::Internal => "INTERNAL"@,
        ErrorCode::Unauthorized => "UNAUTHORIZED"@,
        ErrorCode::NotFound => "NOT_FOUND"@,
        ErrorCode::AlreadyExists => "ALREADY_EXISTS"@,
        ErrorCode::InvalidFormat => "INVALID_FORMAT"@,
        ErrorCode::Restricted => "RESTRICTED"@,
        ErrorCode::Unwanted => "UNWANTED"@,
    }
}

impl Error {
    /// Whether this error has the given code and message.
    pub open spec fn is(self, code: ErrorCode, message: Seq<char>) -> bool {
        self.code == code && self.message@ == message
    }

    pub fn new(code: ErrorCode, message: &str) -> (e: Error)
        ensures
            e.is(code, message@),
    {
        Error { code, message: String::from_str(message) }
    }

    pub fn internal(message: &str) -> (e: Error)
        ensures
            e.is(ErrorCode::Internal, message@),
    {
        Self::new(ErrorCode::Internal, message)
    }

    pub fn unauthorized(message: &str) -> (e: Error)
        ensures
            e.is(ErrorCode::Unauthorized, message@),
    {
        Self::new(ErrorCode::Unauthorized, message)
    }

    pub fn not_found(message: &str) -> (e: Error)
        ensures
            e.is(ErrorCode::NotFound, message@),
    {
        Self::new(ErrorCode::NotFound, message)
    }

    pub fn already_exists(message: &str) -> (e: Error)
        ensures
            e.is(ErrorCode::AlreadyExists, message@),
    {
        Self::new(ErrorCode::AlreadyExists, message)
    }

    pub fn invalid_format(message: &str) -> (e: Error)
        ensures
            e.is(ErrorCode::InvalidFormat, message@),
    {
        Self::new(ErrorCode::InvalidFormat, message)
    }

    pub fn restricted(message: &str) -> (e: Error)
        ensures
            e.is(ErrorCode::Restricted, message@),
    {
        Self::new(ErrorCode::Restricted, message)
    }

    pub fn unwanted(message: &str) -> (e: Error)
        ensures
            e.is(ErrorCode::Unwanted, message@),
    {
        Self::new(ErrorCode::Unwanted, message)
    }

    /// The name of this error's code, as shown to operators.
    pub fn code_name(&self) -> (name: &'static str)
        ensures
            name@ == spec_code_name(self.code),
    {
        proof {
            reveal_strlit("UNSPECIFIED");
            reveal_strlit("INTERNAL");
            reveal_strlit("UNAUTHORIZED");
            reveal_strlit("NOT_FOUND");
            reveal_strlit("ALREADY_EXISTS");
            reveal_strlit("INVALID_FORMAT");
            reveal_strlit("RESTRICTED");
            reveal_strlit("UNWANTED");
        }
        match self.code {
            ErrorCode::Unspecified => "UNSPECIFIED",
            ErrorCode::Internal => "INTERNAL",
            ErrorCode::Unauthorized => "UNAUTHORIZED",
            ErrorCode::NotFound => "NOT_FOUND",
            ErrorCode::AlreadyExists => "ALREADY_EXISTS",
            ErrorCode::InvalidFormat => "INVALID_FORMAT",
            ErrorCode::Restricted => "RESTRICTED",
            ErrorCode::Unwanted => "UNWANTED",
        }
    }

    /// The text under which the error is displayed: its code name, a colon and a
    /// space, then the message.
    pub fn describe(&self) -> (s: String)
        ensures
            s@ == spec_code_name(self.code) + ": "@ + self.message@,
    {
        let mut s = String::from_str(self.code_name());
        s.append(": ");
        s.append(self.message.as_str());
        s
    }
}

} // verus!

verus! {

/// An error as seen by a contract: its code and its message.
pub type Failure = (ErrorCode, Seq<char>);

/// The code and message of an error.
pub open spec fn failure(e: Error) -> Failure {
    (e.code, e.message@)
}

/// A result with its error seen as a code and a message.
pub open spec fn outcome<T>(r: Result<T, Error>) -> Result<T, Failure> {
    match r {
        Ok(v) => Ok(v),
        Err(e) => Err(failure(e)),
    }
}

} // verus!
