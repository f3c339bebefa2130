use vstd::prelude::*;

verus! {

/// The kinds of error with which a server rejects a request.
#[derive(Clone, Copy, Debug, PartialEq, Eq, Structural)]
pub enum ErrorKind {
    Forbidden,
    UnknownToken,
    BadJSON,
    NotJSON,
    NotFound,
    LimitExceeded,
    UserInUse,
    InvalidUsername,
    RoomInUse,
    BadPagination,
    ThreepidInUse,
    ThreepidNotFound,
    ServerNotTrusted,
}

/// A server's rejection, kept for display: its kind and, where the server
/// sent one, its message.
#[derive(Clone, Debug)]
pub struct RespError {
    kind: ErrorKind,
    message: Option<String>,
}

impl RespError {
    /// The kind that was stored.
    pub closed spec fn spec_kind(&self) -> ErrorKind {
        self.kind
    }

    /// The message that was stored, as text.
    pub closed spec fn spec_message(&self) -> Option<Seq<char>> {
        match self.message {
            Some(m) => Some(m@),
            None => None,
        }
    }

    /// Stores a rejection as it came.
    pub fn new(kind: ErrorKind, message: Option<String>) -> (e: Self)
        ensures
            e.spec_kind() == kind,
            e.spec_message() == match message {
                Some(m) => Some(m@),
                None => None,
            },
    {
        RespError { kind, message }
    }

    /// The kind of the rejection.
    pub fn kind(&self) -> (k: ErrorKind)
        ensures
            k == self.spec_kind(),
    {
        self.kind
    }

    /// The server's message, if it sent one.
    pub fn message(&self) -> (m: Option<&String>)
        ensures
            match m {
                Some(text) => self.spec_message() == Some(text@),
                None => self.spec_message().is_none(),
            },
    {
        match &self.message {
            Some(text) => Some(text),
            None => None,
        }
    }
}

} // verus!
