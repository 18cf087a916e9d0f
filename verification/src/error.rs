use vstd::prelude::*;
use vstd::string::*;

verus! {

/// The categories of failure that the client reports.
#[derive(Debug, Clone, Copy, PartialEq, Eq, Structural)]
pub enum ErrorKind {
    Unexpected,
    IOError,
    InvalidData,
    LibrespotError,
    ChannelClosed,
    AuthFailed,
}

/// The text that names each kind of error when it is displayed.
pub open spec fn kind_text(kind: ErrorKind) -> Seq<char> {
    match kind {
        ErrorKind::Unexpected => "Unexpected error"@,
        ErrorKind::IOError => "I/O error"@,
        ErrorKind::InvalidData => "Invalid data"@,
        ErrorKind::LibrespotError => "Librespot internal error"@,
        ErrorKind::ChannelClosed => "Channel closed"@,
        ErrorKind::AuthFailed => "Authentication failed"@,
    }
}

impl ErrorKind {
    /// The displayed name of this kind.
    pub fn as_str(&self) -> (r: &'static str)
        ensures
            r@ == kind_text(*self),
    {
        match self {
            ErrorKind::Unexpected => "Unexpected error",
            ErrorKind::IOError => "I/O error",
            ErrorKind::InvalidData => "Invalid data",
            ErrorKind::LibrespotError => "Librespot internal error",
            ErrorKind::ChannelClosed => "Channel closed",
            ErrorKind::AuthFailed => "Authentication failed",
        }
    }
}


/// A failure, with the situation it arose in and the message of its cause.
#[derive(Debug, Clone)]
pub struct Error {
    pub kind: ErrorKind,
    pub situation: Option<String>,
    pub details: String,
}

/// The text an error shows: its kind, the situation in brackets where there
/// is one, and the message of its cause in braces.
pub open spec fn display_text(kind: ErrorKind, situation: Option<Seq<char>>, details: Seq<char>) -> Seq<char> {
    kind_text(kind) + match situation {
        Some(s) => " ("@ + s + ")"@,
        None => Seq::<char>::empty(),
    } + ": { "@ + details + " }"@
}

/// The situation of an error as plain text.
pub open spec fn situation_view(situation: Option<String>) -> Option<Seq<char>> {
    match situation {
        Some(s) => Some(s@),
        None => None,
    }
}

impl Error {
    /// The displayed text of this error.
    pub open spec fn text(&self) -> Seq<char> {
        display_text(self.kind, situation_view(self.situation), self.details@)
    }

    /// An error of the given kind whose cause has the given message, in no
    /// particular situation.
    pub fn new(kind: ErrorKind, details: &str) -> (r: Error)
        ensures
            r.kind == kind,
            r.situation.is_none(),
            r.details@ == details@,
    {
        Error { kind, situation: None, details: String::from_str(details) }
    }

    /// The same error, placed in a situation (a phrase that preferably starts
    /// with "while", "during" or "when").
    pub fn situation(self, situation: &str) -> (r: Error)
        ensures
            r.kind == self.kind,
            r.details@ == self.details@,
            r.situation.is_some(),
            r.situation.unwrap()@ == situation@,
    {
        Error { kind: self.kind, situation: Some(String::from_str(situation)), details: self.details }
    }

    /// An input/output failure with the given message.
    pub fn io_error(details: &str) -> (r: Error)
        ensures
            r.kind == ErrorKind::IOError,
            r.situation.is_none(),
            r.details@ == details@,
    {
        Self::new(ErrorKind::IOError, details)
    }

    /// A failure caused by malformed data, with the given message.
    pub fn invalid_data(message: &str) -> (r: Error)
        ensures
            r.kind == ErrorKind::InvalidData,
            r.situation.is_none(),
            r.details@ == message@,
    {
        Self::new(ErrorKind::InvalidData, message)
    }

    /// A failed login, with the given message.
    pub fn auth_failed(message: &str) -> (r: Error)
        ensures
            r.kind == ErrorKind::AuthFailed,
            r.situation.is_none(),
            r.details@ == message@,
    {
        Self::new(ErrorKind::AuthFailed, message)
    }

    /// The error that an OAuth failure with the given message becomes.
    pub fn oauth(details: &str) -> (r: Error)
        ensures
            r.kind == ErrorKind::Unexpected,
            r.situation.is_some(),
            r.situation.unwrap()@ == "while handling OAuth"@,
            r.details@ == details@,
    {
        Self::new(ErrorKind::Unexpected, details).situation("while handling OAuth")
    }

    /// The error that an internal librespot failure with the given message becomes.
    pub fn librespot(details: &str) -> (r: Error)
        ensures
            r.kind == ErrorKind::LibrespotError,
            r.situation.is_none(),
            r.details@ == details@,
    {
        Self::new(ErrorKind::LibrespotError, details)
    }

    /// The error that a send on a closed channel becomes.
    pub fn channel_closed() -> (r: Error)
        ensures
            r.kind == ErrorKind::ChannelClosed,
            r.situation.is_none(),
            r.details@ == "Currently read MPSC channel has already been closed"@,
    {
        Self::new(ErrorKind::ChannelClosed, "Currently read MPSC channel has already been closed")
    }

    /// The displayed text of this error.
    pub fn to_string(&self) -> (r: String)
        ensures
            r@ == self.text(),
    {
        let mut out = String::from_str(self.kind.as_str());
        match &self.situation {
            Some(s) => {
                out.append(" (");
                out.append(s.as_str());
                out.append(")");
            },
            None => {},
        }
        out.append(": { ");
        out.append(self.details.as_str());
        out.append(" }");
        out
    }
}

} // verus!
