use vstd::prelude::*;

verus! {

/// The kind of failure an operation reports.
#[derive(Clone, Copy, Debug, PartialEq, Eq, Structural)]
pub enum ErrorKind {
    /// No kind was given.
    Unspecified,
    /// The request could not be sent or its answer could not be received.
    Transport,
    /// The backend answered with a status other than the expected one.
    Status,
    /// The answer did not have the expected shape, or an outgoing payload
    /// could not be built.
    Parse,
}

/// An error: a message, and the display text of an underlying cause, if any.
#[derive(Clone, Debug)]
pub struct Error {
    pub kind: ErrorKind,
    pub source: Option<String>,
    pub message: String,
}

impl Error {
    pub fn new(message: String) -> (r: Self)
        ensures
            r.kind == ErrorKind::Unspecified,
            r.source is None,
            r.message@ == message@,
    {
        Error { kind: ErrorKind::Unspecified, source: None, message }
    }

    /// An error caused by an underlying failure, given as its display text.
    pub fn with_source(source: String, message: String) -> (r: Self)
        ensures
            r.kind == ErrorKind::Unspecified,
            r.source == Some(source),
            r.message@ == message@,
    {
        Error { kind: ErrorKind::Unspecified, source: Some(source), message }
    }

    pub fn of_kind(kind: ErrorKind, message: String) -> (r: Self)
        ensures
            r.kind == kind,
            r.source is None,
            r.message@ == message@,
    {
        Error { kind, source: None, message }
    }

    /// The message, then a line break, then the cause's text if there is one.
    pub fn to_string(&self) -> (r: String)
        ensures
            r@ == self.display(),
    {
        let mut r = self.message.clone();
        r.append("\n");
        match &self.source {
            Some(s) => {
                r.append(s.as_str());
            },
            None => {},
        }
        r
    }

    pub open spec fn display(&self) -> Seq<char> {
        match self.source {
            Some(s) => self.message@ + "\n"@ + s@,
            None => self.message@ + "\n"@,
        }
    }
}

} // verus!
