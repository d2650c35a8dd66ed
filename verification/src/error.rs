//! An error that is built up step by step.

use vstd::prelude::*;

verus! {

/// What an [`Error`] holds, as plain values.
pub struct ErrorView {
    pub code: Seq<char>,
    pub status: u16,
    pub message: Seq<char>,
}

/// An error with a code, a status and a message.
#[derive(Debug)]
pub struct Error {
    code: String,
    status: u16,
    message: String,
}

impl View for Error {
    type V = ErrorView;

    closed spec fn view(&self) -> ErrorView {
        ErrorView { code: self.code@, status: self.status, message: self.message@ }
    }
}

impl Default for Error {
    /// The unknown error, with status 500.
    fn default() -> (e: Error)
        ensures
            e@ == (ErrorView {
                code: "UNKNOWN"@,
                status: 500,
                message: "Unknown error has happened."@,
            }),
    {
        Error {
            code: "UNKNOWN".to_owned(),
            status: 500,
            message: "Unknown error has happened.".to_owned(),
        }
    }
}

impl Error {
    /// The default error, with `code` in place of its code.
    pub fn new(code: String) -> (e: Error)
        ensures
            e@ == (ErrorView {
                code: code@,
                status: 500,
                message: "Unknown error has happened."@,
            }),
    {
        let mut err = Self::default();
        err.code = code;
        err
    }

    /// Sets the status, and hands the error back for the next step.
    pub fn status(&mut self, s: u16) -> (e: &mut Error)
        ensures
            e@ == (ErrorView { status: s, ..old(self)@ }),
            *final(self) == *final(e),
    {
        self.status = s;
        self
    }

    /// Sets the message, and hands the error back for the next step.
    pub fn message(&mut self, m: String) -> (e: &mut Error)
        ensures
            e@ == (ErrorView { message: m@, ..old(self)@ }),
            *final(self) == *final(e),
    {
        self.message = m;
        self
    }
}

} // verus!
