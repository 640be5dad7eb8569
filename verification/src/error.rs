use vstd::prelude::*;

verus! {

/// The HTTP status of a refused request.
pub const BAD_REQUEST: u16 = 400;

/// The HTTP status of a request whose credential is not known.
pub const UNAUTHORIZED: u16 = 401;

/// The HTTP status of a server fault.
pub const INTERNAL_SERVER_ERROR: u16 = 500;

/// The HTTP status of a failure in a service behind the application.
pub const BAD_GATEWAY: u16 = 502;

/// The HTTP status of a resource that cannot be had now.
pub const SERVICE_UNAVAILABLE: u16 = 503;

/// What an error says: the text it shows and, when it wraps the failure that
/// caused it, the text of that failure.
#[derive(Debug)]
pub struct Report {
    pub message: String,
    pub cause: Option<String>,
}

/// The view of an optional text.
pub open spec fn optional_text(t: Option<String>) -> Option<Seq<char>> {
    match t {
        Some(s) => Some(s@),
        None => None,
    }
}

impl Report {
    /// A report that shows `message` and wraps no other failure.
    pub fn new(message: String) -> (r: Report)
        ensures
            r.message == message,
            r.cause is None,
    {
        Report { message, cause: None }
    }

    /// A report that shows `message` and wraps the failure `cause`.
    pub fn caused_by(message: String, cause: String) -> (r: Report)
        ensures
            r.message == message,
            r.cause == Some(cause),
    {
        Report { message, cause: Some(cause) }
    }
}

/// An error of a request handler, with what it says and, for an error that goes
/// back to the client, the HTTP status to answer with.
#[derive(Debug)]
pub enum Error {
    /// An error that the handler should have dealt with itself.
    Handleable(Report),
    /// An error that goes back to the client with the given status.
    Unhandleable(Report, u16),
    /// An error of unknown origin.
    Unknown(Report),
}

impl Error {
    /// The HTTP status that the error is answered with.
    pub open spec fn status(&self) -> u16 {
        match self {
            Error::Handleable(_) => INTERNAL_SERVER_ERROR,
            Error::Unhandleable(_, code) => *code,
            Error::Unknown(_) => INTERNAL_SERVER_ERROR,
        }
    }

    /// What the error says.
    pub open spec fn report(&self) -> &Report {
        match self {
            Error::Handleable(m) => m,
            Error::Unhandleable(m, _) => m,
            Error::Unknown(m) => m,
        }
    }

    /// The text the error shows.
    pub open spec fn text(&self) -> Seq<char> {
        self.report().message@
    }

    /// The text of the failure the error wraps, if any.
    pub open spec fn cause_text(&self) -> Option<Seq<char>> {
        optional_text(self.report().cause)
    }

    /// The HTTP status that the error is answered with: its own for an error that
    /// goes back to the client, 500 for any other.
    pub fn status_code(&self) -> (r: u16)
        ensures
            r == self.status(),
    {
        match self {
            Error::Handleable(_) => INTERNAL_SERVER_ERROR,
            Error::Unhandleable(_, code) => *code,
            Error::Unknown(_) => INTERNAL_SERVER_ERROR,
        }
    }

    /// The text the error shows.
    pub fn message(&self) -> (r: &str)
        ensures
            r@ == self.text(),
    {
        match self {
            Error::Handleable(m) => m.message.as_str(),
            Error::Unhandleable(m, _) => m.message.as_str(),
            Error::Unknown(m) => m.message.as_str(),
        }
    }

    /// The text of the failure the error wraps, if any.
    pub fn cause(&self) -> (r: Option<&str>)
        ensures
            r matches Some(c) ==> self.cause_text() == Some(c@),
            r is None ==> self.cause_text() is None,
    {
        let report = match self {
            Error::Handleable(m) => m,
            Error::Unhandleable(m, _) => m,
            Error::Unknown(m) => m,
        };
        match &report.cause {
            Some(c) => Some(c.as_str()),
            None => None,
        }
    }
}

/// Whether `r` is an error that goes back to the client with status `code` and text `text`.
pub open spec fn answered_with<T>(r: Result<T, Error>, code: u16, text: Seq<char>) -> bool {
    r matches Err(e) && e is Unhandleable && e.status() == code && e.text() == text
}

/// Whether `r` is an error that wraps the failure whose text is `cause`.
pub open spec fn caused_by<T>(r: Result<T, Error>, cause: Option<Seq<char>>) -> bool {
    r matches Err(e) && e.cause_text() == cause
}

/// Turns the failure of a fallible step into an error that goes back to the
/// client with a given status and text, and that wraps the failure.
pub trait OnErrorReturn<T>: Sized {
    /// The value of the step when it succeeded.
    spec fn succeeded_with(self) -> Option<T>;

    /// Whether `cause` is the text that the failure of the step displays as.
    spec fn failure_displays_as(self, cause: String) -> bool;

    fn on_error_return(self, status_code: u16, body: &str) -> (r: Result<T, Error>)
        ensures
            self.succeeded_with() matches Some(v) ==> r == Ok::<T, Error>(v),
            self.succeeded_with() is None ==> answered_with(r, status_code, body@),
            self.succeeded_with() is None ==> (r matches Err(e)
                && e.report().cause matches Some(c) && self.failure_displays_as(c)),
    ;
}

impl<T, E: std::fmt::Display> OnErrorReturn<T> for Result<T, E> {
    open spec fn succeeded_with(self) -> Option<T> {
        match self {
            Ok(v) => Some(v),
            Err(_) => None,
        }
    }

    open spec fn failure_displays_as(self, cause: String) -> bool {
        match self {
            Ok(_) => false,
            Err(e) => vstd::string::to_string_from_display_ensures::<E>(&e, cause),
        }
    }

    fn on_error_return(self, status_code: u16, body: &str) -> (r: Result<T, Error>) {
        match self {
            Ok(v) => Ok(v),
            Err(e) => {
                let cause = e.to_string();
                Err(Error::Unhandleable(Report::caused_by(body.to_string(), cause), status_code))
            },
        }
    }
}

/// Turns the failure of a step whose error is a text into an error that goes back
/// to the client with that text and a given status.
pub trait OnErrorStatus<T>: Sized {
    /// The value of the step when it succeeded.
    spec fn succeeded_with(self) -> Option<T>;

    /// The text of the failure of the step.
    spec fn failure_text(self) -> Seq<char>;

    fn on_error_status(self, status_code: u16) -> (r: Result<T, Error>)
        ensures
            self.succeeded_with() matches Some(v) ==> r == Ok::<T, Error>(v),
            self.succeeded_with() is None ==> answered_with(r, status_code, self.failure_text()),
            self.succeeded_with() is None ==> caused_by(r, None),
    ;
}

impl<T> OnErrorStatus<T> for Result<T, String> {
    open spec fn succeeded_with(self) -> Option<T> {
        match self {
            Ok(v) => Some(v),
            Err(_) => None,
        }
    }

    open spec fn failure_text(self) -> Seq<char> {
        match self {
            Ok(_) => Seq::empty(),
            Err(e) => e@,
        }
    }

    fn on_error_status(self, status_code: u16) -> (r: Result<T, Error>) {
        match self {
            Ok(v) => Ok(v),
            Err(e) => Err(Error::Unhandleable(Report::new(e), status_code)),
        }
    }
}

/// Turns a missing value into an error that goes back to the client with a given
/// status and text.
pub trait WhenNoneReturn<T>: Sized {
    /// The value, when there is one.
    spec fn present(self) -> Option<T>;

    fn when_none_return(self, status_code: u16, body: &str) -> (r: Result<T, Error>)
        ensures
            self.present() matches Some(v) ==> r == Ok::<T, Error>(v),
            self.present() is None ==> answered_with(r, status_code, body@),
            self.present() is None ==> caused_by(r, None),
    ;
}

impl<T> WhenNoneReturn<T> for Option<T> {
    open spec fn present(self) -> Option<T> {
        self
    }

    fn when_none_return(self, status_code: u16, body: &str) -> (r: Result<T, Error>) {
        match self {
            Some(v) => Ok(v),
            None => Err(Error::Unhandleable(Report::new(body.to_string()), status_code)),
        }
    }
}

} // verus!
