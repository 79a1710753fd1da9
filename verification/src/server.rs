//! The decisions of the connection dispatcher.
//!
//! The dispatcher itself — listener, per-connection tasks and the
//! bounded result channel — is networking plumbing and lives outside
//! the library. What it decides is here: which policy a configuration
//! selects, how a completed session's raw envelope becomes a result,
//! and what a connection task does with that result.

use vstd::prelude::*;

use crate::email::{Email, EmailV, ParseError, ParseErrorV, parse_spec};
use crate::smtp::{Auth, AuthV, Data, DataV, Response, ResponseV};

verus! {

/// The port used when a configuration names none.
pub const DEFAULT_PORT: u16 = 587;

/// An error while receiving email.
#[derive(Debug)]
pub enum Error {
    /// A protocol-level failure of the SMTP exchange.
    Smtp(crate::smtp::Error),
    /// The captured payload could not be parsed or validated.
    Parse(ParseError),
    /// Accepting a connection failed, by its message.
    Accept(String),
}

/// Model of [`Error`].
#[verifier::ext_equal]
pub enum ErrorV {
    Smtp(crate::smtp::ErrorV),
    Parse(ParseErrorV),
    Accept(Seq<char>),
}

impl View for Error {
    type V = ErrorV;

    open spec fn view(&self) -> ErrorV {
        match self {
            Error::Smtp(e) => ErrorV::Smtp(e@),
            Error::Parse(e) => ErrorV::Parse(e@),
            Error::Accept(m) => ErrorV::Accept(m@),
        }
    }
}

/// The policy a configuration selects: provided credentials mandate a
/// login with exactly those credentials; otherwise `strict` decides
/// whether only anonymous clients or all clients are accepted.
pub fn auth_from_config(username_password: Option<(String, String)>, strict: bool) -> (r: Auth)
    ensures
        r@ == (match username_password.deep_view() {
            Some((u, p)) => AuthV::Login { username: u, password: p },
            None => if strict {
                AuthV::AcceptAnonOnly
            } else {
                AuthV::AcceptAll
            },
        }),
{
    match username_password {
        Some((username, password)) => Auth::Login { username, password },
        None => if strict {
            Auth::AcceptAnonOnly
        } else {
            Auth::AcceptAll
        },
    }
}

/// What [`finish_session`] returns, on the models.
pub open spec fn finish_spec(response: ResponseV<DataV>) -> Result<ResponseV<EmailV>, ErrorV> {
    match response {
        ResponseV::Email(d) => match parse_spec(d) {
            Ok(e) => Ok(ResponseV::Email(e)),
            Err(pe) => Err(ErrorV::Parse(pe)),
        },
        ResponseV::Continue => Ok(ResponseV::Continue),
        ResponseV::Quit => Ok(ResponseV::Quit),
    }
}

/// Completes a session's outcome: a captured raw envelope is parsed
/// and validated into an [`Email`]; the continue and quit signals pass
/// through; exactly [`finish_spec`] of the views.
pub fn finish_session(response: Response<Data>) -> (r: Result<Response<Email>, Error>)
    ensures
        match r {
            Ok(x) => finish_spec(response@) is Ok && x@ == finish_spec(response@)->Ok_0,
            Err(e) => finish_spec(response@) is Err && e@ == finish_spec(response@)->Err_0,
        },
        (match r {
            Ok(Response::Email(e)) => e.wf(),
            _ => true,
        }),
{
    match response {
        Response::Email(data) => match Email::parse(data) {
            Ok(email) => Ok(Response::Email(email)),
            Err(e) => Err(Error::Parse(e)),
        },
        Response::Continue => Ok(Response::Continue),
        Response::Quit => Ok(Response::Quit),
    }
}

/// What a connection task does with one completed session.
#[derive(Debug)]
pub enum TaskAction {
    /// Hand this result to the consumer. A delivered email is followed
    /// by another session on the same connection; a delivered error, or
    /// a consumer that is gone, ends the task.
    Deliver(Result<Email, Error>),
    /// Run another session on the same connection without reporting.
    Proceed,
    /// Drop the connection without further protocol traffic.
    Stop,
}

/// The connection task's rule: a completed email and any failure are
/// delivered; a continue signal silently restarts the session; a quit
/// signal ends the task.
pub fn task_action(result: Result<Response<Email>, Error>) -> (a: TaskAction)
    ensures
        a == (match result {
            Ok(Response::Email(e)) => TaskAction::Deliver(Ok(e)),
            Ok(Response::Continue) => TaskAction::Proceed,
            Ok(Response::Quit) => TaskAction::Stop,
            Err(e) => TaskAction::Deliver(Err(e)),
        }),
{
    match result {
        Ok(Response::Email(e)) => TaskAction::Deliver(Ok(e)),
        Ok(Response::Continue) => TaskAction::Proceed,
        Ok(Response::Quit) => TaskAction::Stop,
        Err(e) => TaskAction::Deliver(Err(e)),
    }
}

} // verus!
