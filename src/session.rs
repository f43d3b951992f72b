//! The decisions of a bus session: which credentials to present, and when the
//! background worker that drains the session's notifications is done.

use vstd::prelude::*;

verus! {

/// Why the broker credentials given are refused.
#[derive(PartialEq, Eq, Structural, Clone, Copy, Debug)]
pub enum CredentialError {
    /// A password was given without a username.
    PasswordWithoutUsername,
}

/// The credentials to present to the broker.
pub struct Credentials {
    pub username: String,
    pub password: String,
    /// No password was given, so an empty one is presented; worth a warning.
    pub password_missing: bool,
}

/// Decides the credentials from the username and password given, before any
/// connection is attempted: a password alone is refused; a username alone is
/// presented with an empty password; neither means no credentials.
pub fn resolve_credentials(username: Option<String>, password: Option<String>) -> (r: Result<
    Option<Credentials>,
    CredentialError,
>)
    ensures
        r matches Err(e) ==> e == CredentialError::PasswordWithoutUsername,
        r is Err <==> (username is None && password is Some),
        (username is None && password is None) ==> r matches Ok(None),
        username matches Some(u) ==> (r matches Ok(Some(c)) && c.username@ == u@ && c.password_missing
            == (password is None) && c.password@ == match password {
            Some(p) => p@,
            None => Seq::<char>::empty(),
        }),
{
    match username {
        None => match password {
            Some(_) => Err(CredentialError::PasswordWithoutUsername),
            None => Ok(None),
        },
        Some(u) => {
            let password_missing = password.is_none();
            let p = match password {
                Some(p) => p,
                None => String::new(),
            };
            Ok(Some(Credentials { username: u, password: p, password_missing }))
        },
    }
}

/// A notification that the session's worker receives.
#[derive(PartialEq, Eq, Structural, Clone, Copy, Debug)]
pub enum BusEvent {
    /// Any notification that is not an error.
    Notified,
    /// The connection was aborted.
    ConnectionAborted,
    /// Any other connection error.
    ConnectionFailed,
}

/// What the worker does with a notification.
#[derive(PartialEq, Eq, Structural, Clone, Copy, Debug)]
pub enum WorkerStep {
    /// Keep draining notifications.
    Continue,
    /// Log the error and keep draining.
    ReportAndContinue,
    /// Every queued message has gone out: stop.
    Finish,
}

pub open spec fn next_step_spec(disconnect_requested: bool, event: BusEvent) -> WorkerStep {
    match event {
        BusEvent::Notified => WorkerStep::Continue,
        BusEvent::ConnectionAborted => if disconnect_requested {
            WorkerStep::Finish
        } else {
            WorkerStep::ReportAndContinue
        },
        BusEvent::ConnectionFailed => WorkerStep::ReportAndContinue,
    }
}

/// Decides the worker's next step: only an abort after the client asked to
/// disconnect ends the session; other errors are reported and tolerated.
pub fn next_step(disconnect_requested: bool, event: BusEvent) -> (r: WorkerStep)
    ensures
        r == next_step_spec(disconnect_requested, event),
        r == WorkerStep::Finish <==> (disconnect_requested && event == BusEvent::ConnectionAborted),
{
    match event {
        BusEvent::Notified => WorkerStep::Continue,
        BusEvent::ConnectionAborted => if disconnect_requested {
            WorkerStep::Finish
        } else {
            WorkerStep::ReportAndContinue
        },
        BusEvent::ConnectionFailed => WorkerStep::ReportAndContinue,
    }
}

} // verus!
