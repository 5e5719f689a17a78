use vstd::prelude::*;
use crate::errors::CommandError;
use crate::models::LoginPayload;
use crate::store::{find_admin, spec_find_admin, AppState, DbView};

verus! {

/// What login returns: the connection check first, then the credential row
/// looked up by username, then a verbatim comparison of the stored password
/// against the supplied one. The three failures are distinct: no row, wrong
/// password, no connection.
pub open spec fn spec_login(
    state: Option<DbView>,
    username: Seq<char>,
    password: Seq<char>,
) -> Result<bool, CommandError> {
    match state {
        None => Err(CommandError::NotConnected),
        Some(db) => match spec_find_admin(db.admins, username) {
            None => Err(CommandError::NotFound),
            Some(a) => if a.password@ == password {
                Ok(true)
            } else {
                Err(CommandError::InvalidCredentials)
            },
        },
    }
}

/// Checks the supplied credentials against the stored credential row of the
/// given username.
pub fn login(state: &AppState, payload: &LoginPayload) -> (r: Result<bool, CommandError>)
    ensures
        r == spec_login(state@, payload.username@, payload.password@),
{
    match &state.pool {
        None => Err(CommandError::NotConnected),
        Some(db) => match find_admin(&db.admins, &payload.username) {
            None => Err(CommandError::NotFound),
            Some(a) => {
                if a.password == payload.password {
                    Ok(true)
                } else {
                    Err(CommandError::InvalidCredentials)
                }
            },
        },
    }
}

/// A line the embedding logs after a login attempt. No variant carries the
/// supplied password.
#[derive(Debug, PartialEq, Eq)]
pub enum LogEvent {
    /// The username had no stored credential row.
    UserNotFound { username: String },
    /// The credential query itself failed, with the driver's message.
    QueryFailure { message: String },
}

/// The log line owed after a login outcome: one for an unknown user, one
/// for a query failure, none otherwise. A successful or wrongly-passworded
/// attempt logs nothing, so no outcome ever logs a password.
pub fn login_log_event(r: &Result<bool, CommandError>, username: &String) -> (e: Option<LogEvent>)
    ensures
        (match r {
            Err(CommandError::NotFound) => e matches Some(LogEvent::UserNotFound { username: u })
                && u@ == username@,
            Err(CommandError::Query(m)) => e matches Some(LogEvent::QueryFailure { message: msg })
                && msg@ == m.message@,
            _ => e is None,
        }),
{
    match r {
        Err(CommandError::NotFound) => Some(
            LogEvent::UserNotFound { username: username.clone() },
        ),
        Err(CommandError::Query(m)) => Some(
            LogEvent::QueryFailure { message: m.message.clone() },
        ),
        _ => None,
    }
}

/// The content of the log line owed for a login call, at the spec level: the
/// username when no credential row exists, nothing otherwise.
pub open spec fn spec_login_log(
    state: Option<DbView>,
    username: Seq<char>,
    password: Seq<char>,
) -> Option<Seq<char>> {
    match spec_login(state, username, password) {
        Err(CommandError::NotFound) => Some(username),
        _ => None,
    }
}

/// The log of a login attempt never depends on the supplied password: two
/// attempts for the same username against the same store log the same line,
/// whatever the two passwords, and that line holds at most the username.
pub proof fn lemma_login_log_password_free(
    state: Option<DbView>,
    username: Seq<char>,
    p1: Seq<char>,
    p2: Seq<char>,
)
    ensures
        spec_login_log(state, username, p1) == spec_login_log(state, username, p2),
{
}

} // verus!
