//! Logging in, and asking whether one is logged in.

use crate::errors::{Denial, Status, StoreFault};
use crate::feature_flags::{switched_on, FeatureFlagController};
use crate::password::{verifies, verify_secret};
use crate::payloads::{LoginCredentials, LoginReturnPayload};
use crate::principal::User;
use crate::string_generator::{generate_auth_token, generate_id, is_secret_of};
use vstd::prelude::*;

verus! {

/// What the store keeps of a user for logging in.
#[derive(Debug)]
pub struct LoginRow {
    pub id: String,
    /// The hash of the user's password.
    pub password: String,
}

/// A session that was opened: the record to store, and the answer to the
/// user.
#[derive(Debug)]
pub struct NewSession {
    pub id: String,
    /// The secret of the session.
    pub auth: String,
    /// The user the session belongs to.
    pub userid: String,
    pub payload: LoginReturnPayload,
}

/// Why a login is turned down, if it is, given what was found out about it:
/// whether logging in is switched on, whether the lookup of the user went
/// through, whether it found the user, and whether the password verifies
/// against the user's stored hash. Logging in that is switched off is
/// `Unavailable`. A failed lookup is `NotFound`. No user of that name and a
/// password that does not verify are both `Unauthenticated`: which of the
/// two it was is not told.
pub open spec fn login_verdict(enabled: bool, looked_up: bool, found: bool, verified: bool) -> Option<
    Denial,
> {
    if !enabled {
        Some(Denial::Unavailable)
    } else if !looked_up {
        Some(Denial::NotFound)
    } else if !found || !verified {
        Some(Denial::Unauthenticated)
    } else {
        None
    }
}

/// Judges a login from what was found out about it.
pub fn judge_login(enabled: bool, looked_up: bool, found: bool, verified: bool) -> (denial: Option<
    Denial,
>)
    ensures
        denial == login_verdict(enabled, looked_up, found, verified),
{
    if !enabled {
        Some(Denial::Unavailable)
    } else if !looked_up {
        Some(Denial::NotFound)
    } else if !found || !verified {
        Some(Denial::Unauthenticated)
    } else {
        None
    }
}

/// Why a login is turned down, if it is: the verdict on whether logging in
/// is switched on, on the lookup of the user, and on the password held
/// against the hash of the first user found.
pub open spec fn login_denial(
    enabled: bool,
    lookup: Result<Seq<LoginRow>, StoreFault>,
    password: Seq<char>,
) -> Option<Denial> {
    let found = lookup is Ok && lookup->Ok_0.len() > 0;
    login_verdict(
        enabled,
        lookup is Ok,
        found,
        found && verifies(password, lookup->Ok_0[0].password@),
    )
}

/// Logs a user in. `flags` are the feature flags of the service, `lookup`
/// the users of the name in `credentials`. A login that is not turned down
/// opens a session with a fresh identifier and a fresh secret.
pub fn login(
    credentials: &LoginCredentials,
    flags: &FeatureFlagController,
    lookup: &Result<Vec<LoginRow>, StoreFault>,
) -> (outcome: Result<NewSession, Denial>)
    ensures
        match login_denial(
            switched_on(flags.feature_flags@, "login"@),
            match lookup {
                Ok(rows) => Ok(rows@),
                Err(fault) => Err(*fault),
            },
            credentials.password@,
        ) {
            Some(denial) => outcome is Err && outcome->Err_0 == denial,
            None => outcome is Ok && {
                let session = outcome->Ok_0;
                &&& is_secret_of(session.id@, 15)
                &&& is_secret_of(session.auth@, 48)
                &&& session.userid@ == lookup->Ok_0@[0].id@
                &&& session.payload.token@ == session.auth@
            },
        },
{
    let enabled = flags.is_enabled("login");
    let row = match lookup {
        Ok(rows) => if rows.len() > 0 {
            Some(&rows[0])
        } else {
            None
        },
        Err(_) => None,
    };
    let verified = match row {
        Some(found) => enabled && verify_secret(
            credentials.password.as_str(),
            found.password.as_str(),
        ),
        None => false,
    };
    match judge_login(enabled, lookup.is_ok(), row.is_some(), verified) {
        Some(denial) => {
            return Err(denial);
        },
        None => {},
    }
    let userid = match row {
        Some(found) => found.id.clone(),
        None => {
            return Err(Denial::Unauthenticated);
        },
    };
    let auth = generate_auth_token();
    let id = generate_id();
    Ok(
        NewSession {
            id,
            auth: auth.clone(),
            userid,
            payload: LoginReturnPayload { token: auth },
        },
    )
}

/// The session that a logout ends: the one whose secret the user was resolved
/// from. A user that was resolved from no session has none to end.
pub fn logout(user: &User) -> (session: Result<String, Denial>)
    ensures
        match user.auth {
            Some(secret) => session is Ok && session->Ok_0@ == secret@,
            None => session is Err && session->Err_0 == Denial::Unauthenticated,
        },
{
    match &user.auth {
        Some(secret) => Ok(secret.clone()),
        None => Err(Denial::Unauthenticated),
    }
}

/// Whether the request came with a session: `NoContent` where it did,
/// `Unauthenticated` where not.
pub fn check_auth(user: Option<&User>) -> (status: Status)
    ensures
        status == match user {
            Some(_) => Status::NoContent,
            None => Status::Denied(Denial::Unauthenticated),
        },
{
    match user {
        Some(_) => Status::NoContent,
        None => Status::Denied(Denial::Unauthenticated),
    }
}

} // verus!
