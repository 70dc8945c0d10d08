//! Registering users, reading and deleting them, logging in.

use vstd::prelude::*;
use crate::entities::User;
use crate::error::{Error, ParameterError, RepoError};
use crate::outside::{
    bcrypt_accepts, bcrypt_hash, bcrypt_verify, check_hash_chars, hash_chars_in_range, is_simple_id,
    new_id,
};
use super::{DbCommand, Login, NewUser};

verus! {

/// Whether `password` is verified against the stored `hash`: the hash must
/// consist of characters between `' '` and `'\u{7f}'` (others are never
/// produced by hashing, and bcrypt cannot read their salt), and bcrypt must
/// accept the password against it.
pub open spec fn password_verified(password: Seq<char>, hash: Seq<char>) -> bool {
    hash_chars_in_range(hash) && bcrypt_accepts(password, hash)
}

/// The first refusal among the verdicts of the user name, password and email
/// rules, in this order.
pub open spec fn first_refusal(
    username: Result<(), ParameterError>,
    password: Result<(), ParameterError>,
    email: Result<(), ParameterError>,
) -> Option<ParameterError> {
    match (username, password, email) {
        (Err(p), _, _) => Some(p),
        (Ok(()), Err(p), _) => Some(p),
        (Ok(()), Ok(()), Err(p)) => Some(p),
        _ => None,
    }
}

/// The stored form of a new user: the password is stored as its hash, and
/// the email address starts unconfirmed.
pub open spec fn new_user_record(u: NewUser, id: String, password_hash: String) -> User {
    User { id, username: u.username, password: password_hash, email: u.email, email_confirmed: false }
}

/// The stored form of a new user with identifier `id` whose password hashes
/// to `password_hash`.
pub fn build_new_user(u: NewUser, id: String, password_hash: String) -> (r: User)
    ensures
        r == new_user_record(u, id, password_hash),
{
    User { id, username: u.username, password: password_hash, email: u.email, email_confirmed: false }
}

/// Registers a user, given the verdicts of the user name, password and email
/// rules on the request and what reading a user of that name gave. The first
/// refusal among the verdicts is passed on; an existing user of that name
/// refuses with `UserExists`. Otherwise the password is hashed (a failure of
/// hashing is passed on) and the answer is the command creating the user with
/// a fresh identifier, the hash in place of the password, and an unconfirmed
/// email address; the hash is one that the password verifies against.
/// Hashing does not fail.
pub fn create_new_user(
    u: NewUser,
    username_verdict: Result<(), ParameterError>,
    password_verdict: Result<(), ParameterError>,
    email_verdict: Result<(), ParameterError>,
    existing: Result<User, RepoError>,
) -> (res: Result<Vec<DbCommand>, Error>)
    ensures
        first_refusal(username_verdict, password_verdict, email_verdict) matches Some(p) ==> res
            == Err::<Vec<DbCommand>, Error>(Error::Parameter(p)),
        first_refusal(username_verdict, password_verdict, email_verdict) is None && existing is Ok
            ==> res == Err::<Vec<DbCommand>, Error>(Error::Parameter(ParameterError::UserExists)),
        first_refusal(username_verdict, password_verdict, email_verdict) is None && existing is Err
            ==> (res matches Ok(cmds) && exists|id: String, hash: String|
            #![trigger new_user_record(u, id, hash)]
            password_verified(u.password@, hash@) && is_simple_id(id@) && cmds@ == seq![
                DbCommand::CreateUser(new_user_record(u, id, hash)),
            ]),
{
    if let Err(p) = username_verdict {
        return Err(Error::Parameter(p));
    }
    if let Err(p) = password_verdict {
        return Err(Error::Parameter(p));
    }
    if let Err(p) = email_verdict {
        return Err(Error::Parameter(p));
    }
    if existing.is_ok() {
        return Err(Error::Parameter(ParameterError::UserExists));
    }
    let hash = match bcrypt_hash(u.password.as_str()) {
        Ok(h) => h,
        Err(e) => return Err(Error::Pwhash(e)),
    };
    let id = new_id();
    let ghost (i, h) = (id, hash);
    let user = build_new_user(u, id, hash);
    let cmds = vec![DbCommand::CreateUser(user)];
    assert(password_verified(u.password@, h@) && is_simple_id(i@) && cmds@ == seq![
        DbCommand::CreateUser(new_user_record(u, i, h)),
    ]);
    Ok(cmds)
}

/// Reads a user's name and email address, given what reading the requested
/// user gave. A failed read is passed on; only the logged-in user may read
/// their own record, anyone else is refused with `Forbidden`.
pub fn get_user(found: Result<User, RepoError>, logged_in_username: &str, requested_username: &str) -> (res:
    Result<(String, String), Error>)
    ensures
        match found {
            Err(r) => res == Err::<(String, String), Error>(Error::Repo(r)),
            Ok(u) => if logged_in_username@ != requested_username@ {
                res == Err::<(String, String), Error>(Error::Parameter(ParameterError::Forbidden))
            } else {
                res == Ok::<(String, String), Error>((u.username, u.email))
            },
        },
{
    let u = match found {
        Err(r) => return Err(Error::Repo(r)),
        Ok(u) => u,
    };
    if !(logged_in_username.to_owned() == requested_username.to_owned()) {
        return Err(Error::Parameter(ParameterError::Forbidden));
    }
    Ok((u.username, u.email))
}

/// Deletes a user: only the logged-in user may delete their own record,
/// anyone else is refused with `Forbidden`. Answers the command deleting the
/// logged-in user.
pub fn delete_user(login_id: &str, u_id: &str) -> (res: Result<Vec<DbCommand>, Error>)
    ensures
        login_id@ != u_id@ ==> res == Err::<Vec<DbCommand>, Error>(
            Error::Parameter(ParameterError::Forbidden),
        ),
        login_id@ == u_id@ ==> (res matches Ok(cmds) && cmds@.len() == 1
            && (cmds@[0] matches DbCommand::DeleteUser(id) && id@ == login_id@)),
{
    let id = login_id.to_owned();
    if !(id == u_id.to_owned()) {
        return Err(Error::Parameter(ParameterError::Forbidden));
    }
    Ok(vec![DbCommand::DeleteUser(id)])
}

/// The answer to a login for `username`, given what reading the user gave and
/// whether the password was accepted against the stored hash: an unknown user
/// or a rejected password is refused with `Credentials`, an unconfirmed email
/// address with `EmailNotConfirmed`; any other failure of the read is passed
/// on wrapped in `Other`.
pub open spec fn login_answer(found: Result<User, RepoError>, username: String, password_accepted: bool) -> Result<
    String,
    Error,
> {
    match found {
        Ok(u) => if !password_accepted {
            Err(Error::Parameter(ParameterError::Credentials))
        } else if !u.email_confirmed {
            Err(Error::Parameter(ParameterError::EmailNotConfirmed))
        } else {
            Ok(username)
        },
        Err(RepoError::NotFound) => Err(Error::Parameter(ParameterError::Credentials)),
        Err(r) => Err(Error::Repo(RepoError::Other(Box::new(r)))),
    }
}

/// Decides a login, given what reading the user gave and whether the
/// password was accepted against the stored hash.
pub fn login_decision(found: Result<User, RepoError>, login: &Login, password_accepted: bool) -> (res:
    Result<String, Error>)
    ensures
        res == login_answer(found, login.spec_username(), password_accepted),
{
    match found {
        Ok(u) => {
            if password_accepted {
                if u.email_confirmed {
                    Ok(login.username().clone())
                } else {
                    Err(Error::Parameter(ParameterError::EmailNotConfirmed))
                }
            } else {
                Err(Error::Parameter(ParameterError::Credentials))
            }
        },
        Err(err) => match err {
            RepoError::NotFound => Err(Error::Parameter(ParameterError::Credentials)),
            _ => Err(Error::Repo(RepoError::Other(Box::new(err)))),
        },
    }
}

/// Logs a user in, given what reading the user of the requested name gave:
/// the password is checked against the stored hash (`password_verified`: a
/// hash with characters outside `' '..='\u{7f}'` is rejected without asking
/// bcrypt), then the answer is `login_answer`. Answers the user name on
/// success.
pub fn login(found: Result<User, RepoError>, request: &Login) -> (res: Result<String, Error>)
    ensures
        res == login_answer(
            found,
            request.spec_username(),
            match found {
                Ok(u) => password_verified(request.spec_password()@, u.password@),
                Err(_) => false,
            },
        ),
{
    let accepted = match &found {
        Ok(u) => check_hash_chars(u.password.as_str()) && bcrypt_verify(
            request.password().as_str(),
            u.password.as_str(),
        ),
        Err(_) => false,
    };
    login_decision(found, request, accepted)
}

} // verus!
