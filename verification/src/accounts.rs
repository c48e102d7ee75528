//! Registration, login and password changes: the password checks and hashing
//! (bcrypt) and the decisions taken on them.
use vstd::prelude::*;
use crate::enums::{Error, Id, Role};
use crate::models::{UpdateUserRequest, User};
use crate::outside::{bcrypt_hash, bcrypt_verify, bcrypt_verify_result};

verus! {

/// A request to open an account.
#[derive(Clone, Debug)]
pub struct RegisterUserRequest {
    pub email: String,
    pub password: String,
    pub name: String,
    pub role: Role,
    pub avatar_url: Option<String>,
}

/// Prepares an account for storage: the password is replaced by its bcrypt
/// hash, against which the same password verifies. A hashing failure is
/// reported as `HashingFailed`.
pub fn prepare_registration(payload: RegisterUserRequest) -> (r: Result<RegisterUserRequest, Error>)
    ensures
        r matches Ok(p) ==> {
            &&& p.email == payload.email
            &&& p.name == payload.name
            &&& p.role == payload.role
            &&& p.avatar_url == payload.avatar_url
            &&& bcrypt_verify_result(payload.password@, p.password@) == Some(true)
        },
        r matches Err(e) ==> e == Error::HashingFailed,
{
    let hashed = bcrypt_hash(payload.password.as_str());
    match hashed {
        Some(h) => Ok(RegisterUserRequest { password: h, ..payload }),
        None => Err(Error::HashingFailed),
    }
}

/// Who a successful login lets in.
#[derive(Clone, Copy, Debug, PartialEq, Eq, Structural)]
pub struct LoginGrant {
    pub user_id: Id,
    pub role: Role,
}

/// The login decision on the account found for the email (if any) and on the
/// password check against its hash (`None` when the check itself failed).
pub open spec fn login_decision(user: Option<User>, verified: Option<bool>) -> Result<LoginGrant, Error> {
    match user {
        None => Err(Error::LoginFailed),
        Some(u) => match verified {
            None => Err(Error::VerifyPasswordFailed),
            Some(false) => Err(Error::LoginFailed),
            Some(true) => Ok(LoginGrant { user_id: u.id, role: u.role }),
        },
    }
}

/// Decides a login from the account found and the outcome of the password check.
pub fn decide_login(user: &Option<User>, verified: Option<bool>) -> (r: Result<LoginGrant, Error>)
    ensures
        r == login_decision(*user, verified),
{
    match user {
        None => Err(Error::LoginFailed),
        Some(u) => match verified {
            None => Err(Error::VerifyPasswordFailed),
            Some(false) => Err(Error::LoginFailed),
            Some(true) => Ok(LoginGrant { user_id: u.id, role: u.role }),
        },
    }
}

/// Logs in with a password against the account found for the email.
pub fn authenticate(user: &Option<User>, password: &str) -> (r: Result<LoginGrant, Error>)
    ensures
        r == login_decision(*user, match user {
            Some(u) => bcrypt_verify_result(password@, u.password@),
            None => None,
        }),
{
    match user {
        None => Err(Error::LoginFailed),
        Some(u) => {
            let verified = bcrypt_verify(password, u.password.as_str());
            decide_login(user, verified)
        },
    }
}

/// The check of the old password before a change: the account must exist and
/// the old password must verify.
pub open spec fn old_password_decision(found: bool, verified: Option<bool>) -> Result<(), Error> {
    if !found {
        Err(Error::RecordNotFound)
    } else if verified == Some(true) {
        Ok(())
    } else {
        Err(Error::VerifyPasswordFailed)
    }
}

/// Decides whether a password change may go on.
pub fn decide_old_password(found: bool, verified: Option<bool>) -> (r: Result<(), Error>)
    ensures
        r == old_password_decision(found, verified),
{
    if !found {
        Err(Error::RecordNotFound)
    } else if verified == Some(true) {
        Ok(())
    } else {
        Err(Error::VerifyPasswordFailed)
    }
}

/// Changes a password: checks the old one against the stored hash, then
/// hashes the new one. The result is the account change to write: the new
/// hash and nothing else.
pub fn change_password(user: &Option<User>, old_password: &str, new_password: &str) -> (r: Result<UpdateUserRequest, Error>)
    ensures
        match user {
            None => r == Err::<UpdateUserRequest, Error>(Error::RecordNotFound),
            Some(u) => {
                let check = old_password_decision(true, bcrypt_verify_result(old_password@, u.password@));
                if check is Err {
                    r == Err::<UpdateUserRequest, Error>(check->Err_0)
                } else {
                    match r {
                        Ok(p) => {
                            &&& p.name is None
                            &&& p.email is None
                            &&& p.role is None
                            &&& p.avatar_url is None
                            &&& p.password matches Some(h) && bcrypt_verify_result(new_password@, h@) == Some(true)
                        },
                        Err(e) => e == Error::HashingFailed,
                    }
                }
            },
        },
{
    match user {
        None => Err(Error::RecordNotFound),
        Some(u) => {
            let verified = bcrypt_verify(old_password, u.password.as_str());
            let checked = decide_old_password(true, verified);
            match checked {
                Err(e) => Err(e),
                Ok(()) => match bcrypt_hash(new_password) {
                    Some(h) => Ok(UpdateUserRequest {
                        name: None,
                        email: None,
                        password: Some(h),
                        role: None,
                        avatar_url: None,
                    }),
                    None => Err(Error::HashingFailed),
                },
            }
        },
    }
}

/// A password that was just hashed for an account logs that account in: the
/// login decision on the stored hash grants access to the account.
pub proof fn law_new_password_logs_in(password: Seq<char>, user: User)
    requires
        bcrypt_verify_result(password, user.password@) == Some(true),
    ensures
        login_decision(Some(user), bcrypt_verify_result(password, user.password@))
            == Ok::<LoginGrant, Error>(LoginGrant { user_id: user.id, role: user.role }),
        old_password_decision(true, bcrypt_verify_result(password, user.password@)) is Ok,
{
}

/// A wrong password never logs in, and no password logs into an account that
/// does not exist.
pub proof fn law_wrong_password_refused(user: Option<User>, verified: Option<bool>)
    ensures
        verified != Some(true) ==> login_decision(user, verified) is Err,
        user is None ==> login_decision(user, verified) == Err::<LoginGrant, Error>(Error::LoginFailed),
{
}

} // verus!
