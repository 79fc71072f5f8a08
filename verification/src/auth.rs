//! Accounts: the decisions of registration and login, and the answer
//! given to the user interface.

use vstd::prelude::*;

verus! {

/// An account as the user interface sees it.
#[derive(Debug, Clone, PartialEq, Eq)]
pub struct User {
    pub id: String,
    pub username: String,
    pub email: String,
}

/// An account together with the token of the session opened for it.
#[derive(Debug, Clone, PartialEq, Eq)]
pub struct AuthResultUser {
    pub id: String,
    pub username: String,
    pub email: String,
    pub session_token: String,
}

/// What a user enters to log in.
#[derive(Debug)]
pub struct LoginCredentials {
    pub username: String,
    pub password: String,
}

/// An account as it is stored, with the hash of its password.
#[derive(Debug, Clone)]
pub struct Account {
    pub id: String,
    pub username: String,
    pub email: String,
    pub password_hash: String,
}

/// The answer to a registration or a login.
#[derive(Debug, PartialEq, Eq)]
pub struct AuthResponse {
    pub success: bool,
    pub user: Option<User>,
    pub message: Option<String>,
    pub token: Option<String>,
}

/// Days for which a session is valid after it was opened.
pub const SESSION_DAYS: i64 = 7;

/// Why a registration or a login failed.
#[derive(Debug, PartialEq, Eq)]
pub enum AuthError {
    /// The user name is taken.
    UserExists,
    /// No account has the user name.
    UserNotFound,
    /// The password does not match the stored hash.
    InvalidPassword,
    /// The password could not be hashed; the reason is the hasher's.
    HashFailed(String),
    /// The stored hash could not be read; the text says why.
    CheckFailed(String),
    /// The account store failed; the text is the store's.
    Storage(String),
}

impl AuthError {
    /// The sentence shown to the user for each failure.
    pub open spec fn message_text(self) -> Seq<char> {
        match self {
            AuthError::UserExists => "User already exists"@,
            AuthError::UserNotFound => "User not found"@,
            AuthError::InvalidPassword => "Invalid password"@,
            AuthError::HashFailed(_) => "Failed to hash password"@,
            AuthError::CheckFailed(text) => text@,
            AuthError::Storage(text) => text@,
        }
    }

    pub fn message(&self) -> (text: String)
        ensures
            text@ == self.message_text(),
    {
        match self {
            AuthError::UserExists => "User already exists".to_owned(),
            AuthError::UserNotFound => "User not found".to_owned(),
            AuthError::InvalidPassword => "Invalid password".to_owned(),
            AuthError::HashFailed(_) => "Failed to hash password".to_owned(),
            AuthError::CheckFailed(text) => text.clone(),
            AuthError::Storage(text) => text.clone(),
        }
    }
}

/// The result of checking `password` against the stored `hash`: whether
/// it matches, or the text of the failure when the hash cannot be read.
pub uninterp spec fn password_check(password: Seq<char>, hash: Seq<char>) -> Result<
    bool,
    Seq<char>,
>;

/// The result of a check as plain values: an error by its text.
pub open spec fn check_view(checked: Result<bool, String>) -> Result<bool, Seq<char>> {
    match checked {
        Ok(matches) => Ok(matches),
        Err(text) => Err(text@),
    }
}

/// The check of `password` against `hash` succeeds and finds a match.
pub open spec fn password_accepted(password: Seq<char>, hash: Seq<char>) -> bool {
    password_check(password, hash) == Ok::<bool, Seq<char>>(true)
}

/// `bcrypt::verify`: reads cost and salt out of `hash`, hashes `password`
/// with them and compares. The result depends on the two texts alone; a
/// hash that cannot be read gives the error, here as its display text.
/// The contract is not proved: it gives the result of the outside
/// function its name.
#[verifier::external_body]
fn verify_password(password: &str, hash: &str) -> (checked: Result<bool, String>)
    ensures
        check_view(checked) == password_check(password@, hash@),
{
    match bcrypt::verify(password, hash) {
        Ok(matches) => Ok(matches),
        Err(error) => Err(error.to_string()),
    }
}

/// `bcrypt::hash` at the default cost: hashes `password` with a fresh
/// random salt, so two calls on one password differ. Whatever salt was
/// drawn, the hash that comes back holds that salt and the cost, and
/// `bcrypt::verify` hashes the same password with them to the same
/// value. The contract is not proved: it is read off the source of the
/// two outside functions.
#[verifier::external_body]
pub(crate) fn hash_password(password: &str) -> (hashed: Result<String, String>)
    ensures
        hashed matches Ok(hash) ==> password_accepted(password@, hash@),
{
    match bcrypt::hash(password, bcrypt::DEFAULT_COST) {
        Ok(hash) => Ok(hash),
        Err(error) => Err(error.to_string()),
    }
}

impl Account {
    /// The account without the hash of its password.
    pub open spec fn user(self) -> User {
        User { id: self.id, username: self.username, email: self.email }
    }

    /// What a login into this account gives for each result of the check
    /// of the password.
    pub open spec fn login_result(self, checked: Result<bool, String>) -> Result<User, AuthError> {
        match checked {
            Ok(true) => Ok(self.user()),
            Ok(false) => Err(AuthError::InvalidPassword),
            Err(text) => Err(AuthError::CheckFailed(text)),
        }
    }

    /// Decides a login into this account once the password was checked.
    pub fn login(self, checked: Result<bool, String>) -> (result: Result<User, AuthError>)
        ensures
            result == self.login_result(checked),
    {
        match checked {
            Ok(true) => Ok(User { id: self.id, username: self.username, email: self.email }),
            Ok(false) => Err(AuthError::InvalidPassword),
            Err(text) => Err(AuthError::CheckFailed(text)),
        }
    }
}

/// `result` is what a login with `credentials` gives when `account` is
/// the stored account with their user name, if there is one: no account
/// is refused as not found; a password that the stored hash does not
/// accept is refused as invalid; a hash that cannot be checked is
/// reported with the text of the failure.
pub open spec fn is_login_result(
    credentials: LoginCredentials,
    account: Option<Account>,
    result: Result<User, AuthError>,
) -> bool {
    match account {
        None => result == Err::<User, AuthError>(AuthError::UserNotFound),
        Some(account) => match password_check(credentials.password@, account.password_hash@) {
            Ok(true) => result == Ok::<User, AuthError>(account.user()),
            Ok(false) => result == Err::<User, AuthError>(AuthError::InvalidPassword),
            Err(text) => result matches Err(AuthError::CheckFailed(shown)) && shown@ == text,
        },
    }
}

/// A login with a password that the stored hash accepts gives the
/// account: what was registered logs in.
pub proof fn lemma_accepted_password_logs_in(credentials: LoginCredentials, account: Account)
    requires
        password_accepted(credentials.password@, account.password_hash@),
    ensures
        is_login_result(credentials, Some(account), Ok(account.user())),
{
}

/// Decides a login. `account` is the stored account with the user name of
/// the credentials, if there is one.
pub fn authenticate(credentials: &LoginCredentials, account: Option<Account>) -> (result: Result<
    User,
    AuthError,
>)
    ensures
        is_login_result(*credentials, account, result),
{
    match account {
        None => Err(AuthError::UserNotFound),
        Some(account) => {
            let checked = verify_password(
                credentials.password.as_str(),
                account.password_hash.as_str(),
            );
            account.login(checked)
        },
    }
}

/// What a registration does for each result of hashing the password: a
/// taken user name is refused before anything else.
pub open spec fn registration_result(taken: bool, hashed: Result<String, String>) -> Result<
    String,
    AuthError,
> {
    if taken {
        Err(AuthError::UserExists)
    } else {
        match hashed {
            Ok(hash) => Ok(hash),
            Err(reason) => Err(AuthError::HashFailed(reason)),
        }
    }
}

/// Decides a registration once the password was hashed.
pub fn decide_registration(taken: bool, hashed: Result<String, String>) -> (result: Result<
    String,
    AuthError,
>)
    ensures
        result == registration_result(taken, hashed),
{
    if taken {
        Err(AuthError::UserExists)
    } else {
        match hashed {
            Ok(hash) => Ok(hash),
            Err(reason) => Err(AuthError::HashFailed(reason)),
        }
    }
}

/// Decides a registration. `taken` says whether an account with the user
/// name exists. Gives the hash to store with the new account; the
/// password is hashed only when the user name is free.
pub fn register(taken: bool, password: &str) -> (result: Result<String, AuthError>)
    ensures
        match result {
            Ok(hash) => !taken && password_accepted(password@, hash@),
            Err(error) => if taken {
                error is UserExists
            } else {
                error is HashFailed
            },
        },
{
    if taken {
        return Err(AuthError::UserExists);
    }
    decide_registration(false, hash_password(password))
}

/// The account with the token of its session.
pub fn with_session(user: User, session_token: String) -> (result: AuthResultUser)
    ensures
        result == (AuthResultUser {
            id: user.id,
            username: user.username,
            email: user.email,
            session_token,
        }),
{
    AuthResultUser { id: user.id, username: user.username, email: user.email, session_token }
}

/// Builds the answer for the outcome of a registration or a login: the
/// account and the token on success, the message of the failure
/// otherwise.
pub fn auth_response(outcome: Result<AuthResultUser, AuthError>) -> (response: AuthResponse)
    ensures
        match outcome {
            Ok(result) => response == (AuthResponse {
                success: true,
                user: Some(
                    (User { id: result.id, username: result.username, email: result.email }),
                ),
                message: None,
                token: Some(result.session_token),
            }),
            Err(error) => {
                &&& !response.success
                &&& response.user is None
                &&& response.token is None
                &&& response.message matches Some(text)
                &&& text@ == error.message_text()
            },
        },
{
    match outcome {
        Ok(result) => AuthResponse {
            success: true,
            user: Some(User { id: result.id, username: result.username, email: result.email }),
            message: None,
            token: Some(result.session_token),
        },
        Err(error) => AuthResponse {
            success: false,
            user: None,
            message: Some(error.message()),
            token: None,
        },
    }
}

} // verus!
