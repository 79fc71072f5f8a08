use server_manager::auth::{
    auth_response, authenticate, decide_registration, register, with_session, Account, AuthError,
    AuthResponse, AuthResultUser, LoginCredentials, User, SESSION_DAYS,
};

const PASSWORD_HASH: &str = "$2a$04$UuTkLRZZ6QofpDOlMz32MuuxEHA43WOemOYHPz6.SjsVsyO1tDU96";

fn account(password_hash: &str) -> Account {
    Account {
        id: "id-1".to_string(),
        username: "ada".to_string(),
        email: "ada@example.org".to_string(),
        password_hash: password_hash.to_string(),
    }
}

fn credentials(password: &str) -> LoginCredentials {
    LoginCredentials { username: "ada".to_string(), password: password.to_string() }
}

fn ada() -> User {
    User { id: "id-1".to_string(), username: "ada".to_string(), email: "ada@example.org".to_string() }
}

#[test]
fn login_with_the_right_password_gives_the_user() {
    assert_eq!(authenticate(&credentials("password"), Some(account(PASSWORD_HASH))), Ok(ada()));
}

#[test]
fn login_with_a_wrong_password_is_refused() {
    assert_eq!(
        authenticate(&credentials("passw0rd"), Some(account(PASSWORD_HASH))),
        Err(AuthError::InvalidPassword)
    );
}

#[test]
fn login_without_account_is_refused() {
    assert_eq!(authenticate(&credentials("password"), None), Err(AuthError::UserNotFound));
}

#[test]
fn login_against_an_unreadable_hash_reports_the_failure() {
    assert_eq!(
        authenticate(&credentials("password"), Some(account("not-a-hash"))),
        Err(AuthError::CheckFailed("Invalid hash: not-a-hash".to_string()))
    );
}

#[test]
fn account_login_decides_on_the_check() {
    assert_eq!(account(PASSWORD_HASH).login(Ok(true)), Ok(ada()));
    assert_eq!(account(PASSWORD_HASH).login(Ok(false)), Err(AuthError::InvalidPassword));
    assert_eq!(
        account(PASSWORD_HASH).login(Err("Invalid Cost: x".to_string())),
        Err(AuthError::CheckFailed("Invalid Cost: x".to_string()))
    );
}

#[test]
fn registration_of_a_taken_name_is_refused() {
    assert_eq!(register(true, "secret"), Err(AuthError::UserExists));
    assert_eq!(decide_registration(true, Ok("hash".to_string())), Err(AuthError::UserExists));
    assert_eq!(decide_registration(true, Err("no entropy".to_string())), Err(AuthError::UserExists));
}

#[test]
fn registration_decides_on_the_hash() {
    assert_eq!(decide_registration(false, Ok("hash".to_string())), Ok("hash".to_string()));
    assert_eq!(
        decide_registration(false, Err("no entropy".to_string())),
        Err(AuthError::HashFailed("no entropy".to_string()))
    );
}

#[test]
fn registered_password_logs_in() {
    let hash = register(false, "correct horse").unwrap();
    assert_ne!(hash, "correct horse");
    assert!(hash.starts_with("$2b$12$"));
    assert_eq!(authenticate(&credentials("correct horse"), Some(account(&hash))), Ok(ada()));
}

#[test]
fn response_for_success_carries_user_and_token() {
    let result = with_session(ada(), "token-1".to_string());
    assert_eq!(
        result,
        AuthResultUser {
            id: "id-1".to_string(),
            username: "ada".to_string(),
            email: "ada@example.org".to_string(),
            session_token: "token-1".to_string(),
        }
    );
    assert_eq!(
        auth_response(Ok(result)),
        AuthResponse { success: true, user: Some(ada()), message: None, token: Some("token-1".to_string()) }
    );
}

#[test]
fn response_for_failure_carries_the_message() {
    let failures = [
        (AuthError::UserExists, "User already exists"),
        (AuthError::UserNotFound, "User not found"),
        (AuthError::InvalidPassword, "Invalid password"),
        (AuthError::HashFailed("rng".to_string()), "Failed to hash password"),
        (AuthError::CheckFailed("Invalid hash: x".to_string()), "Invalid hash: x"),
        (AuthError::Storage("database is locked".to_string()), "database is locked"),
    ];
    for (error, message) in failures {
        assert_eq!(error.message(), message);
        assert_eq!(
            auth_response(Err(error)),
            AuthResponse { success: false, user: None, message: Some(message.to_string()), token: None }
        );
    }
}

#[test]
fn sessions_last_seven_days() {
    assert_eq!(SESSION_DAYS, 7);
}
