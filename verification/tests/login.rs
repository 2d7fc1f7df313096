use login_core::classify::{classify, Identifier};
use login_core::handler::{login, respond, Decision, LoginForm};
use login_core::render::{login_partial, success_body};
use login_core::store::{fold_fetch, lookup_query, plan_lookup, AccountRecord, FetchError, LookupOutcome};

const EMAIL_SQL: &str = "SELECT id, password_hash FROM users WHERE email = $1";
const USERNAME_SQL: &str = "SELECT id, password_hash FROM users WHERE username = $1";

fn form(username: &str, password: &str) -> LoginForm {
    LoginForm { username: username.to_owned(), password: password.to_owned() }
}

fn found(id: i32, password_hash: &str) -> LookupOutcome {
    LookupOutcome::Found(AccountRecord { id, password_hash: password_hash.to_owned() })
}

fn rejection_body(d: Decision) -> String {
    match d {
        Decision::Rejected { body } => body,
        _ => panic!("expected a rejected decision"),
    }
}

#[test]
fn classifies_email_as_email() {
    assert!(matches!(classify("user@example.com".to_owned()), Identifier::Email(_)));
}

#[test]
fn classifies_plain_name_as_username() {
    assert!(matches!(classify("alice".to_owned()), Identifier::Username(_)));
}

#[test]
fn classifies_empty_identifier_as_username() {
    assert!(matches!(classify(String::new()), Identifier::Username(_)));
}

#[test]
fn classifies_malformed_email_as_username() {
    assert!(matches!(classify("user@@example..com".to_owned()), Identifier::Username(_)));
    assert!(matches!(classify("user@".to_owned()), Identifier::Username(_)));
}

#[test]
fn email_routes_to_email_column() {
    let q = lookup_query(classify("user@example.com".to_owned()));
    assert_eq!(q.sql, EMAIL_SQL);
    assert_eq!(q.param, "user@example.com");
}

#[test]
fn username_routes_to_username_column() {
    let q = lookup_query(classify("alice".to_owned()));
    assert_eq!(q.sql, USERNAME_SQL);
    assert_eq!(q.param, "alice");
}

#[test]
fn plan_lookup_routes_both_ways() {
    let q = plan_lookup("user@example.com".to_owned());
    assert_eq!(q.sql, EMAIL_SQL);
    assert_eq!(q.param, "user@example.com");
    let q = plan_lookup("alice".to_owned());
    assert_eq!(q.sql, USERNAME_SQL);
    assert_eq!(q.param, "alice");
}

#[test]
fn correct_secret_authenticates() {
    let stored = bcrypt::hash("correct", 4).unwrap();
    let d = login(form("alice", "correct"), found(7, &stored));
    match d {
        Decision::Authenticated { user_id, username } => {
            assert_eq!(user_id, 7);
            assert_eq!(username, "alice");
        }
        _ => panic!("expected an authenticated decision"),
    }
}

#[test]
fn success_body_is_the_redirect_page() {
    assert_eq!(success_body(), "loading...\n<meta http-equiv=\"refresh\" content=\"0\" />");
}

#[test]
fn wrong_secret_is_rejected() {
    let stored = bcrypt::hash("correct", 4).unwrap();
    let d = login(form("alice", "wrong"), found(7, &stored));
    assert!(matches!(d, Decision::Rejected { .. }));
}

#[test]
fn unknown_identifier_is_rejected() {
    let d = login(form("nobody", "whatever"), LookupOutcome::NotFound);
    assert!(matches!(d, Decision::Rejected { .. }));
}

#[test]
fn unknown_identifier_and_wrong_secret_reject_identically() {
    let stored = bcrypt::hash("correct", 4).unwrap();
    let miss = rejection_body(login(form("nobody", "whatever"), LookupOutcome::NotFound));
    let wrong = rejection_body(login(form("alice", "wrong"), found(7, &stored)));
    assert_eq!(miss, wrong);
}

#[test]
fn store_failure_is_fatal() {
    let d = login(form("alice", "correct"), LookupOutcome::StoreFailure);
    assert!(matches!(d, Decision::Fatal));
}

#[test]
fn malformed_stored_hash_is_fatal() {
    let d = login(form("alice", "correct"), found(7, "not a bcrypt hash"));
    assert!(matches!(d, Decision::Fatal));
}

#[test]
fn rejected_body_echoes_no_credential() {
    let stored = bcrypt::hash("correct", 4).unwrap();
    let body = rejection_body(login(form("alice", "hunter2"), found(7, &stored)));
    assert!(!body.contains("alice"));
    assert!(!body.contains("hunter2"));
    assert!(body.contains("Wrong username or password"));
}

#[test]
fn login_partial_wraps_the_message() {
    assert_eq!(login_partial("Wrong username or password"),
        "<p class=\"login-error\">Wrong username or password</p>");
}

#[test]
fn fold_fetch_keeps_the_fatal_split() {
    let rec = AccountRecord { id: 3, password_hash: "h".to_owned() };
    match fold_fetch(Ok(rec)) {
        LookupOutcome::Found(r) => {
            assert_eq!(r.id, 3);
            assert_eq!(r.password_hash, "h");
        }
        _ => panic!("expected a found row"),
    }
    assert!(matches!(fold_fetch(Err(FetchError::RowNotFound)), LookupOutcome::NotFound));
    assert!(matches!(fold_fetch(Err(FetchError::Other)), LookupOutcome::StoreFailure));
}

#[test]
fn authenticated_and_issued_gets_the_redirect_page() {
    let stored = bcrypt::hash("correct", 4).unwrap();
    let r = respond(login(form("alice", "correct"), found(7, &stored)), true);
    assert_eq!(r.status, 200);
    assert_eq!(r.body.unwrap(), "loading...\n<meta http-equiv=\"refresh\" content=\"0\" />");
}

#[test]
fn issuance_failure_is_an_internal_error() {
    let stored = bcrypt::hash("correct", 4).unwrap();
    let r = respond(login(form("alice", "correct"), found(7, &stored)), false);
    assert_eq!(r.status, 500);
    assert!(r.body.is_none());
}

#[test]
fn rejection_responses_are_identical_in_status_and_body() {
    let stored = bcrypt::hash("correct", 4).unwrap();
    let miss = respond(login(form("nobody", "whatever"), LookupOutcome::NotFound), false);
    let wrong = respond(login(form("alice", "wrong"), found(7, &stored)), false);
    assert_eq!(miss.status, 200);
    assert_eq!(wrong.status, 200);
    assert_eq!(miss.body.unwrap(), wrong.body.unwrap());
}

#[test]
fn store_failure_response_is_not_the_rejection_partial() {
    let r = respond(login(form("alice", "correct"), LookupOutcome::StoreFailure), false);
    assert_eq!(r.status, 500);
    assert!(r.body.is_none());
}

#[test]
fn verification_matches_bcrypt_directly() {
    let stored = bcrypt::hash("secret", 4).unwrap();
    assert!(bcrypt::verify("secret", &stored).unwrap());
    assert!(!bcrypt::verify("other", &stored).unwrap());
    let d = login(form("bob", "secret"), found(1, &stored));
    assert!(matches!(d, Decision::Authenticated { .. }));
    let d = login(form("bob", "other"), found(1, &stored));
    assert!(matches!(d, Decision::Rejected { .. }));
}
