use nohead_rs::admin;
use nohead_rs::auth_flow::{confirm_outcome, ConfirmOutcome, Params};
use nohead_rs::error::Error;
use nohead_rs::job::JobStatus;
use nohead_rs::mailer::{AuthMailer, EmailPayload};
use nohead_rs::register_token::{generate_register_token, RegisterToken};
use nohead_rs::session::Session;
use nohead_rs::store::{JobStore, StoreConfig};
use nohead_rs::text::u64_to_string;
use nohead_rs::todo::TodoChangeset;
use nohead_rs::user::{RegisterUser, User, UserCredentials};
use nohead_rs::view_engine::{component_key, should_reload, wrap_html_component, ViewEngine};

fn store() -> JobStore {
    JobStore::new(StoreConfig { max_attempts: 3, backoff_base_ms: 100, backoff_cap_ms: 1000 })
}

#[test]
fn admin_enqueue_validates_payload() {
    let mut s = store();
    let id = admin::enqueue(&mut s, String::from("{\"to\":\"x\"}"), 5).unwrap();
    assert_eq!(admin::get(&s, id).unwrap().payload, "{\"to\":\"x\"}");

    let err = admin::enqueue(&mut s, String::new(), 5).unwrap_err();
    assert_eq!(err.status_code(), 422);
    assert_eq!(err.client_message(), "payload must not be empty");
    // The rejected payload never reached the store.
    assert!(admin::get(&s, id + 1).is_err());
}

#[test]
fn admin_get_maps_absence_to_not_found() {
    let s = store();
    let err = admin::get(&s, 9).unwrap_err();
    assert!(matches!(err, Error::NotFound));
    assert_eq!(err.status_code(), 404);
    assert_eq!(err.client_message(), "no record found");
}

#[test]
fn admin_list_reports_stats_and_jobs() {
    let mut s = store();
    for k in 0..3u64 {
        admin::enqueue(&mut s, format!("payload {}", k), 0).unwrap();
    }
    s.claim_next(1, 100, 0).unwrap();
    let listing = admin::list(&s, None, admin::default_page());
    assert_eq!(listing.jobs.len(), 3);
    assert_eq!(listing.stats.pending, 2);
    assert_eq!(listing.stats.running, 1);
    let running = admin::list(&s, Some(JobStatus::Running), 1);
    assert_eq!(running.jobs.len(), 1);
}

#[test]
fn error_status_codes_follow_the_taxonomy() {
    assert_eq!(Error::InvalidRegisterToken.status_code(), 401);
    assert_eq!(Error::Unauthenticated.status_code(), 401);
    assert_eq!(Error::NotFound.status_code(), 404);
    assert_eq!(Error::Validation(String::from("bad")).status_code(), 422);
    assert_eq!(Error::Storage(String::from("io")).status_code(), 500);
    assert_eq!(Error::Handler(String::from("boom")).status_code(), 500);
    assert_eq!(Error::TaskPanic(String::from("panic")).status_code(), 500);
}

#[test]
fn internal_errors_never_leak_details_to_clients() {
    assert_eq!(
        Error::Storage(String::from("db password wrong")).client_message(),
        "internal server error"
    );
    assert_eq!(
        Error::TaskPanic(String::from("stack trace")).client_message(),
        "internal server error"
    );
    assert_eq!(Error::Validation(String::from("too short")).client_message(), "too short");
    assert_eq!(Error::InvalidRegisterToken.client_message(), "invalid register token");
    assert_eq!(Error::Unauthenticated.client_message(), "unauthenticated");
}

#[test]
fn register_user_validation_rules() {
    let ok = RegisterUser {
        email: String::from("ada@example.com"),
        password: String::from("hunter2hunter2"),
        confirm_password: String::from("hunter2hunter2"),
    };
    assert!(ok.validate().is_ok());

    let bad_email = RegisterUser { email: String::from("not-an-email"), ..clone_reg(&ok) };
    match bad_email.validate().unwrap_err() {
        Error::Validation(m) => assert_eq!(m, "Must be a valid email address"),
        _ => panic!("expected a validation error"),
    }

    let short = RegisterUser {
        password: String::from("short"),
        confirm_password: String::from("short"),
        ..clone_reg(&ok)
    };
    match short.validate().unwrap_err() {
        Error::Validation(m) => assert_eq!(m, "password must be at least 8 characters"),
        _ => panic!("expected a validation error"),
    }

    let mismatch = RegisterUser { confirm_password: String::from("different8"), ..clone_reg(&ok) };
    match mismatch.validate().unwrap_err() {
        Error::Validation(m) => assert_eq!(m, "passwords do not match"),
        _ => panic!("expected a validation error"),
    }
}

fn clone_reg(r: &RegisterUser) -> RegisterUser {
    RegisterUser {
        email: r.email.clone(),
        password: r.password.clone(),
        confirm_password: r.confirm_password.clone(),
    }
}

#[test]
fn credentials_validation_rules() {
    let ok = UserCredentials {
        email: String::from("ada@example.com"),
        password: String::from("hunter2hunter2"),
        next: None,
    };
    assert!(ok.validate().is_ok());
    let bad = UserCredentials { email: String::from("@@"), ..ok };
    assert!(matches!(bad.validate(), Err(Error::Validation(_))));
}

#[test]
fn user_create_hashes_the_password() {
    let reg = RegisterUser {
        email: String::from("ada@example.com"),
        password: String::from("hunter2hunter2"),
        confirm_password: String::from("hunter2hunter2"),
    };
    let nu = User::create(reg).unwrap();
    assert_eq!(nu.email, "ada@example.com");
    assert!(nu.password_hash.starts_with("$argon2"), "PHC hash expected");
    assert!(!nu.password_hash.contains("hunter2"));
}

#[test]
fn user_getters_expose_id_and_auth_hash() {
    let u = User {
        id: 7,
        email: String::from("ada@example.com"),
        password_hash: String::from("$argon2id$fake"),
    };
    assert_eq!(u.id(), 7);
    assert_eq!(u.session_auth_hash(), "$argon2id$fake".as_bytes());
}

#[test]
fn register_token_is_six_alphanumerics() {
    let t = generate_register_token();
    assert_eq!(t.len(), 6);
    assert!(t.chars().all(|c| c.is_ascii_alphanumeric()));
    // Two draws almost surely differ; equal draws would suggest the
    // generator ignores its randomness.
    let u = generate_register_token();
    let v = generate_register_token();
    assert!(t != u || u != v, "three equal random tokens");
    let rt = RegisterToken::create(42);
    assert_eq!(rt.user_id, 42);
    assert!(rt.expires_at.is_none());
    assert_eq!(rt.register_token.len(), 6);
}

#[test]
fn session_token_comparison_is_exact() {
    let s = Session::new(vec![1, 2, 3], 9);
    assert!(s.token_matches(&[1, 2, 3]));
    assert!(!s.token_matches(&[1, 2]));
    assert!(!s.token_matches(&[1, 2, 4]));
    assert_eq!(s.user_id, 9);
}

#[test]
fn confirmation_email_carries_the_exact_link() {
    let p = AuthMailer::send_confirmation(
        "myapp",
        "localhost",
        8080,
        String::from("noreply@example.com"),
        "ada@example.com",
        "ABC123",
    );
    assert_eq!(p.sender, "noreply@example.com");
    assert_eq!(p.recipients, vec![String::from("ada@example.com")]);
    assert_eq!(p.subject, "Please confirm your registration");
    assert_eq!(
        p.text,
        "Welcome to myapp!\nVisit localhost:8080/auth/register/confirm?register_token=ABC123 \
         to confirm your subscription."
    );
    assert_eq!(
        p.html,
        "Welcome to myapp!<br />Click <a href=\"localhost:8080/auth/register/confirm?\
         register_token=ABC123\">here</a> to confirm your subscription."
    );
}

#[test]
fn email_payload_validation_rules() {
    let ok = EmailPayload::new(
        String::from("noreply@example.com"),
        vec![String::from("ada@example.com")],
        String::from("hello"),
        String::from("<p>hi</p>"),
        String::from("hi"),
    );
    assert!(ok.validate().is_ok());

    let bad_sender = EmailPayload::new(
        String::from("nope"),
        vec![String::from("ada@example.com")],
        String::new(),
        String::new(),
        String::new(),
    );
    match bad_sender.validate().unwrap_err() {
        Error::Validation(m) => assert_eq!(m, "sender must be a valid email address"),
        _ => panic!("expected a validation error"),
    }

    let none = EmailPayload::new(
        String::from("noreply@example.com"),
        vec![],
        String::new(),
        String::new(),
        String::new(),
    );
    match none.validate().unwrap_err() {
        Error::Validation(m) => assert_eq!(m, "at least one recipient is required"),
        _ => panic!("expected a validation error"),
    }

    let bad_rcpt = EmailPayload::new(
        String::from("noreply@example.com"),
        vec![String::from("ada@example.com"), String::from("broken")],
        String::new(),
        String::new(),
        String::new(),
    );
    match bad_rcpt.validate().unwrap_err() {
        Error::Validation(m) => assert_eq!(m, "recipient must be a valid email address"),
        _ => panic!("expected a validation error"),
    }
}

#[test]
fn confirm_flow_decides_per_token_and_lookup() {
    let no_token = Params { register_token: None };
    assert_eq!(confirm_outcome(&no_token, None), ConfirmOutcome::ShowForm);

    let with_token = Params { register_token: Some(String::from("ABC123")) };
    assert_eq!(confirm_outcome(&with_token, Some(5)), ConfirmOutcome::Confirmed(5));
    assert_eq!(confirm_outcome(&with_token, None), ConfirmOutcome::InvalidToken);

    assert_eq!(
        ConfirmOutcome::ShowForm.flash_message(),
        "Check your email for the confirmation link"
    );
    assert_eq!(ConfirmOutcome::Confirmed(5).flash_message(), "Welcome! You are now registered");
    assert_eq!(ConfirmOutcome::InvalidToken.flash_message(), "invalid register token");
}

#[test]
fn todo_changeset_requires_a_description() {
    let ok = TodoChangeset { description: String::from("water the plants") };
    assert!(ok.validate().is_ok());
    let empty = TodoChangeset { description: String::new() };
    match empty.validate().unwrap_err() {
        Error::Validation(m) => assert_eq!(m, "Description must be at least 1 character long"),
        _ => panic!("expected a validation error"),
    }
}

#[test]
fn view_engine_wraps_any_engine() {
    let v = ViewEngine::new(41u32);
    assert_eq!(v.0, 41);
}

#[test]
fn component_keys_drop_extension_and_join_with_dashes() {
    assert_eq!(component_key("card.html"), "card");
    assert_eq!(component_key("a/b/card.mjs"), "a-b-card");
    assert_eq!(component_key("nested\\win\\part.js"), "nested-win-part");
    assert_eq!(component_key("noext"), "noext");
    assert_eq!(component_key(".bashrc"), ".bashrc");
}

#[test]
fn html_components_become_component_functions() {
    assert_eq!(
        wrap_html_component("<b>${state.x}</b>"),
        "function ({html, state}){return html`<b>${state.x}</b>`}"
    );
}

#[test]
fn reload_decision_skips_temp_files_and_debounces() {
    assert!(should_reload("templates/index.html", 1000, None));
    assert!(!should_reload("templates/index.html~", 1000, None));
    assert!(!should_reload("templates/.index.html.swp", 1000, None));
    assert!(!should_reload("x.swx", 1000, None));
    assert!(!should_reload("x.bak", 1000, None));
    assert!(!should_reload("templates/index.html", 1200, Some(1000)));
    assert!(should_reload("templates/index.html", 1300, Some(1000)));
}

#[test]
fn u64_rendering_matches_decimal() {
    assert_eq!(u64_to_string(0), "0");
    assert_eq!(u64_to_string(7), "7");
    assert_eq!(u64_to_string(12345), "12345");
    assert_eq!(u64_to_string(u64::MAX), "18446744073709551615");
}
