use mortenvistisen_blog::handlers::delete_subscriber;
use mortenvistisen_blog::handlers::subscribe;
use mortenvistisen_blog::handlers::verify_subscription;
use mortenvistisen_blog::handlers::DeleteOutcome;
use mortenvistisen_blog::handlers::SubscribeOutcome;
use mortenvistisen_blog::handlers::VerifyOutcome;
use mortenvistisen_blog::repository::SubscriberStore;
use mortenvistisen_blog::subscriber::Email;
use mortenvistisen_blog::subscriber::Parameters;
use mortenvistisen_blog::subscriber::SubscribeFormData;
use mortenvistisen_blog::views::subscribe_response;
use mortenvistisen_blog::views::verify_response;

fn form(email: &str, referer: &str) -> SubscribeFormData {
    SubscribeFormData {
        email: email.to_string(),
        referer: referer.to_string(),
    }
}

fn subscribe_ok(store: &mut SubscriberStore, email: &str, referer: &str) -> String {
    match subscribe(store, form(email, referer)) {
        SubscribeOutcome::Subscribed { token } => token,
        other => panic!("expected acceptance, got {:?}", other),
    }
}

#[test]
fn subscribe_new_email_creates_pending_row_and_token() {
    let mut store = SubscriberStore::new();
    let outcome = subscribe(&mut store, form("a@b.com", "twitter"));
    let token = match outcome {
        SubscribeOutcome::Subscribed { ref token } => token.clone(),
        ref other => panic!("expected acceptance, got {:?}", other),
    };
    assert_eq!(token.chars().count(), 25);
    assert_eq!(store.subscription_count(), 1);
    assert_eq!(store.token_count(), 1);
    let id = store
        .get_subscriber_id_from_token(&token)
        .expect("the issued token must resolve");
    assert_eq!(store.is_user_verified(&id), Some(false));
    let row = store.get_subscriber(&id).expect("the row must exist");
    assert_eq!(row.email, "a@b.com");
    assert_eq!(row.referer, "twitter");
    assert!(!row.is_verified);
    let page = subscribe_response(&outcome, true);
    assert!(!page.has_error);
    assert_eq!(page.error_msg, "");
}

#[test]
fn subscribe_duplicate_email_no_second_row() {
    let mut store = SubscriberStore::new();
    let _token = subscribe_ok(&mut store, "a@b.com", "twitter");
    let second = subscribe(&mut store, form("a@b.com", "newsletter"));
    assert_eq!(second, SubscribeOutcome::AlreadyRegistered);
    assert_eq!(store.subscription_count(), 1);
    assert_eq!(store.token_count(), 1);
    let page = subscribe_response(&second, true);
    assert!(page.has_error);
    assert!(page.error_msg.contains("already registered"));
}

#[test]
fn subscribe_duplicate_of_verified_email_is_still_refused() {
    let mut store = SubscriberStore::new();
    let token = subscribe_ok(&mut store, "a@b.com", "twitter");
    let params = Parameters { token };
    assert_eq!(
        verify_subscription(&mut store, &params),
        VerifyOutcome::NewlyVerified
    );
    let second = subscribe(&mut store, form("a@b.com", "feed"));
    assert_eq!(second, SubscribeOutcome::AlreadyRegistered);
    assert_eq!(store.subscription_count(), 1);
}

#[test]
fn subscribe_invalid_email_stores_nothing() {
    let mut store = SubscriberStore::new();
    let outcome = subscribe(&mut store, form("not-an-email", "twitter"));
    assert_eq!(outcome, SubscribeOutcome::InvalidEmail);
    assert_eq!(store.subscription_count(), 0);
    assert_eq!(store.token_count(), 0);
    let page = subscribe_response(&outcome, false);
    assert!(page.has_error);
    assert_eq!(page.error_msg, "could not subscribe you, please try again");
}

#[test]
fn verify_flips_flag_then_reports_already_verified() {
    let mut store = SubscriberStore::new();
    let token = subscribe_ok(&mut store, "a@b.com", "twitter");
    let id = store.get_subscriber_id_from_token(&token).unwrap();
    let params = Parameters {
        token: token.clone(),
    };
    let first = verify_subscription(&mut store, &params);
    assert_eq!(first, VerifyOutcome::NewlyVerified);
    assert_eq!(store.is_user_verified(&id), Some(true));
    let first_page = verify_response(&first);
    assert!(!first_page.already_verified);
    assert!(!first_page.has_error);
    let second = verify_subscription(&mut store, &params);
    assert_eq!(second, VerifyOutcome::AlreadyVerified);
    assert_eq!(store.is_user_verified(&id), Some(true));
    let second_page = verify_response(&second);
    assert!(second_page.already_verified);
    assert!(!second_page.has_error);
}

#[test]
fn verify_with_unknown_token_reports_not_found() {
    let mut store = SubscriberStore::new();
    let params = Parameters {
        token: "no-such-token".to_string(),
    };
    assert_eq!(
        verify_subscription(&mut store, &params),
        VerifyOutcome::TokenNotFound
    );
    let page = verify_response(&VerifyOutcome::TokenNotFound);
    assert!(page.has_error);
    assert!(page.error_msg.is_some());
}

#[test]
fn delete_removes_row_and_token() {
    let mut store = SubscriberStore::new();
    let token = subscribe_ok(&mut store, "a@b.com", "twitter");
    let params = Parameters { token };
    assert_eq!(
        delete_subscriber(&mut store, &params),
        DeleteOutcome::Deleted
    );
    assert_eq!(store.subscription_count(), 0);
    assert_eq!(store.token_count(), 0);
}

#[test]
fn delete_then_verify_reads_as_not_found() {
    let mut store = SubscriberStore::new();
    let token = subscribe_ok(&mut store, "a@b.com", "twitter");
    let params = Parameters { token };
    assert_eq!(
        delete_subscriber(&mut store, &params),
        DeleteOutcome::Deleted
    );
    assert_eq!(
        verify_subscription(&mut store, &params),
        VerifyOutcome::TokenNotFound
    );
    assert_eq!(
        delete_subscriber(&mut store, &params),
        DeleteOutcome::AlreadyDeleted
    );
}

#[test]
fn delete_leaves_other_subscribers_alone() {
    let mut store = SubscriberStore::new();
    let token_a = subscribe_ok(&mut store, "a@b.com", "twitter");
    let token_b = subscribe_ok(&mut store, "c@d.com", "feed");
    let params = Parameters { token: token_a };
    assert_eq!(
        delete_subscriber(&mut store, &params),
        DeleteOutcome::Deleted
    );
    assert_eq!(store.subscription_count(), 1);
    assert_eq!(store.token_count(), 1);
    let id_b = store.get_subscriber_id_from_token(&token_b).unwrap();
    assert_eq!(store.get_subscriber(&id_b).unwrap().email, "c@d.com");
}

#[test]
fn email_parse_keeps_valid_addresses_unchanged() {
    let e = Email::parse("Morten@Example.com".to_string()).expect("valid address");
    assert_eq!(e.as_ref(), "Morten@Example.com");
}

#[test]
fn email_parse_rejects_with_message() {
    let err = Email::parse("nonsense".to_string()).unwrap_err();
    assert_eq!(err, "nonsense not a valid email");
    assert!(Email::parse(String::new()).is_err());
    assert!(Email::parse("missing-at-sign.com".to_string()).is_err());
}
