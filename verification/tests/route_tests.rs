use tagify::routes::{
    complete_authentication, handle_auth, handle_root, validate_callback_params, ExchangeError,
    RequestValidationError, RouteResponse,
};
use tagify::session::SessionSlot;

#[test]
fn root_is_a_fixed_greeting() {
    let r = handle_root();
    assert_eq!(r, RouteResponse::Content { status: 200, body: "hello, world!".to_string() });
}

#[test]
fn root_ignores_session_state() {
    let before = handle_root();
    let mut slot: SessionSlot<u32> = SessionSlot::empty();
    slot.store(9);
    assert_eq!(handle_root(), before);
}

#[test]
fn auth_redirects_to_the_consent_url() {
    let url = "https://accounts.example.org/authorize?state=abc";
    let r = handle_auth(url);
    assert_eq!(r, RouteResponse::Redirect { status: 302, location: url.to_string() });
}

#[test]
fn auth_is_idempotent() {
    let url = "https://accounts.example.org/authorize?state=abc";
    assert_eq!(handle_auth(url), handle_auth(url));
}

#[test]
fn callback_without_params_is_rejected() {
    let r = validate_callback_params(None, None);
    assert_eq!(r, Err(RequestValidationError::MissingCode));
    assert_eq!(
        RequestValidationError::MissingCode.response(),
        RouteResponse::Failure { status: 500 }
    );
}

#[test]
fn callback_without_state_is_rejected() {
    let r = validate_callback_params(Some("X".to_string()), None);
    assert_eq!(r, Err(RequestValidationError::MissingState));
    assert_eq!(
        RequestValidationError::MissingState.response(),
        RouteResponse::Failure { status: 500 }
    );
}

#[test]
fn callback_without_code_is_rejected_even_with_state() {
    let r = validate_callback_params(None, Some("Y".to_string()));
    assert_eq!(r, Err(RequestValidationError::MissingCode));
}

#[test]
fn callback_with_both_params_passes_them_through() {
    let r = validate_callback_params(Some("X".to_string()), Some("Y".to_string()));
    assert_eq!(r, Ok(("X".to_string(), "Y".to_string())));
}

#[test]
fn validation_diagnostics() {
    assert_eq!(RequestValidationError::MissingCode.describe(), "error retrieving auth code");
    assert_eq!(RequestValidationError::MissingState.describe(), "error retrieving CSRF state");
}

#[test]
fn failed_exchange_gives_500_and_leaves_the_slot_alone() {
    let mut slot: SessionSlot<u32> = SessionSlot::empty();
    let r = complete_authentication(Err(ExchangeError { message: "denied".to_string() }), &mut slot);
    assert_eq!(r, RouteResponse::Failure { status: 500 });
    assert_eq!(slot.get(), &None);
    assert!(!slot.is_filled());

    slot.store(1);
    let r = complete_authentication::<u32>(
        Err(ExchangeError { message: "denied again".to_string() }),
        &mut slot,
    );
    assert_eq!(r, RouteResponse::Failure { status: 500 });
    assert_eq!(slot.get(), &Some(1));
}

#[test]
fn successful_exchange_stores_the_client_and_redirects_home() {
    let mut slot: SessionSlot<u32> = SessionSlot::empty();
    let r = complete_authentication(Ok(7), &mut slot);
    assert_eq!(r, RouteResponse::Redirect { status: 302, location: "/".to_string() });
    assert!(slot.is_filled());
    assert_eq!(slot.get(), &Some(7));
}

#[test]
fn later_successful_exchange_overwrites_the_slot() {
    let mut slot: SessionSlot<u32> = SessionSlot::empty();
    complete_authentication(Ok(7), &mut slot);
    complete_authentication(Ok(8), &mut slot);
    assert_eq!(slot.get(), &Some(8));
}

#[test]
fn fresh_slot_is_empty() {
    let slot: SessionSlot<String> = SessionSlot::empty();
    assert!(!slot.is_filled());
    assert_eq!(slot.get(), &None);
}
