use san_andreas_unbound::auth::{
    Auth, DialogButton, DialogDecision, LoginOutcome, Prompt, AUTH_DIALOG, DEFAULT_BCRYPT_COST,
};

fn none() -> Vec<String> {
    Vec::new()
}

fn one() -> Vec<String> {
    vec!["$2b$12$stored".to_string()]
}

#[test]
fn new_auth_waits_for_nobody() {
    let a = Auth::new();
    assert_eq!(a.bcrypt_cost(), DEFAULT_BCRYPT_COST);
    assert_eq!(DEFAULT_BCRYPT_COST, 12);
    assert!(!a.is_registering(0));
    assert!(!a.is_logging_in(0));
}

#[test]
fn set_bcrypt_cost_is_used_for_registration() {
    let mut a = Auth::new();
    a.set_bcrypt_cost(4);
    assert_eq!(a.bcrypt_cost(), 4);
    assert_eq!(a.on_registration_checked(3, &none()), Prompt::Register);
    assert_eq!(
        a.on_dialog_response(3, AUTH_DIALOG, DialogButton::Left),
        DialogDecision::Register { cost: 4 }
    );
}

#[test]
fn unregistered_player_registers_once() {
    let mut a = Auth::new();
    assert_eq!(a.on_registration_checked(7, &none()), Prompt::Register);
    assert!(a.is_registering(7));
    assert_eq!(
        a.on_dialog_response(7, AUTH_DIALOG, DialogButton::Left),
        DialogDecision::Register { cost: 12 }
    );
    assert!(!a.is_registering(7));
    assert_eq!(a.on_dialog_response(7, AUTH_DIALOG, DialogButton::Left), DialogDecision::Ignored);
}

#[test]
fn registered_player_logs_in_and_retries() {
    let mut a = Auth::new();
    assert_eq!(a.on_registration_checked(2, &one()), Prompt::Login);
    assert!(a.is_logging_in(2));
    assert_eq!(a.on_dialog_response(2, AUTH_DIALOG, DialogButton::Left), DialogDecision::Login);
    assert!(!a.is_logging_in(2));
    assert_eq!(a.on_login_checked(2, false), LoginOutcome::Failed);
    assert!(a.is_logging_in(2));
    assert_eq!(a.on_dialog_response(2, AUTH_DIALOG, DialogButton::Left), DialogDecision::Login);
    assert_eq!(a.on_login_checked(2, true), LoginOutcome::LoggedIn);
    assert!(!a.is_logging_in(2));
}

#[test]
fn cancel_clears_both_steps() {
    let mut a = Auth::new();
    a.on_registration_checked(5, &none());
    a.on_registration_checked(5, &one());
    assert_eq!(a.on_dialog_response(5, AUTH_DIALOG, DialogButton::Right), DialogDecision::Cancelled);
    assert!(!a.is_registering(5) && !a.is_logging_in(5));
    // a cancel is reported even for a player who was waiting for nothing
    assert_eq!(a.on_dialog_response(5, AUTH_DIALOG, DialogButton::Right), DialogDecision::Cancelled);
}

#[test]
fn other_dialogs_are_ignored() {
    let mut a = Auth::new();
    a.on_registration_checked(1, &none());
    assert_eq!(a.on_dialog_response(1, 1, DialogButton::Left), DialogDecision::Ignored);
    assert_eq!(a.on_dialog_response(1, 1, DialogButton::Right), DialogDecision::Ignored);
    assert!(a.is_registering(1));
}

#[test]
fn registration_wins_over_login_when_both_pending() {
    let mut a = Auth::new();
    a.on_registration_checked(9, &none());
    a.on_registration_checked(9, &one());
    assert_eq!(
        a.on_dialog_response(9, AUTH_DIALOG, DialogButton::Left),
        DialogDecision::Register { cost: 12 }
    );
    assert_eq!(a.on_dialog_response(9, AUTH_DIALOG, DialogButton::Left), DialogDecision::Login);
}

#[test]
fn answers_of_one_player_leave_others_alone() {
    let mut a = Auth::new();
    a.on_registration_checked(1, &none());
    a.on_registration_checked(2, &one());
    a.on_dialog_response(1, AUTH_DIALOG, DialogButton::Right);
    assert!(a.is_logging_in(2));
}

#[test]
fn prompt_dialog_texts() {
    let d = Prompt::Register.dialog();
    assert_eq!(d.title, "Register your account");
    assert_eq!(d.body, "Please enter a password for your account");
    assert_eq!(d.accept, "Register");
    assert_eq!(d.cancel, "Exit");
    let d = Prompt::Login.dialog();
    assert_eq!(d.title, "Login to your account");
    assert_eq!(d.body, "This account is Registered. Please enter your password to login.");
    assert_eq!(d.accept, "Login");
    let d = Prompt::RetryLogin.dialog();
    assert_eq!(d.body, "Invalid Password. Please enter your password again to login.");
    assert_eq!(Prompt::Register.notice(), Some("You are not registered!"));
    assert_eq!(Prompt::Login.notice(), None);
    assert_eq!(Prompt::RetryLogin.notice(), None);
}

#[test]
fn replies_only_add_pending_players() {
    let mut a = Auth::new();
    a.set_bcrypt_cost(6);
    a.on_registration_checked(1, &none());
    a.on_registration_checked(2, &one());
    assert_eq!(a.on_login_checked(3, false), LoginOutcome::Failed);
    assert_eq!(a.on_login_checked(1, true), LoginOutcome::LoggedIn);
    a.on_registration_checked(1, &one());
    assert!(a.is_registering(1) && a.is_logging_in(1));
    assert!(!a.is_registering(2) && a.is_logging_in(2));
    assert!(!a.is_registering(3) && a.is_logging_in(3));
    assert_eq!(a.bcrypt_cost(), 6);
}
