use psh_front::focus::FieldId;
use psh_front::keyboard::{Edit, TimerCmd};
use psh_front::session::{
    alias_handle_from_id, alias_handle_id, charset_from_id, charset_id, find_alias, parse_option,
    AliasHandle, AliasInfo, Charset, EngineRequest, EnterAction, ProcessOutcome, Session,
    SessionState,
};

fn info(name: &str, uses_secret: bool, charset: Charset) -> AliasInfo {
    AliasInfo { name: name.to_string(), uses_secret, charset }
}

fn unlocked(list: Vec<AliasInfo>) -> Session {
    let mut s = Session::new();
    s.on_password_input("password".to_string());
    assert!(s.login(true));
    assert_eq!(s.on_unlock_result(Some(list)), (true, TimerCmd::Keep));
    s
}

#[test]
fn new_session_defaults() {
    let s = Session::new();
    assert_eq!(s.state, SessionState::New);
    assert_eq!(s.policy.handle, AliasHandle::Store);
    assert_eq!(s.policy.charset, Charset::Standard);
    assert!(s.policy.use_secret);
    assert!(!s.policy.known);
    assert!(!s.lock_timer_armed);
    assert!(s.keyboard_visible);
    assert!(!s.options_visible);
}

#[test]
fn master_password_validity() {
    let mut s = Session::new();
    s.on_password_input("short".to_string());
    assert!(!s.mp_looks_valid(true));
    s.on_password_input("longenough".to_string());
    assert!(s.mp_looks_valid(true));
    assert!(!s.mp_looks_valid(false));
    s.on_password2_input("longenough".to_string());
    assert!(s.mp_looks_valid(false));
    // eight bytes in four characters
    s.on_password_input("éééé".to_string());
    assert!(s.mp_looks_valid(true));
    s.on_password_input("1234567".to_string());
    assert!(!s.mp_looks_valid(true));
}

#[test]
fn login_needs_valid_password() {
    let mut s = Session::new();
    s.on_password_input("short".to_string());
    assert!(!s.login(true));
    assert_eq!(s.state, SessionState::New);
    assert_eq!(s.unlock_password(), None);
    s.on_password_input("password".to_string());
    assert!(s.login(true));
    assert_eq!(s.state, SessionState::Unlocking);
    assert_eq!(s.unlock_password(), Some("password".to_string()));
    assert!(!s.login(true));
}

#[test]
fn unlock_success_initializes() {
    let s = unlocked(vec![info("work", true, Charset::Standard)]);
    assert_eq!(s.state, SessionState::Initialized);
    assert_eq!(s.known_aliases.len(), 1);
    assert_eq!(s.master_password, "");
    assert!(!s.mp_wrong);
}

#[test]
fn unlock_failure_flags_wrong_password() {
    let mut s = Session::new();
    s.on_password_input("password".to_string());
    s.login(true);
    assert_eq!(s.on_unlock_result(None), (true, TimerCmd::Cancel));
    assert_eq!(s.state, SessionState::New);
    assert!(s.mp_wrong);
    assert_eq!(s.master_password, "");
    s.on_password_input("p".to_string());
    assert!(!s.mp_wrong);
}

#[test]
fn late_unlock_answer_is_refused() {
    let mut s = Session::new();
    assert_eq!(s.on_unlock_result(Some(vec![])), (false, TimerCmd::Keep));
    assert_eq!(s.state, SessionState::New);
}

#[test]
fn pause_arms_only_when_unlocked() {
    let mut s = Session::new();
    assert_eq!(s.on_pause(), TimerCmd::Keep);
    assert!(!s.lock_timer_armed);
    let mut s = unlocked(vec![]);
    assert_eq!(s.on_pause(), TimerCmd::Restart);
    assert!(s.lock_timer_armed);
}

#[test]
fn lock_idempotence() {
    let mut s = unlocked(vec![]);
    assert_eq!(s.on_pause(), TimerCmd::Restart);
    assert_eq!(s.on_pause(), TimerCmd::Restart);
    assert!(s.lock_timer_armed);
    assert_eq!(s.on_resume(), TimerCmd::Cancel);
    assert!(!s.lock_timer_armed);
    assert_eq!(s.on_resume(), TimerCmd::Cancel);
    assert!(!s.lock_timer_armed);
    assert_eq!(s.state, SessionState::Initialized);
}

#[test]
fn lock_discards_session_data() {
    let mut s = unlocked(vec![info("work", false, Charset::Reduced)]);
    s.on_alias_input("work".to_string());
    s.on_secret_input("s".to_string());
    s.on_pause();
    assert_eq!(s.lock(), TimerCmd::Cancel);
    assert_eq!(s.state, SessionState::New);
    assert!(s.known_aliases.is_empty());
    assert_eq!(s.alias, "");
    assert_eq!(s.secret, "");
    assert_eq!(s.password_msg, "");
    assert!(!s.lock_timer_armed);
    assert!(!s.policy.known);
    assert!(s.policy.use_secret);
}

#[test]
fn known_alias_takes_stored_settings() {
    let mut s = unlocked(vec![info("work", false, Charset::Reduced)]);
    s.set_alias_handle(AliasHandle::Ignore);
    s.on_alias_input("work".to_string());
    assert!(s.policy.known);
    assert_eq!(s.policy.handle, AliasHandle::Store);
    assert!(!s.policy.use_secret);
    assert_eq!(s.policy.charset, Charset::Reduced);
}

#[test]
fn policy_reconciliation() {
    let mut s = unlocked(vec![info("work", false, Charset::Reduced)]);
    s.set_charset(Charset::RequireAll);
    s.on_alias_input("work".to_string());
    assert!(s.set_alias_handle(AliasHandle::Remove));
    s.on_alias_input("workx".to_string());
    assert_eq!(s.policy.handle, AliasHandle::Store);
    assert!(s.policy.use_secret);
    assert_eq!(s.policy.charset, Charset::RequireAll);
    assert!(!s.policy.known);
}

#[test]
fn policy_reconciliation_keeps_ignore_choice() {
    let mut s = unlocked(vec![info("work", false, Charset::Reduced)]);
    assert!(s.set_alias_handle(AliasHandle::Ignore));
    s.on_alias_input("work".to_string());
    assert_eq!(s.policy.handle, AliasHandle::Store);
    s.on_alias_input("wor".to_string());
    assert_eq!(s.policy.handle, AliasHandle::Ignore);
    assert_eq!(s.policy.charset, Charset::Standard);
}

#[test]
fn handle_choices_that_do_not_apply_are_refused() {
    let mut s = unlocked(vec![info("work", true, Charset::Standard)]);
    s.on_alias_input("new".to_string());
    assert!(!s.set_alias_handle(AliasHandle::Remove));
    assert_eq!(s.policy.handle, AliasHandle::Store);
    s.on_alias_input("work".to_string());
    assert!(!s.set_alias_handle(AliasHandle::Ignore));
    assert!(!s.set_charset(Charset::Reduced));
    assert_eq!(s.policy.charset, Charset::Standard);
}

#[test]
fn enter_actions() {
    let mut s = Session::new();
    assert_eq!(s.on_enter(true), EnterAction::Ignore);
    s.on_password_input("password".to_string());
    assert_eq!(s.on_enter(true), EnterAction::Login);
    let mut s = unlocked(vec![]);
    assert_eq!(s.on_enter(true), EnterAction::Ignore);
    s.on_alias_input("  ".to_string());
    assert_eq!(s.on_enter(true), EnterAction::Ignore);
    s.on_alias_input("site".to_string());
    assert_eq!(s.on_enter(true), EnterAction::Process);
}

#[test]
fn known_alias_with_secret_needs_one() {
    let mut s = unlocked(vec![info("work", true, Charset::Standard)]);
    s.on_alias_input("work".to_string());
    assert!(!s.can_process_alias());
    s.on_secret_input("x".to_string());
    assert!(s.can_process_alias());
}

#[test]
fn derive_request_for_unknown_alias_stores_it() {
    let mut s = unlocked(vec![]);
    s.on_alias_input(" site ".to_string());
    s.on_secret_input("sec".to_string());
    s.set_charset(Charset::Reduced);
    assert_eq!(
        s.process_request(),
        Some(EngineRequest::Derive {
            alias: "site".to_string(),
            secret: Some("sec".to_string()),
            charset: Charset::Reduced,
            store: true,
            uses_secret: true,
        })
    );
}

#[test]
fn derive_request_without_secret() {
    let mut s = unlocked(vec![]);
    s.on_alias_input("site".to_string());
    s.set_alias_handle(AliasHandle::Ignore);
    assert_eq!(
        s.process_request(),
        Some(EngineRequest::Derive {
            alias: "site".to_string(),
            secret: None,
            charset: Charset::Standard,
            store: false,
            uses_secret: false,
        })
    );
}

#[test]
fn derive_request_for_known_alias_does_not_store() {
    let mut s = unlocked(vec![info("work", false, Charset::Reduced)]);
    s.on_alias_input("work".to_string());
    s.on_secret_input("ignored".to_string());
    assert_eq!(
        s.process_request(),
        Some(EngineRequest::Derive {
            alias: "work".to_string(),
            secret: None,
            charset: Charset::Reduced,
            store: false,
            uses_secret: false,
        })
    );
}

#[test]
fn no_request_when_locked_or_empty() {
    let s = Session::new();
    assert_eq!(s.process_request(), None);
    let s = unlocked(vec![]);
    assert_eq!(s.process_request(), None);
}

#[test]
fn remove_then_default() {
    let mut s = unlocked(vec![info("work", true, Charset::RequireAll)]);
    s.on_alias_input("work".to_string());
    assert!(s.set_alias_handle(AliasHandle::Remove));
    assert_eq!(
        s.process_request(),
        Some(EngineRequest::Remove { alias: "work".to_string() })
    );
    s.finish_process(ProcessOutcome { derived: None, aliases: Some(vec![]) });
    assert_eq!(s.alias, "");
    assert_eq!(s.password_msg, "");
    assert_eq!(s.policy.handle, AliasHandle::Store);
    assert_eq!(s.policy.handle_choice, AliasHandle::Store);
    assert_eq!(s.policy.charset, Charset::Standard);
    assert!(s.known_aliases.is_empty());
    assert_eq!(s.focus.current, None);
}

#[test]
fn finish_shows_derived_password_and_keeps_list_on_failure() {
    let mut s = unlocked(vec![info("a", false, Charset::Standard)]);
    s.on_field_focus(Some(FieldId::Alias));
    s.on_alias_input("site".to_string());
    s.finish_process(ProcessOutcome { derived: Some("P@ss".to_string()), aliases: None });
    assert_eq!(s.password_msg, "P@ss");
    assert_eq!(s.known_aliases.len(), 1);
    assert_eq!(s.alias, "");
    assert_eq!(s.focus.current, None);
    // focusing a field afterwards clears the shown password
    s.on_field_focus(Some(FieldId::Alias));
    assert_eq!(s.password_msg, "");
}

#[test]
fn alias_change_clears_derived_password() {
    let mut s = unlocked(vec![]);
    s.finish_process(ProcessOutcome { derived: Some("pw".to_string()), aliases: None });
    s.on_alias_input(String::new());
    assert_eq!(s.password_msg, "pw");
    s.on_alias_input("x".to_string());
    assert_eq!(s.password_msg, "");
}

#[test]
fn refocusing_same_field_keeps_message() {
    let mut s = unlocked(vec![]);
    s.finish_process(ProcessOutcome { derived: Some("pw".to_string()), aliases: None });
    s.on_field_focus(None);
    assert_eq!(s.password_msg, "pw");
}

#[test]
fn keyboard_edits_reach_focused_field() {
    let mut s = Session::new();
    assert_eq!(s.on_keyboard_edit(Edit::Append('x')), None);
    s.on_field_focus(Some(FieldId::MasterPassword));
    assert_eq!(s.on_keyboard_edit(Edit::Append('a')), Some(FieldId::MasterPassword));
    s.on_keyboard_edit(Edit::Append('b'));
    s.on_keyboard_edit(Edit::DeleteLast);
    assert_eq!(s.master_password, "a");
    s.on_field_focus(Some(FieldId::MasterPasswordRepeat));
    s.on_keyboard_edit(Edit::Append('z'));
    assert_eq!(s.master_password2, "z");
}

#[test]
fn keyboard_edit_on_alias_trims_and_reconciles() {
    let mut s = unlocked(vec![info("work", false, Charset::Reduced)]);
    s.on_field_focus(Some(FieldId::Alias));
    s.on_alias_input("wor".to_string());
    s.on_keyboard_edit(Edit::Append('k'));
    assert_eq!(s.alias, "work");
    assert!(s.policy.known);
    s.on_keyboard_edit(Edit::Append(' '));
    assert_eq!(s.alias, "work");
    s.on_field_focus(Some(FieldId::Secret));
    s.on_keyboard_edit(Edit::Append('s'));
    assert_eq!(s.secret, "s");
}

#[test]
fn view_flags() {
    let mut s = unlocked(vec![info("work", true, Charset::Standard)]);
    assert!(s.secret_disabled());
    assert_eq!(s.alias_handle_options_disabled(), [false, false, true]);
    assert_eq!(s.charset_options_disabled(), [false, false, false]);
    s.on_alias_input("work".to_string());
    assert!(!s.secret_disabled());
    assert_eq!(s.alias_handle_options_disabled(), [false, true, false]);
    assert_eq!(s.charset_options_disabled(), [true, true, true]);
}

#[test]
fn option_positions() {
    assert_eq!(alias_handle_id(AliasHandle::Remove), 2);
    assert_eq!(charset_id(Charset::RequireAll), 1);
    assert_eq!(alias_handle_from_id(1), Some(AliasHandle::Ignore));
    assert_eq!(alias_handle_from_id(3), None);
    assert_eq!(charset_from_id(2), Some(Charset::Reduced));
    assert_eq!(charset_from_id(9), None);
    assert_eq!(parse_option("0"), Some(0));
    assert_eq!(parse_option("2"), Some(2));
    assert_eq!(parse_option("3"), None);
    assert_eq!(parse_option(""), None);
}

#[test]
fn lookup_takes_first_entry() {
    let list = vec![info("a", true, Charset::Standard), info("a", false, Charset::Reduced)];
    assert_eq!(find_alias(&list, "a"), Some((true, Charset::Standard)));
    assert_eq!(find_alias(&list, "b"), None);
}

#[test]
fn options_and_keyboard_visibility() {
    let mut s = Session::new();
    s.set_options_visible(true);
    s.set_keyboard_visible(false);
    assert!(s.options_visible);
    assert!(!s.keyboard_visible);
}
