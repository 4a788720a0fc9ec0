use vnikey::config::Config;
use vnikey::settings::AppState;

#[test]
fn test_app_state_toggles() {
    let mut state = AppState::new(Config::default());

    state.toggle_input_method("vni");
    assert_eq!(state.config.input_method, "vni");

    state.toggle_input_method("telex");
    assert_eq!(state.config.input_method, "telex");

    state.set_spell_check(false);
    assert_eq!(state.config.spell_check, false);

    state.set_spell_check(true);
    assert_eq!(state.config.spell_check, true);

    state.set_toggle_modifier("Shift");
    assert_eq!(state.config.toggle_modifier, "shift");
    state.config.toggle_key = "z".to_string();
    assert_eq!(state.config.toggle_key, "z");

    state.set_start_enabled(false);
    assert_eq!(state.config.start_enabled, false);
}

#[test]
fn app_state_other_switches() {
    let mut state = AppState::new(Config::default());
    assert_eq!(state.save_status, "");
    state.set_vim_mode(true);
    assert!(state.config.vim_mode);
    state.set_per_window_state(true);
    assert!(state.config.per_window_state);
    assert_eq!(state.config.input_method, "telex");
}

#[test]
fn app_state_save_messages() {
    let mut state = AppState::new(Config::default());
    state.finish_save(Ok(()));
    assert_eq!(state.save_status, "Đã lưu! Daemon sẽ tự động reload trong vài giây.");
    state.finish_save(Err("disk full".to_string()));
    assert_eq!(state.save_status, "Lỗi khi lưu: disk full");
}

#[test]
fn app_state_toggle_key_and_status() {
    let mut state = AppState::new(Config::default());
    state.config.toggle_key = "F1É".to_string();
    state.lowercase_toggle_key();
    assert_eq!(state.config.toggle_key, "f1É");
    assert!(!state.save_failed());
    state.finish_save(Err("x".to_string()));
    assert!(state.save_failed());
    state.finish_save(Ok(()));
    assert!(!state.save_failed());
}

#[test]
fn app_state_notification_and_clipboard() {
    let mut state = AppState::new(Config::default());
    state.set_notification_enabled(false);
    assert!(!state.config.notification_enabled);
    state.set_clipboard_timeout_ms(45);
    assert_eq!(state.config.clipboard_timeout_ms, 45);
    assert_eq!(state.config.cycle_key, "period");
}
