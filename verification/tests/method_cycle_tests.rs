use vnikey::config::Config;
use vnikey::engine::{
    method_name, method_number, method_of_number, next_input_method, Engine, InputMethod,
};
use vnikey::frontend::{vim_escape, VimEscape};

#[test]
fn cycle_goes_telex_vni_viqr() {
    assert_eq!(next_input_method(InputMethod::Telex), InputMethod::Vni);
    assert_eq!(next_input_method(InputMethod::Vni), InputMethod::Viqr);
    assert_eq!(next_input_method(InputMethod::Viqr), InputMethod::Telex);
    for m in [InputMethod::Telex, InputMethod::Vni, InputMethod::Viqr] {
        assert_eq!(next_input_method(next_input_method(next_input_method(m))), m);
    }
}

#[test]
fn method_numbers_and_names() {
    assert_eq!(method_number(InputMethod::Telex), 0);
    assert_eq!(method_number(InputMethod::Vni), 1);
    assert_eq!(method_number(InputMethod::Viqr), 2);
    assert_eq!(method_of_number(7), InputMethod::Telex);
    for m in [InputMethod::Telex, InputMethod::Vni, InputMethod::Viqr] {
        assert_eq!(method_of_number(method_number(m)), m);
        let config = Config { input_method: method_name(m).to_string(), ..Config::default() };
        assert_eq!(config.get_input_method(), m);
    }
    assert_eq!(method_name(InputMethod::Viqr), "viqr");
}

#[test]
fn viqr_setting_selects_viqr() {
    let config = Config { input_method: "VIQR".to_string(), ..Config::default() };
    assert_eq!(config.get_input_method(), InputMethod::Viqr);
}

#[test]
fn default_settings_include_cycle_and_notification() {
    let config = Config::default();
    assert_eq!(config.cycle_modifier, "control");
    assert_eq!(config.cycle_key, "period");
    assert!(config.notification_enabled);
    assert_eq!(config.clipboard_timeout_ms, 20);
    assert_eq!(config.get_cycle_method_modifier_normalized(), "control");
    assert_eq!(config.get_cycle_method_key_normalized(), "period");
}

#[test]
fn switching_method_by_cycle_commits_the_word() {
    let mut engine = Engine::new(InputMethod::Telex, true);
    engine.process_key('a');
    engine.process_key('s');
    let next = next_input_method(engine.get_input_method());
    let action = engine.set_input_method(next);
    assert!(matches!(action, Some(vnikey::engine::Action::Commit(_))));
    assert_eq!(engine.get_input_method(), InputMethod::Vni);
}

#[test]
fn vim_escape_switches_off_only_when_on() {
    assert_eq!(
        vim_escape(true, true, true, true),
        VimEscape::SwitchOff { save_window_state: true }
    );
    assert_eq!(
        vim_escape(true, true, true, false),
        VimEscape::SwitchOff { save_window_state: false }
    );
    assert_eq!(vim_escape(true, true, false, true), VimEscape::Ignore);
    assert_eq!(vim_escape(true, false, true, true), VimEscape::Ignore);
    assert_eq!(vim_escape(false, true, true, true), VimEscape::Ignore);
}
