use vnikey::buffer::CharBuffer;
use vnikey::engine::{Action, Engine};

fn make_buffer(s: &str) -> CharBuffer {
    let mut buf = CharBuffer::new();
    for c in s.chars() {
        buf.push(c);
    }
    buf
}

#[test]
fn lib_test_hoang_tone() {
    let mut engine = Engine::new(vnikey::engine::InputMethod::Telex, false);
    let input = ['h', 'o', 'a', 'n', 'g', 'f'];
    let mut last_action = Action::PassThrough;
    for c in input {
        last_action = engine.process_key(c);
    }
    assert_eq!(last_action, Action::Preedit(make_buffer("hoàng")));
}

#[test]
fn lib_test_nguyen_tone() {
    let mut engine = Engine::new(vnikey::engine::InputMethod::Telex, false);
    let input = ['n', 'g', 'u', 'y', 'e', 'e', 'n', 'x'];
    let mut last_action = Action::PassThrough;
    for c in input {
        last_action = engine.process_key(c);
    }
    assert_eq!(last_action, Action::Preedit(make_buffer("nguyễn")));
}

#[test]
fn lib_test_thuy_tone() {
    let mut engine = Engine::new(vnikey::engine::InputMethod::Telex, false);
    let input = ['t', 'h', 'u', 'y', 'r'];
    let mut last_action = Action::PassThrough;
    for c in input {
        last_action = engine.process_key(c);
    }
    assert_eq!(last_action, Action::Preedit(make_buffer("thủy")));
}

#[test]
fn lib_test_z_cancel() {
    let mut engine = Engine::new(vnikey::engine::InputMethod::Telex, false);
    let input = ['h', 'o', 'a', 's', 'z']; // hoá -> hoa
    let mut last_action = Action::PassThrough;
    for c in input {
        last_action = engine.process_key(c);
    }
    assert_eq!(last_action, Action::Preedit(make_buffer("hoa")));
}

#[test]
fn lib_test_override_tone() {
    let mut engine = Engine::new(vnikey::engine::InputMethod::Telex, false);
    let input = ['h', 'o', 'a', 's', 'f']; // hoá -> hoà
    let mut last_action = Action::PassThrough;
    for c in input {
        last_action = engine.process_key(c);
    }
    assert_eq!(last_action, Action::Preedit(make_buffer("hoà")));
}
