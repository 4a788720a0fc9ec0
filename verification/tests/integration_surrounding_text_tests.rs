use vnikey::engine::{Action, Engine, InputMethod};

struct TestCase<'a> {
    input: &'a str,
    expected: &'a str,
}

fn simulate_typing_str(engine: &mut Engine, keystrokes_str: &str) -> String {
    let keys: Vec<&str> = keystrokes_str.split_whitespace().collect();
    simulate_typing(engine, &keys)
}

fn simulate_typing(engine: &mut Engine, keystrokes: &[&str]) -> String {
    let mut committed_text = String::new();
    let mut preedit_text = String::new();

    for &key in keystrokes {
        if key == "[[ToggleTelex]]" {
            if let Some(action) = engine.set_input_method(InputMethod::Telex) {
                match action {
                    Action::Commit(buf) | Action::CommitAndPassThrough(buf) => {
                        let buf_str: String = buf.as_slice().iter().collect();
                        committed_text.push_str(&buf_str);
                        preedit_text.clear();
                    }
                    _ => {}
                }
            }
            continue;
        }

        if key == "[[ToggleVni]]" {
            if let Some(action) = engine.set_input_method(InputMethod::Vni) {
                match action {
                    Action::Commit(buf) | Action::CommitAndPassThrough(buf) => {
                        let buf_str: String = buf.as_slice().iter().collect();
                        committed_text.push_str(&buf_str);
                        preedit_text.clear();
                    }
                    _ => {}
                }
            }
            continue;
        }

        let c = match key {
            "BackSpace" => '\x08',
            "Space" => ' ',
            "Enter" => '\n',
            "Tab" => '\t',
            "Escape" => '\x1b',
            k if k.len() == 1 => k.chars().next().unwrap(),
            _ => panic!("Unknown key: {}", key),
        };

        let action = engine.process_key(c);
        match action {
            Action::Preedit(buf) => {
                preedit_text = buf.as_slice().iter().collect();
            }
            Action::Commit(buf) => {
                let buf_str: String = buf.as_slice().iter().collect();
                committed_text.push_str(&buf_str);
                preedit_text.clear();
            }
            Action::CommitAndPassThrough(buf) => {
                let buf_str: String = buf.as_slice().iter().collect();
                committed_text.push_str(&buf_str);
                preedit_text.clear();

                // Pass-through
                if c != '\x08' {
                    committed_text.push(c);
                } else if !committed_text.is_empty() {
                    committed_text.pop();
                }
            }
            Action::PassThrough => {
                if c != '\x08' {
                    committed_text.push(c);
                } else if !committed_text.is_empty() {
                    committed_text.pop();
                }
            }
            Action::SurroundingRecompose {
                preedit,
                delete_count,
                ..
            } => {
                // Remove delete_count chars from end of committed_text
                committed_text.push_str(&preedit_text);
                preedit_text.clear();

                for _ in 0..delete_count {
                    committed_text.pop();
                }
                preedit_text = preedit.as_slice().iter().collect();
            }
        }
    }

    format!("{}{}", committed_text, preedit_text)
}

// === SURROUNDING TEXT: VNI MODE ===

#[test]
fn test_surrounding_double_backspace_then_composing() {
    // First BackSpace → SurroundingRecompose path (Idle → Composing)
    // Second BackSpace → regular Composing pop path
    // "hoan " → BS1: SurroundingRecompose("hoa", delete=5) → BS2: Composing pop → "ho"
    let mut engine = Engine::new(InputMethod::Telex, false);
    let result = simulate_typing_str(&mut engine, "h o a n Space BackSpace BackSpace");
    assert_eq!(result, "ho");
}

#[test]
fn test_surrounding_single_char_word() {
    // Single char committed word: pop 'a' → raw empty → SurroundingRecompose(empty, 2)
    // committed "a " → delete 2 → "" ; preedit = ""
    let mut engine = Engine::new(InputMethod::Telex, false);
    let result = simulate_typing_str(&mut engine, "a Space BackSpace");
    assert_eq!(result, "");
}

#[test]
fn test_surrounding_exhausts_then_passthrough() {
    // BS1: pop 'h' → raw empty → SurroundingRecompose(empty, 2) → committed ""
    // BS2: Idle + last_committed_raw empty → PassThrough → pop from "" → nothing
    let mut engine = Engine::new(InputMethod::Telex, false);
    let result = simulate_typing_str(&mut engine, "h Space BackSpace BackSpace");
    assert_eq!(result, "");
}

#[test]
fn test_surrounding_continue_typing_no_commit() {
    // After surrounding recompose → still Composing → handle_char continues normally
    // "hoan " → BS: SurroundingRecompose("hoa", 5), raw=['h','o','a'] (Composing)
    // type 'g': raw=['h','o','a','g'] → preedit "hoag"
    let mut engine = Engine::new(InputMethod::Telex, false);
    let result = simulate_typing_str(&mut engine, "h o a n Space BackSpace g");
    assert_eq!(result, "hoag");
}

#[test]
fn test_surrounding_telex_add_coda_after_recompose() {
    // "hoa " → BS: pop 'a' → raw=['h','o'] → SurroundingRecompose("ho", 4) → Composing
    // type 'n': raw=['h','o','n'] → "hon" preedit
    let mut engine = Engine::new(InputMethod::Telex, false);
    let result = simulate_typing_str(&mut engine, "h o a Space BackSpace n");
    assert_eq!(result, "hon");
}

#[test]
fn test_surrounding_telex_tone_stripped_on_recompose() {
    // Commit "hoàn " (raw "hoafn") → BS: pop 'n' → raw=['h','o','a','f']
    // rebuild "hoà" (tone stays on remaining raw) → SurroundingRecompose("hoà", 5)
    // delete_count = len("hoàn ") = 5 chars (h,o,à,n,space)
    let mut engine = Engine::new(InputMethod::Telex, false);
    let result = simulate_typing_str(&mut engine, "h o a f n Space BackSpace");
    assert_eq!(result, "hoà");
}

#[test]
fn test_surrounding_telex_double_modifier_recompose() {
    // Commit "tân " (raw "taan") → BS: pop 'n' → raw=['t','a','a']
    // rebuild "tâ" (aa → â modifier preserved) → SurroundingRecompose("tâ", 4)
    // delete_count = len("tân ") = 4 chars (t,â,n,space)
    let mut engine = Engine::new(InputMethod::Telex, false);
    let result = simulate_typing_str(&mut engine, "t a a n Space BackSpace");
    assert_eq!(result, "tâ");
}

#[test]
fn test_surrounding_vni_modifier6_recompose() {
    // VNI: commit "hô " (raw "ho6") → BS: pop '6' → raw=['h','o']
    // rebuild "ho" → SurroundingRecompose("ho", 3)
    // type '6': raw=['h','o','6'] → "hô" → Space → commit "hô "
    let mut engine = Engine::new(InputMethod::Vni, false);
    let result = simulate_typing_str(&mut engine, "h o 6 Space BackSpace 6 Space");
    assert_eq!(result, "hô ");
}

#[test]
fn test_surrounding_vni_smart_w_recompose() {
    // VNI: "thuong7" → "thương" → commit "thương " (raw=['t','h','u','o','n','g','7'])
    // BS: pop '7' → raw=['t','h','u','o','n','g'] → rebuild "thuong" (no '7' = no ơ modifier)
    // SurroundingRecompose("thuong", 7) — delete_count=7: t,h,ư,ơ,n,g,space
    let mut engine = Engine::new(InputMethod::Vni, false);
    let result = simulate_typing_str(&mut engine, "t h u o n g 7 Space BackSpace");
    assert_eq!(result, "thuong");
}

#[test]
fn test_surrounding_commit_recomposed_word() {
    // Full round-trip: commit → recompose → add tone back → commit again
    // "hoàn " → BS: pop 'f' → "hoan" preedit → type 'f' → "hoàn" → Space → commit "hoàn "
    // Final committed_text = "hoàn "
    let mut engine = Engine::new(InputMethod::Telex, false);
    let result = simulate_typing_str(&mut engine, "h o a n f Space BackSpace f Space");
    assert_eq!(result, "hoàn ");
}

#[test]
fn test_surrounding_spell_check_invalid_recompose() {
    // spell_check=true: "xabc" is invalid → raw fallback → committed "xabc "
    // BS: pop 'c' → raw=['x','a','b'] → rebuild: "xab" also invalid → raw fallback "xab"
    // SurroundingRecompose("xab", 5), delete_count=5: x,a,b,c,space
    let mut engine = Engine::new(InputMethod::Telex, true);
    let result = simulate_typing_str(&mut engine, "x a b c Space BackSpace");
    assert_eq!(result, "xab");
}

