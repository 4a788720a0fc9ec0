use vnikey::engine::{Action, Engine, InputMethod};

struct TestCase<'a> {
    input: &'a str,
    expected: &'a str,
}

fn simulate_typing_str(engine: &mut Engine, keystrokes_str: &str) -> String {
    let keys: Vec<&str> = keystrokes_str.split_whitespace().collect();
    simulate_typing(engine, &keys)
}

fn simulate_typing(engine: &mut Engine, keystrokes: &[&str]) -> String {
    let mut committed_text = String::new();
    let mut preedit_text = String::new();

    for &key in keystrokes {
        if key == "[[ToggleTelex]]" {
            if let Some(action) = engine.set_input_method(InputMethod::Telex) {
                match action {
                    Action::Commit(buf) | Action::CommitAndPassThrough(buf) => {
                        let buf_str: String = buf.as_slice().iter().collect();
                        committed_text.push_str(&buf_str);
                        preedit_text.clear();
                    }
                    _ => {}
                }
            }
            continue;
        }

        if key == "[[ToggleVni]]" {
            if let Some(action) = engine.set_input_method(InputMethod::Vni) {
                match action {
                    Action::Commit(buf) | Action::CommitAndPassThrough(buf) => {
                        let buf_str: String = buf.as_slice().iter().collect();
                        committed_text.push_str(&buf_str);
                        preedit_text.clear();
                    }
                    _ => {}
                }
            }
            continue;
        }

        let c = match key {
            "BackSpace" => '\x08',
            "Space" => ' ',
            "Enter" => '\n',
            "Tab" => '\t',
            "Escape" => '\x1b',
            k if k.len() == 1 => k.chars().next().unwrap(),
            _ => panic!("Unknown key: {}", key),
        };

        let action = engine.process_key(c);
        match action {
            Action::Preedit(buf) => {
                preedit_text = buf.as_slice().iter().collect();
            }
            Action::Commit(buf) => {
                let buf_str: String = buf.as_slice().iter().collect();
                committed_text.push_str(&buf_str);
                preedit_text.clear();
            }
            Action::CommitAndPassThrough(buf) => {
                let buf_str: String = buf.as_slice().iter().collect();
                committed_text.push_str(&buf_str);
                preedit_text.clear();

                // Pass-through
                if c != '\x08' {
                    committed_text.push(c);
                } else if !committed_text.is_empty() {
                    committed_text.pop();
                }
            }
            Action::PassThrough => {
                if c != '\x08' {
                    committed_text.push(c);
                } else if !committed_text.is_empty() {
                    committed_text.pop();
                }
            }
            Action::SurroundingRecompose {
                preedit,
                delete_count,
                ..
            } => {
                // Remove delete_count chars from end of committed_text
                committed_text.push_str(&preedit_text);
                preedit_text.clear();

                for _ in 0..delete_count {
                    committed_text.pop();
                }
                preedit_text = preedit.as_slice().iter().collect();
            }
        }
    }

    format!("{}{}", committed_text, preedit_text)
}

// === VIQR EXTENDED TESTS ===

#[test]
fn test_viqr_all_tones() {
    let cases = vec![
        TestCase {
            input: "a '",
            expected: "á",
        },
        TestCase {
            input: "a `",
            expected: "à",
        },
        TestCase {
            input: "a ?",
            expected: "ả",
        },
        TestCase {
            input: "a ~",
            expected: "ã",
        },
        TestCase {
            input: "a .",
            expected: "ạ",
        },
    ];
    for case in cases {
        let mut engine = Engine::new(InputMethod::Viqr, false);
        assert_eq!(
            simulate_typing_str(&mut engine, case.input),
            case.expected,
            "input: {}",
            case.input
        );
    }
}

#[test]
fn test_viqr_all_vowel_modifiers() {
    let cases = vec![
        TestCase {
            input: "a ^",
            expected: "â",
        },
        TestCase {
            input: "e ^",
            expected: "ê",
        },
        TestCase {
            input: "o ^",
            expected: "ô",
        },
        TestCase {
            input: "a (",
            expected: "ă",
        },
        TestCase {
            input: "u +",
            expected: "ư",
        },
        TestCase {
            input: "o +",
            expected: "ơ",
        },
        TestCase {
            input: "d -",
            expected: "đ",
        },
        TestCase {
            input: "D -",
            expected: "Đ",
        },
    ];
    for case in cases {
        let mut engine = Engine::new(InputMethod::Viqr, false);
        assert_eq!(
            simulate_typing_str(&mut engine, case.input),
            case.expected,
            "input: {}",
            case.input
        );
    }
}

#[test]
fn test_viqr_complex_words() {
    let cases = vec![
        TestCase {
            input: "v i e ^ t .",
            expected: "việt",
        },
        TestCase {
            input: "n g u y e ^ n ~",
            expected: "nguyễn",
        },
        TestCase {
            input: "t r u o + n g `",
            expected: "trường",
        },
        TestCase {
            input: "d - u o + n g",
            expected: "đương",
        },
    ];
    for case in cases {
        let mut engine = Engine::new(InputMethod::Viqr, false);
        assert_eq!(
            simulate_typing_str(&mut engine, case.input),
            case.expected,
            "input: {}",
            case.input
        );
    }
}

#[test]
fn test_viqr_tone_cancellation() {
    let cases = vec![
        TestCase {
            input: "a ' '",
            expected: "a'",
        },
        TestCase {
            input: "a ` `",
            expected: "a`",
        },
        TestCase {
            input: "a ? ?",
            expected: "a?",
        },
        TestCase {
            input: "a ~ ~",
            expected: "a~",
        },
        TestCase {
            input: "a . .",
            expected: "a.",
        },
        TestCase {
            input: "a ^ ^",
            expected: "a^",
        },
        TestCase {
            input: "a ( (",
            expected: "a(",
        },
        TestCase {
            input: "o + +",
            expected: "o+",
        },
        TestCase {
            input: "d - -",
            expected: "d-",
        },
    ];
    for case in cases {
        let mut engine = Engine::new(InputMethod::Viqr, false);
        assert_eq!(
            simulate_typing_str(&mut engine, case.input),
            case.expected,
            "input: {}",
            case.input
        );
    }
}

#[test]
fn test_viqr_combined_modifier_and_tone() {
    let cases = vec![
        TestCase {
            input: "a ^ '",
            expected: "ấ",
        },
        TestCase {
            input: "a ^ `",
            expected: "ầ",
        },
        TestCase {
            input: "a ^ ?",
            expected: "ẩ",
        },
        TestCase {
            input: "a ^ ~",
            expected: "ẫ",
        },
        TestCase {
            input: "a ^ .",
            expected: "ậ",
        },
        TestCase {
            input: "a ( '",
            expected: "ắ",
        },
        TestCase {
            input: "o + `",
            expected: "ờ",
        },
        TestCase {
            input: "u + '",
            expected: "ứ",
        },
    ];
    for case in cases {
        let mut engine = Engine::new(InputMethod::Viqr, false);
        assert_eq!(
            simulate_typing_str(&mut engine, case.input),
            case.expected,
            "input: {}",
            case.input
        );
    }
}
