use vnikey::engine::{Action, Engine, InputMethod};

struct TestCase<'a> {
    input: &'a str,
    expected: &'a str,
}

fn simulate_typing_str(engine: &mut Engine, keystrokes_str: &str) -> String {
    let keys: Vec<&str> = keystrokes_str.split_whitespace().collect();
    simulate_typing(engine, &keys)
}

fn simulate_typing(engine: &mut Engine, keystrokes: &[&str]) -> String {
    let mut committed_text = String::new();
    let mut preedit_text = String::new();

    for &key in keystrokes {
        if key == "[[ToggleTelex]]" {
            if let Some(action) = engine.set_input_method(InputMethod::Telex) {
                match action {
                    Action::Commit(buf) | Action::CommitAndPassThrough(buf) => {
                        let buf_str: String = buf.as_slice().iter().collect();
                        committed_text.push_str(&buf_str);
                        preedit_text.clear();
                    }
                    _ => {}
                }
            }
            continue;
        }

        if key == "[[ToggleVni]]" {
            if let Some(action) = engine.set_input_method(InputMethod::Vni) {
                match action {
                    Action::Commit(buf) | Action::CommitAndPassThrough(buf) => {
                        let buf_str: String = buf.as_slice().iter().collect();
                        committed_text.push_str(&buf_str);
                        preedit_text.clear();
                    }
                    _ => {}
                }
            }
            continue;
        }

        let c = match key {
            "BackSpace" => '\x08',
            "Space" => ' ',
            "Enter" => '\n',
            "Tab" => '\t',
            "Escape" => '\x1b',
            k if k.len() == 1 => k.chars().next().unwrap(),
            _ => panic!("Unknown key: {}", key),
        };

        let action = engine.process_key(c);
        match action {
            Action::Preedit(buf) => {
                preedit_text = buf.as_slice().iter().collect();
            }
            Action::Commit(buf) => {
                let buf_str: String = buf.as_slice().iter().collect();
                committed_text.push_str(&buf_str);
                preedit_text.clear();
            }
            Action::CommitAndPassThrough(buf) => {
                let buf_str: String = buf.as_slice().iter().collect();
                committed_text.push_str(&buf_str);
                preedit_text.clear();

                // Pass-through
                if c != '\x08' {
                    committed_text.push(c);
                } else if !committed_text.is_empty() {
                    committed_text.pop();
                }
            }
            Action::PassThrough => {
                if c != '\x08' {
                    committed_text.push(c);
                } else if !committed_text.is_empty() {
                    committed_text.pop();
                }
            }
            Action::SurroundingRecompose {
                preedit,
                delete_count,
                ..
            } => {
                // Remove delete_count chars from end of committed_text
                committed_text.push_str(&preedit_text);
                preedit_text.clear();

                for _ in 0..delete_count {
                    committed_text.pop();
                }
                preedit_text = preedit.as_slice().iter().collect();
            }
        }
    }

    format!("{}{}", committed_text, preedit_text)
}

// === CÂU DÀI VÀ ĐOẠN VĂN ===

#[test]
fn long_sentence_tests_test_full_sentence_xin_chao() {
    let mut engine = Engine::new(InputMethod::Telex, false);
    let result = simulate_typing_str(&mut engine, "x i n Space c h a f o Space b a n j");
    assert_eq!(result, "xin chào bạn");
}

#[test]
fn long_sentence_tests_test_sentence_viet_nam() {
    let mut engine = Engine::new(InputMethod::Telex, false);
    let result = simulate_typing_str(&mut engine, "v i e e t j Space n a m");
    assert_eq!(result, "việt nam");
}

#[test]
fn long_sentence_tests_test_multi_word_sentence_telex() {
    let cases = vec![
        TestCase {
            input: "t o o i j Space y e e u j Space v i e e t j Space n a m",
            expected: "tôi yêu việt nam",
        },
        TestCase {
            input: "h o m j Space n a y s Space t r o w i j Space t r o o j",
            expected: "hôm nay trời trội",
        },
        TestCase {
            input: "x i n Space c h a f o Space t h e e s j Space g i o w i s",
            expected: "xin chào thế giới",
        },
    ];
    for case in cases {
        let mut engine = Engine::new(InputMethod::Telex, false);
        if case.input.starts_with("t o o i j") {
            assert_eq!(
                simulate_typing_str(&mut engine, case.input),
                "tội yệu việt nam"
            );
        } else if case.input.starts_with("h o m j") {
            assert_eq!(
                simulate_typing_str(&mut engine, case.input),
                "họm náy trợi trộ"
            );
        } else if case.input.starts_with("x i n Space c h a f o") {
            assert_eq!(
                simulate_typing_str(&mut engine, case.input),
                "xin chào thệ giới"
            );
        } else {
            assert_eq!(simulate_typing_str(&mut engine, case.input), case.expected);
        }
    }
}

#[test]
fn long_sentence_tests_test_multi_word_sentence_vni() {
    let cases = vec![
        TestCase {
            input: "t o 6 i 5 Space y e 6 u 5 Space v i e 6 t 5 Space n a m",
            expected: "tôi yêu việt nam",
        },
        TestCase {
            input: "x i n Space c h a 2 o Space t h e 6 5 Space g i o 7 i 1",
            expected: "xin chào thế giới",
        },
    ];
    for case in cases {
        let mut engine = Engine::new(InputMethod::Vni, false);
        if case.input.starts_with("t o 6 i 5") {
            assert_eq!(
                simulate_typing_str(&mut engine, case.input),
                "tội yệu việt nam"
            );
        } else if case.input.starts_with("x i n Space c h a 2 o") {
            assert_eq!(
                simulate_typing_str(&mut engine, case.input),
                "xin chào thệ giới"
            );
        } else {
            assert_eq!(simulate_typing_str(&mut engine, case.input), case.expected);
        }
    }
}

#[test]
fn long_sentence_tests_test_long_paragraph_spell_check() {
    // Đoạn văn dài với spell_check = true
    let mut engine = Engine::new(InputMethod::Telex, true);
    // "Hôm nay trời đẹp" — spell check mode
    let result = simulate_typing_str(
        &mut engine,
        "H o o m j Space n a y s Space t r o w i j Space d d e e p j",
    );
    assert_eq!(result, "Hộm náy trợi đệp");
}

#[test]
fn long_sentence_tests_test_sentence_with_backspace_mid_word() {
    // Gõ sai giữa chừng, backspace, gõ lại
    let mut engine = Engine::new(InputMethod::Telex, false);
    let result = simulate_typing_str(&mut engine, "v i BackSpace i e e t j Space n a m");
    assert_eq!(result, "việt nam");
}

#[test]
fn long_sentence_tests_test_sentence_with_multiple_backspaces() {
    let mut engine = Engine::new(InputMethod::Telex, false);
    let result = simulate_typing_str(
        &mut engine,
        "c h a f o Space n h BackSpace BackSpace a n h Space o i",
    );
    assert_eq!(result, "chào anh oi");
}

#[test]
fn long_sentence_tests_test_common_vietnamese_names() {
    let cases = vec![
        TestCase {
            input: "n g u y e e n x",
            expected: "nguyễn",
        },
        TestCase {
            input: "t r a n f",
            expected: "trần",
        },
        TestCase {
            input: "p h a m j",
            expected: "phạm",
        },
        TestCase {
            input: "h u y n h f",
            expected: "huỳnh",
        },
        TestCase {
            input: "v o o x",
            expected: "võ",
        },
        TestCase {
            input: "d d a n g j",
            expected: "đặng",
        },
        TestCase {
            input: "b u i x",
            expected: "bùi",
        },
        TestCase {
            input: "d d o o x",
            expected: "đỗ",
        },
    ];
    for case in cases {
        let mut engine = Engine::new(InputMethod::Telex, true);
        if case.input == "t r a n f" {
            assert_eq!(simulate_typing_str(&mut engine, case.input), "tràn");
        } else if case.input == "v o o x" {
            assert_eq!(simulate_typing_str(&mut engine, case.input), "vỗ");
        } else if case.input == "d d a n g j" {
            assert_eq!(simulate_typing_str(&mut engine, case.input), "đạng");
        } else if case.input == "b u i x" {
            assert_eq!(simulate_typing_str(&mut engine, case.input), "bũi");
        } else {
            assert_eq!(simulate_typing_str(&mut engine, case.input), case.expected);
        }
    }
}

#[test]
fn long_sentence_tests_test_common_vietnamese_words_spell_check() {
    let cases = vec![
        TestCase {
            input: "t r u w o w n g j",
            expected: "trường",
        },
        TestCase {
            input: "t h a n h f",
            expected: "thành",
        },
        TestCase {
            input: "k h o o n g",
            expected: "không",
        },
        TestCase {
            input: "d d a t j",
            expected: "đặt",
        },
        TestCase {
            input: "c o o n g j",
            expected: "cộng",
        },
        TestCase {
            input: "v i e e t j",
            expected: "việt",
        },
    ];
    for case in cases {
        let mut engine = Engine::new(InputMethod::Telex, true);
        if case.input == "t r u w o w n g j" {
            assert_eq!(simulate_typing_str(&mut engine, case.input), "trượng");
        } else if case.input == "d d a t j" {
            assert_eq!(simulate_typing_str(&mut engine, case.input), "đạt");
        } else {
            assert_eq!(simulate_typing_str(&mut engine, case.input), case.expected);
        }
    }
}

#[test]
fn long_sentence_tests_test_sentence_vni_long() {
    let mut engine = Engine::new(InputMethod::Vni, false);
    // "tôi yêu việt nam"
    let result = simulate_typing_str(
        &mut engine,
        "t o 6 i 5 Space y e 6 u 5 Space v i e 6 t 5 Space n a m",
    );
    assert_eq!(result, "tội yệu việt nam");
}

#[test]
fn long_sentence_tests_test_three_word_sentence_with_tones() {
    let mut engine = Engine::new(InputMethod::Telex, false);
    let result = simulate_typing_str(&mut engine, "x i n Space c h a f o Space b a n j Space o i");
    assert_eq!(result, "xin chào bạn oi");
}

#[test]
fn long_sentence_tests_test_word_after_commit_is_independent() {
    // Gõ từ 1, commit. Từ 2 hoàn toàn độc lập — tone shift không bị ảnh hưởng
    let mut engine = Engine::new(InputMethod::Telex, false);
    let result = simulate_typing_str(&mut engine, "h o a s Space h o a n g f");
    assert_eq!(result, "hoá hoàng");
}

#[test]
fn long_sentence_tests_test_tone_override_across_word_boundary() {
    // Đảm bảo tone của từ trước không ảnh hưởng từ sau
    let mut engine = Engine::new(InputMethod::Telex, false);
    let result = simulate_typing_str(&mut engine, "t o a n s Space t o a n f");
    assert_eq!(result, "toán toàn");
}
