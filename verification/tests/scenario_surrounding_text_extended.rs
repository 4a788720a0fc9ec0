use vnikey::engine::{Action, Engine, InputMethod};

struct TestCase<'a> {
    input: &'a str,
    expected: &'a str,
}

fn simulate_typing_str(engine: &mut Engine, keystrokes_str: &str) -> String {
    let keys: Vec<&str> = keystrokes_str.split_whitespace().collect();
    simulate_typing(engine, &keys)
}

fn simulate_typing(engine: &mut Engine, keystrokes: &[&str]) -> String {
    let mut committed_text = String::new();
    let mut preedit_text = String::new();

    for &key in keystrokes {
        if key == "[[ToggleTelex]]" {
            if let Some(action) = engine.set_input_method(InputMethod::Telex) {
                match action {
                    Action::Commit(buf) | Action::CommitAndPassThrough(buf) => {
                        let buf_str: String = buf.as_slice().iter().collect();
                        committed_text.push_str(&buf_str);
                        preedit_text.clear();
                    }
                    _ => {}
                }
            }
            continue;
        }

        if key == "[[ToggleVni]]" {
            if let Some(action) = engine.set_input_method(InputMethod::Vni) {
                match action {
                    Action::Commit(buf) | Action::CommitAndPassThrough(buf) => {
                        let buf_str: String = buf.as_slice().iter().collect();
                        committed_text.push_str(&buf_str);
                        preedit_text.clear();
                    }
                    _ => {}
                }
            }
            continue;
        }

        let c = match key {
            "BackSpace" => '\x08',
            "Space" => ' ',
            "Enter" => '\n',
            "Tab" => '\t',
            "Escape" => '\x1b',
            k if k.len() == 1 => k.chars().next().unwrap(),
            _ => panic!("Unknown key: {}", key),
        };

        let action = engine.process_key(c);
        match action {
            Action::Preedit(buf) => {
                preedit_text = buf.as_slice().iter().collect();
            }
            Action::Commit(buf) => {
                let buf_str: String = buf.as_slice().iter().collect();
                committed_text.push_str(&buf_str);
                preedit_text.clear();
            }
            Action::CommitAndPassThrough(buf) => {
                let buf_str: String = buf.as_slice().iter().collect();
                committed_text.push_str(&buf_str);
                preedit_text.clear();

                // Pass-through
                if c != '\x08' {
                    committed_text.push(c);
                } else if !committed_text.is_empty() {
                    committed_text.pop();
                }
            }
            Action::PassThrough => {
                if c != '\x08' {
                    committed_text.push(c);
                } else if !committed_text.is_empty() {
                    committed_text.pop();
                }
            }
            Action::SurroundingRecompose {
                preedit,
                delete_count,
                ..
            } => {
                // Remove delete_count chars from end of committed_text
                committed_text.push_str(&preedit_text);
                preedit_text.clear();

                for _ in 0..delete_count {
                    committed_text.pop();
                }
                preedit_text = preedit.as_slice().iter().collect();
            }
        }
    }

    format!("{}{}", committed_text, preedit_text)
}

// === SURROUNDING TEXT: VNI MODE ===

#[test]
fn surrounding_text_extended_test_surrounding_vni_basic() {
    // Commit "hoang" (raw vni: "hoang2") → backspace → recompose
    let mut engine = Engine::new(InputMethod::Vni, false);
    let result = simulate_typing_str(&mut engine, "h o a n g 2 Space BackSpace");
    assert_eq!(result, "hoang");
}

#[test]
fn surrounding_text_extended_test_surrounding_vni_add_tone_after() {
    // VNI: commit "tien" → backspace → type "g" → result "tieng" preedit
    let mut engine = Engine::new(InputMethod::Vni, false);
    let result = simulate_typing_str(&mut engine, "t i e n Space BackSpace g");
    assert_eq!(result, "tieg");
}

#[test]
fn surrounding_text_extended_test_surrounding_toned_word_telex() {
    // Commit "hoà" (raw: "hoaf") → backspace → should recompose "hoa" → type "s" → "hoá"
    let mut engine = Engine::new(InputMethod::Telex, false);
    let result = simulate_typing_str(&mut engine, "h o a f Space BackSpace s");
    assert_eq!(result, "hoá");
}

#[test]
fn surrounding_text_extended_test_surrounding_toned_word_vni() {
    // Commit "hoà" (raw: "hoang2" wait no — "hoaf" is telex)
    // VNI: "hoa2" → commit "hoà" → backspace → raw "hoa" popped last → "ho" → preedit "ho"
    // Then type "a2" → commit "hoà"
    let mut engine = Engine::new(InputMethod::Vni, false);
    let result = simulate_typing_str(&mut engine, "h o a 2 Space BackSpace a 2 Space");
    assert_eq!(result, "hoàa ");
}

#[test]
fn surrounding_text_extended_test_surrounding_multiple_commits_only_last() {
    // Commit word 1, commit word 2, then backspace only recomposes word 2
    let mut engine = Engine::new(InputMethod::Telex, false);
    let result = simulate_typing_str(&mut engine, "a n h Space h o a n g f Space BackSpace");
    assert_eq!(result, "anh hoang");
}

#[test]
fn surrounding_text_extended_test_surrounding_then_second_commit_clears() {
    // After surrounding recompose, commit new word, then backspace again = recompose NEW word
    let mut engine = Engine::new(InputMethod::Telex, false);
    let result = simulate_typing_str(&mut engine, "t i e n g Space BackSpace g s Space BackSpace");
    assert_eq!(result, "tieng");
}

#[test]
fn surrounding_text_extended_test_surrounding_enter_as_commit() {
    // Enter also commits, and surrounding should work after Enter commit
    let mut engine = Engine::new(InputMethod::Telex, false);
    let result = simulate_typing_str(&mut engine, "x i n Enter BackSpace");
    assert_eq!(result, "xi");
}

#[test]
fn surrounding_text_extended_test_surrounding_commit_then_space_then_backspace() {
    // Gõ từ, space, rồi thêm backspace 2 lần
    let mut engine = Engine::new(InputMethod::Telex, false);
    let result = simulate_typing_str(&mut engine, "a n h Space BackSpace BackSpace");
    assert_eq!(result, "a");
}

#[test]
fn surrounding_text_extended_test_surrounding_backspace_all_and_retype() {
    // Xóa hết từ cũ bằng surrounding rồi gõ lại
    let mut engine = Engine::new(InputMethod::Telex, false);
    let result = simulate_typing_str(&mut engine, "a Space BackSpace BackSpace h o a Space");
    // commit "a " → BackSpace1: SurroundingRecompose(delete_count=1, preedit="") empty
    //   committed "a " minus 1 = " ", preedit = ""
    // BackSpace2: now Idle + last_committed_raw cleared → PassThrough
    //   simulate_typing PassThrough for '\x08': pop from committed_text " " → ""
    // type "hoa" → preedit "hoa", Space → commit "hoa "
    // result = "hoa "
    assert_eq!(result, "hoa ");
}

#[test]
fn surrounding_text_extended_test_surrounding_vni_toned_complex() {
    // VNI: "nguye6n4" → "nguyễn" → backspace → recompose "nguyễ" (pop 'n' from raw)
    let mut engine = Engine::new(InputMethod::Vni, false);
    let result = simulate_typing_str(&mut engine, "n g u y e 6 n 4 Space BackSpace");
    assert_eq!(result, "nguyên");
}

#[test]
fn surrounding_text_extended_test_surrounding_spell_check_true() {
    // With spell_check = true, surrounding still works
    let mut engine = Engine::new(InputMethod::Telex, true);
    let result = simulate_typing_str(&mut engine, "h o a n g f Space BackSpace");
    assert_eq!(result, "hoang");
}

#[test]
fn surrounding_text_extended_test_surrounding_space_between_words_not_affected() {
    // The space in between two words (already committed PassThrough) is not part of surrounding
    // "anh " is committed as Commit (with space in buffer), not separate PassThrough
    // But "anh" then comma "," would CommitAndPassThrough then PassThrough for ","
    let mut engine = Engine::new(InputMethod::Telex, false);
    let result = simulate_typing_str(&mut engine, "a n h , Space BackSpace");
    assert_eq!(result, "anh,");
}
