use rusky_prompt::{KeyEvent, Prompt, PromptError, PromptType, StepStatus};

fn string_prompt(default: Option<&str>) -> Prompt {
    Prompt {
        prefix: "?".to_string(),
        text: "Text Prompt".to_string(),
        default: default.map(|d| d.to_string()),
        extra: None,
        line: None,
        prompt_type: PromptType::String,
    }
}

fn bool_prompt() -> Prompt {
    Prompt {
        prefix: "?".to_string(),
        text: "Bool Prompt".to_string(),
        default: None,
        extra: Some("y/n".to_string()),
        line: None,
        prompt_type: PromptType::Bool,
    }
}

#[test]
fn empty_submit_with_default_yields_default_exactly() {
    let mut p = string_prompt(Some("Default"));
    let events = vec![KeyEvent::Char('\n')];
    let (outcome, _) = p.prompt_handled_events(&events, 3, None);
    assert_eq!(outcome.unwrap().unwrap(), "Default");
}

#[test]
fn bool_prompt_returns_literal_text_unnormalized() {
    let mut p = bool_prompt();
    let events = vec![KeyEvent::Char('y'), KeyEvent::Char('\n')];
    let (outcome, _) = p.prompt_handled_events(&events, 3, None);
    assert_eq!(outcome.unwrap().unwrap(), "y");
}

#[test]
fn empty_string_submission_retries_then_accepts() {
    let mut p = string_prompt(None);
    let events = vec![
        KeyEvent::Char('\n'),
        KeyEvent::Char('h'),
        KeyEvent::Char('i'),
        KeyEvent::Char('\n'),
    ];
    let (outcome, out) = p.prompt_handled_events(&events, 3, None);
    assert_eq!(outcome.unwrap().unwrap(), "hi");
    assert!(out.contains("The text should contain 1 character or more"));
}

#[test]
fn invalid_bool_retries_then_accepts() {
    let mut p = bool_prompt();
    let events = vec![
        KeyEvent::Char('x'),
        KeyEvent::Char('\n'),
        KeyEvent::Backspace,
        KeyEvent::Char('N'),
        KeyEvent::Char('\n'),
    ];
    let (outcome, out) = p.prompt_handled_events(&events, 3, None);
    assert_eq!(outcome.unwrap().unwrap(), "N");
    assert!(out.contains("The provided value is invalid. (yes|y|true|no|n|false)"));
}

#[test]
fn ctrl_c_cancels_and_discards_buffer() {
    let mut p = string_prompt(Some("Default"));
    let events = vec![KeyEvent::Char('a'), KeyEvent::Char('b'), KeyEvent::CtrlC];
    let (outcome, out) = p.prompt_handled_events(&events, 3, None);
    assert!(matches!(
        outcome,
        Some(Err(PromptError::KeyboardInterrupt))
    ));
    assert!(out.contains("<cancelled>"));
}

#[test]
fn esc_cancels_too() {
    let mut p = string_prompt(None);
    let events = vec![KeyEvent::Esc];
    let (outcome, _) = p.prompt_events(&events, 3, None);
    assert!(matches!(
        outcome,
        Some(Err(PromptError::KeyboardInterrupt))
    ));
}

#[test]
fn text_engine_rejects_numeric_kind() {
    let mut p = string_prompt(None);
    p.prompt_type = PromptType::Int;
    let (outcome, out) = p.prompt_handled_events(&vec![], 3, None);
    match outcome {
        Some(Err(PromptError::Custom(m))) => assert_eq!(
            m,
            "Prompt struct only can be String, Bool, FilePath or FilePathExisting"
        ),
        other => panic!("expected a usage error, got {:?}", other),
    }
    assert_eq!(out, "");
}

#[test]
fn file_path_kind_is_rejected_despite_message() {
    let mut p = string_prompt(None);
    p.prompt_type = PromptType::FilePath;
    let (outcome, _) = p.prompt_handled_events(&vec![], 3, None);
    assert!(matches!(outcome, Some(Err(PromptError::Custom(_)))));
}

#[test]
fn submit_output_jumps_past_prompt() {
    let mut p = string_prompt(None);
    let (mut a, _) = p.begin(5, None);
    let (status, out) = p.step(&mut a, &KeyEvent::Char('\n'));
    assert_eq!(status, StepStatus::Submitted);
    assert_eq!(out, "\u{1b}[5;9999H\n\u{1b}[2K");
}

#[test]
fn arrows_edit_at_cursor() {
    let mut p = string_prompt(None);
    let events = vec![
        KeyEvent::Char('a'),
        KeyEvent::Char('c'),
        KeyEvent::Left,
        KeyEvent::Char('b'),
        KeyEvent::End,
        KeyEvent::Char('d'),
        KeyEvent::Home,
        KeyEvent::Delete,
        KeyEvent::Char('\n'),
    ];
    let (outcome, _) = p.prompt_events(&events, 3, None);
    assert_eq!(outcome.unwrap().unwrap(), "bcd");
}

#[test]
fn events_running_out_yields_no_outcome() {
    let mut p = string_prompt(None);
    let events = vec![KeyEvent::Char('a')];
    let (outcome, _) = p.prompt_events(&events, 3, None);
    assert!(outcome.is_none());
}

#[test]
fn retry_reuses_anchor_row() {
    let mut p = string_prompt(None);
    let events = vec![KeyEvent::Char('\n'), KeyEvent::Char('a'), KeyEvent::Char('\n')];
    let (outcome, out) = p.prompt_handled_events(&events, 7, None);
    assert_eq!(outcome.unwrap().unwrap(), "a");
    assert_eq!(p.line, Some(7));
    // the second attempt jumps back to the recorded anchor row
    assert!(out.contains("\u{1b}[7;0H"));
}

#[test]
fn go_back_false_ends_below_anchor() {
    let mut p = string_prompt(None);
    p.line = Some(4);
    let (mut a, out) = p.begin(9, Some(false));
    assert!(out.starts_with("\u{1b}[4;0H"));
    let (status, out) = p.step(&mut a, &KeyEvent::Char('\n'));
    assert_eq!(status, StepStatus::Submitted);
    assert_eq!(out, "\u{1b}[4;9999H\n\u{1b}[2K");
}
