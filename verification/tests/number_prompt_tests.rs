use rusky_prompt::{KeyEvent, NumberPrompt, PromptError, PromptType, StepStatus};

fn num_prompt(kind: PromptType, default: Option<&str>) -> NumberPrompt {
    NumberPrompt {
        prefix: "?".to_string(),
        text: "Number Prompt".to_string(),
        default: default.map(|d| d.to_string()),
        extra: None,
        line: None,
        prompt_type: kind,
    }
}

#[test]
fn trailing_point_is_stripped_on_submit() {
    let mut p = num_prompt(PromptType::Float, None);
    let events = vec![
        KeyEvent::Char('1'),
        KeyEvent::Char('2'),
        KeyEvent::Char('.'),
        KeyEvent::Char('\n'),
    ];
    let (outcome, _) = p.prompt_handled_events(&events, 3, None);
    // positive sign: no sign marker in the rendered value
    assert_eq!(outcome.unwrap().unwrap(), "12");
}

#[test]
fn minus_on_unsigned_is_rejected_and_buffer_unchanged() {
    let mut p = num_prompt(PromptType::UInt, None);
    let (mut a, _) = p.begin(3, None);
    let (status, out) = p.step(&mut a, &KeyEvent::Char('-'));
    assert_eq!(status, StepStatus::Editing);
    assert!(a.buf.content().is_empty());
    assert!(a.sign);
    assert!(out.contains("The number is unsigned, cannot be negative."));

    let events = vec![KeyEvent::Char('-'), KeyEvent::Char('5'), KeyEvent::Char('\n')];
    let mut q = num_prompt(PromptType::UFloat, None);
    let (outcome, out) = q.prompt_handled_events(&events, 3, None);
    assert_eq!(outcome.unwrap().unwrap(), "5");
    assert!(out.contains("The number is unsigned, cannot be negative."));
}

#[test]
fn minus_toggles_sign_on_signed_kinds() {
    let mut p = num_prompt(PromptType::Int, None);
    let events = vec![KeyEvent::Char('-'), KeyEvent::Char('5'), KeyEvent::Char('\n')];
    let (outcome, _) = p.prompt_handled_events(&events, 3, None);
    assert_eq!(outcome.unwrap().unwrap(), "-5");

    let mut q = num_prompt(PromptType::Int, None);
    let events = vec![
        KeyEvent::Char('-'),
        KeyEvent::Char('5'),
        KeyEvent::Char('-'),
        KeyEvent::Char('\n'),
    ];
    let (outcome, _) = q.prompt_handled_events(&events, 3, None);
    assert_eq!(outcome.unwrap().unwrap(), "5");
}

#[test]
fn second_point_moves_to_caret_never_doubles() {
    let mut p = num_prompt(PromptType::Float, None);
    let events = vec![
        KeyEvent::Char('1'),
        KeyEvent::Char('.'),
        KeyEvent::Char('2'),
        KeyEvent::Home,
        KeyEvent::Char('.'),
        KeyEvent::Char('\n'),
    ];
    let (outcome, _) = p.prompt_handled_events(&events, 3, None);
    let value = outcome.unwrap().unwrap();
    assert_eq!(value, ".12");
    assert_eq!(value.matches('.').count(), 1);
}

#[test]
fn point_rejected_on_integral_kinds() {
    let mut p = num_prompt(PromptType::Int, None);
    let (mut a, _) = p.begin(3, None);
    let (status, out) = p.step(&mut a, &KeyEvent::Char('.'));
    assert_eq!(status, StepStatus::Editing);
    assert!(a.buf.content().is_empty());
    assert!(out.contains("The number is integer, cannot has dot."));
}

#[test]
fn empty_numeric_submission_errors_in_place() {
    let mut p = num_prompt(PromptType::UInt, None);
    let events = vec![KeyEvent::Char('\n'), KeyEvent::Char('7'), KeyEvent::Char('\n')];
    let (outcome, out) = p.prompt_handled_events(&events, 3, None);
    assert_eq!(outcome.unwrap().unwrap(), "7");
    assert!(out.contains("The value must has length of 1 or more."));
}

#[test]
fn numeric_default_substitutes_on_empty_submit() {
    let mut p = num_prompt(PromptType::Int, Some("42"));
    let events = vec![KeyEvent::Char('\n')];
    let (outcome, _) = p.prompt_handled_events(&events, 3, None);
    assert_eq!(outcome.unwrap().unwrap(), "42");
}

#[test]
fn numeric_cancel_discards_everything() {
    let mut p = num_prompt(PromptType::Float, Some("1.5"));
    let events = vec![KeyEvent::Char('9'), KeyEvent::Esc];
    let (outcome, out) = p.prompt_handled_events(&events, 3, None);
    assert!(matches!(
        outcome,
        Some(Err(PromptError::KeyboardInterrupt))
    ));
    assert!(out.contains("<cancelled>"));
}

#[test]
fn numeric_engine_rejects_textual_kind() {
    let mut p = num_prompt(PromptType::String, None);
    let (outcome, out) = p.prompt_handled_events(&vec![], 3, None);
    match outcome {
        Some(Err(PromptError::Custom(m))) => {
            assert_eq!(m, "Prompt struct only can be Int, UInt, Float or UFloat")
        }
        other => panic!("expected a usage error, got {:?}", other),
    }
    assert_eq!(out, "");
}

#[test]
fn backspace_over_point_allows_a_new_one() {
    let mut p = num_prompt(PromptType::UFloat, None);
    let events = vec![
        KeyEvent::Char('3'),
        KeyEvent::Char('.'),
        KeyEvent::Backspace,
        KeyEvent::Char('.'),
        KeyEvent::Char('5'),
        KeyEvent::Char('\n'),
    ];
    let (outcome, _) = p.prompt_handled_events(&events, 3, None);
    assert_eq!(outcome.unwrap().unwrap(), "3.5");
}

#[test]
fn numeric_update_output_exact() {
    let mut p = num_prompt(PromptType::Int, None);
    let (mut a, _) = p.begin(1, None);
    let (status, out) = p.step(&mut a, &KeyEvent::Char('7'));
    assert_eq!(status, StepStatus::Editing);
    let expected = format!(
        "\n\u{1b}[99D\u{1b}[2K\u{1b}[1A{}\u{1b}[36m7\u{1b}[39m",
        p.prompt_line()
    );
    assert_eq!(out, expected);
}

#[test]
fn point_relocates_within_before_segment() {
    let mut p = num_prompt(PromptType::Float, None);
    let events = vec![
        KeyEvent::Char('1'),
        KeyEvent::Char('.'),
        KeyEvent::Char('2'),
        KeyEvent::Char('.'),
        KeyEvent::Char('\n'),
    ];
    // the second `.` moves the point to the caret, after `2`; Enter then
    // strips it as a trailing point
    let (outcome, _) = p.prompt_handled_events(&events, 3, None);
    assert_eq!(outcome.unwrap().unwrap(), "12");
}
