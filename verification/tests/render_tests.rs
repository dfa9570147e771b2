use rusky_prompt::{expand_newlines, Color, Modifier, NumberPrompt, Prompt, PromptType};

#[test]
fn color_open_close_codes() {
    assert_eq!(Color::Red.get_open(), "\u{1b}[31m");
    assert_eq!(Color::Red.get_close(), "\u{1b}[39m");
    assert_eq!(Color::Cyan.get_open(), "\u{1b}[36m");
    assert_eq!(Color::GreenBright.get_open(), "\u{1b}[92m");
    assert_eq!(Color::BlackBright.get_open(), "\u{1b}[90m");
    assert_eq!(Modifier::Bold.get_open(), "\u{1b}[1m");
    assert_eq!(Modifier::Bold.get_close(), "\u{1b}[22m");
    assert_eq!(Modifier::Dim.get_open(), "\u{1b}[2m");
    assert_eq!(Modifier::Reset.get_open(), "\u{1b}[0m");
}

#[test]
fn apply_color_wraps_text() {
    assert_eq!(Color::Red.apply_color("hi"), "\u{1b}[31mhi\u{1b}[39m");
    assert_eq!(Modifier::Dim.a("x"), "\u{1b}[2mx\u{1b}[22m");
}

#[test]
fn text_prompt_line_exact() {
    let p = Prompt {
        prefix: "?".to_string(),
        text: "T".to_string(),
        default: None,
        extra: None,
        line: None,
        prompt_type: PromptType::String,
    };
    assert_eq!(
        p.prompt_line(),
        "\u{1b}[999D\u{1b}[2K\u{1b}[1m\u{1b}[92m?\u{1b}[39m\u{1b}[22m \u{1b}[1mT\u{1b}[22m \u{1b}[2m\u{203a}\u{1b}[22m "
    );
}

#[test]
fn text_prompt_line_uses_termion_sequences() {
    let p = Prompt {
        prefix: "?".to_string(),
        text: "T".to_string(),
        default: None,
        extra: None,
        line: None,
        prompt_type: PromptType::String,
    };
    let head = format!("{}{}", termion::cursor::Left(999), termion::clear::CurrentLine);
    assert!(p.prompt_line().starts_with(&head));
}

#[test]
fn text_prompt_line_with_extra() {
    let p = Prompt {
        prefix: "?".to_string(),
        text: "T".to_string(),
        default: None,
        extra: Some("y/n".to_string()),
        line: None,
        prompt_type: PromptType::Bool,
    };
    let line = p.prompt_line();
    assert!(line.ends_with("\u{1b}[90m(y/n)\u{1b}[39m "));
}

#[test]
fn default_hint_exact() {
    let p = Prompt {
        prefix: "?".to_string(),
        text: "T".to_string(),
        default: Some("Default".to_string()),
        extra: None,
        line: None,
        prompt_type: PromptType::String,
    };
    assert_eq!(p.default_hint(), "\u{1b}[2m[Default]\u{1b}[22m ");
    let q = Prompt { default: None, ..p };
    assert_eq!(q.default_hint(), "");
}

#[test]
fn number_prompt_line_exact() {
    let p = NumberPrompt {
        prefix: "?".to_string(),
        text: "T".to_string(),
        default: None,
        extra: None,
        line: None,
        prompt_type: PromptType::Int,
    };
    assert_eq!(
        p.prompt_line(),
        "\u{1b}[999D\u{1b}[2K\u{1b}[1m\u{1b}[92m?\u{1b}[39m\u{1b}[22m \u{1b}[1mT\u{1b}[22m \u{203a}"
    );
}

#[test]
fn expand_newlines_injects_left_edge_move() {
    let out = expand_newlines(b"a\nb");
    let mut expected: Vec<u8> = Vec::new();
    expected.extend_from_slice(b"a\n");
    expected.extend_from_slice(b"\x1b[99999999D");
    expected.extend_from_slice(b"b");
    assert_eq!(out, expected);
    assert_eq!(expand_newlines(b"abc"), b"abc".to_vec());
    assert_eq!(expand_newlines(b""), Vec::<u8>::new());
}
