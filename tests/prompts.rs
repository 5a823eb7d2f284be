use zen_console_input::{editor_returned, multiline_step, Input, LineEvent, MultilineAction};
use zen_console_input::{Password, Selection, ZenConsoleInput};

fn lines(v: &[&str]) -> Vec<String> {
    v.iter().map(|s| s.to_string()).collect()
}

fn colors() -> Selection {
    Selection::new().message("Choose a color").options(vec![
        "Red".to_string(),
        "Green".to_string(),
        "Blue".to_string(),
    ])
}

#[test]
fn test_input_with_default() {
    let input = Input::new().message("Enter your name").default("John Doe");
    assert!(input.message.contains("Enter your name"));
    assert_eq!(input.default, Some("John Doe".to_string()));
}

#[test]
fn test_multiline_input() {
    let input = Input::new().message("Enter your bio").multiline();
    assert!(input.multiline);
}

#[test]
fn test_zen_console_input_creation() {
    let _zci = ZenConsoleInput::new();
}

#[test]
fn test_password_prompt() {
    let password = Password::new().message("Enter your password");
    assert_eq!(password.message, "Enter your password");
}

#[test]
fn test_selection_options() {
    let selection = Selection::new().message("Choose a color").options(vec![
        "Red".to_string(),
        "Green".to_string(),
        "Blue".to_string(),
    ]);
    assert_eq!(selection.message, "Choose a color");
    assert_eq!(selection.options, vec!["Red", "Green", "Blue"]);
}

#[test]
fn empty_answer_gives_default() {
    let input = Input::new().default("John Doe");
    assert_eq!(input.resolve(""), "John Doe");
    assert_eq!(input.resolve("   \t"), "John Doe");
    assert_eq!(input.get_input(&lines(&["\n"])), "John Doe");
}

#[test]
fn answer_is_trimmed_regardless_of_default() {
    let input = Input::new().default("John Doe");
    assert_eq!(input.resolve("  Ann  \n"), "Ann");
    assert_eq!(Input::new().resolve("  Ann  \n"), "Ann");
}

#[test]
fn empty_answer_without_default_is_empty() {
    assert_eq!(Input::new().resolve("\n"), "");
    assert_eq!(Input::new().get_input(&Vec::new()), "");
}

#[test]
fn single_line_reads_first_line_only() {
    let input = Input::new();
    assert_eq!(input.get_input(&lines(&["first\n", "second\n"])), "first");
}

#[test]
fn multiline_joins_until_end_of_stream() {
    let input = Input::new().message("Enter your bio").multiline();
    assert_eq!(input.get_input(&lines(&["line1\n", "line2\n"])), "line1\nline2");
}

#[test]
fn multiline_empty_buffer_gives_default() {
    let input = Input::new().multiline().default("none");
    assert_eq!(input.get_input(&lines(&["\n", "  \n"])), "none");
    assert_eq!(input.get_input(&Vec::new()), "none");
}

#[test]
fn multiline_keeps_escape_line_without_editor() {
    let input = Input::new().multiline();
    assert_eq!(input.get_input(&lines(&["a\n", "@e\n", "b\n"])), "a\n@e\nb");
}

#[test]
fn multiline_step_appends_lines() {
    let mut buffer = String::from("a\n");
    let next = multiline_step(&mut buffer, &LineEvent::Line("b\n".to_string()), true);
    assert_eq!(next, MultilineAction::ReadLine);
    assert_eq!(buffer, "a\nb\n");
}

#[test]
fn multiline_step_recognises_editor_escape() {
    let mut buffer = String::from("a\n");
    let next = multiline_step(&mut buffer, &LineEvent::Line(" @e \n".to_string()), true);
    assert_eq!(next, MultilineAction::OpenEditor);
    assert_eq!(buffer, "a\n");
    let next = multiline_step(&mut buffer, &LineEvent::Line("@e\n".to_string()), false);
    assert_eq!(next, MultilineAction::ReadLine);
    assert_eq!(buffer, "a\n@e\n");
}

#[test]
fn multiline_step_finishes_on_end_and_failure() {
    let mut buffer = String::from("a\n");
    assert_eq!(multiline_step(&mut buffer, &LineEvent::End, true), MultilineAction::Finish);
    assert_eq!(multiline_step(&mut buffer, &LineEvent::Failed, true), MultilineAction::Finish);
    assert_eq!(buffer, "a\n");
}

#[test]
fn editor_result_replaces_buffer_or_keeps_line() {
    let mut buffer = String::from("draft\n");
    let next = editor_returned(&mut buffer, "@e\n", Some("edited text\n".to_string()));
    assert_eq!(next, MultilineAction::Finish);
    assert_eq!(buffer, "edited text\n");
    let mut buffer = String::from("draft\n");
    let next = editor_returned(&mut buffer, "@e\n", None);
    assert_eq!(next, MultilineAction::ReadLine);
    assert_eq!(buffer, "draft\n@e\n");
}

#[test]
fn parsed_input_retries_until_a_number() {
    let input = Input::new().message("Enter your age: ");
    assert_eq!(input.get_parsed_input(&lines(&["abc", "12x", "42"])), Some((42, 2)));
}

#[test]
fn parsed_input_gives_up_at_end_of_stream() {
    let input = Input::new();
    assert_eq!(input.get_parsed_input(&lines(&["abc", "-1", ""])), None);
}

#[test]
fn parsed_input_uses_default_for_empty_answer() {
    let input = Input::new().default("19");
    assert_eq!(input.get_parsed_input(&lines(&["\n"])), Some((19, 0)));
}

#[test]
fn parsed_input_multiline_parses_whole_buffer() {
    let input = Input::new().multiline();
    assert_eq!(input.get_parsed_input(&lines(&["\n", " 7\n"])), Some((7, 0)));
    assert_eq!(input.get_parsed_input(&lines(&["1\n", "2\n"])), None);
}

#[test]
fn parse_answer_follows_decimal_grammar() {
    let input = Input::new();
    assert_eq!(input.parse_answer(" +5 "), Some(5));
    assert_eq!(input.parse_answer("007"), Some(7));
    assert_eq!(input.parse_answer("+"), None);
    assert_eq!(input.parse_answer("1 2"), None);
    assert_eq!(input.parse_answer("18446744073709551616"), None);
    assert_eq!(input.parse_answer("18446744073709551615"), Some(usize::MAX));
}

#[test]
fn ordinal_picks_option() {
    let s = colors();
    assert_eq!(s.pick("1"), Some("Red".to_string()));
    assert_eq!(s.pick("2"), Some("Green".to_string()));
    assert_eq!(s.pick(" 3 \n"), Some("Blue".to_string()));
}

#[test]
fn out_of_range_or_non_numeric_is_refused() {
    let s = colors();
    assert_eq!(s.pick("0"), None);
    assert_eq!(s.pick("4"), None);
    assert_eq!(s.pick("abc"), None);
    assert_eq!(s.pick("-1"), None);
    assert_eq!(s.pick(""), None);
}

#[test]
fn selection_reprompts_until_valid() {
    let s = colors();
    assert_eq!(s.get_selection(&lines(&["0", "abc", "2"])), Some(("Green".to_string(), 2)));
}

#[test]
fn selection_with_no_options_never_picks() {
    let s = Selection::new().message("Choose");
    assert_eq!(s.get_selection(&lines(&["1", "0"])), None);
}

#[test]
fn builder_order_does_not_matter() {
    let a = Input::new().message("m").default("d");
    let b = Input::new().default("d").message("m");
    assert_eq!(a.message, b.message);
    assert_eq!(a.default, b.default);
    assert_eq!(a.tips, b.tips);
    assert_eq!(a.multiline, b.multiline);
    let c = Input::new().disable_tips().multiline();
    let d = Input::new().multiline().disable_tips();
    assert_eq!((c.tips, c.multiline), (d.tips, d.multiline));
    assert!(!c.tips && c.multiline);
}

#[test]
fn factory_makes_fresh_prompts() {
    let z = ZenConsoleInput::new();
    let i = z.input();
    assert_eq!(i.message, "");
    assert_eq!(i.default, None);
    assert!(i.tips);
    assert!(!i.multiline);
    assert!(z.selection().options.is_empty());
    assert_eq!(z.password().message, "");
}
