use netchat_bridge::tokenizer::{parse_command, separates, tokenize};

fn strings(items: &[&str]) -> Vec<String> {
    items.iter().map(|item| item.to_string()).collect()
}

#[test]
fn quoted_span_is_one_token() {
    assert_eq!(tokenize("a \"b c\" d"), strings(&["a", "b c", "d"]));
}

#[test]
fn escaped_space_joins_the_token() {
    assert_eq!(tokenize("x\\ y z"), strings(&["x y", "z"]));
}

#[test]
fn unterminated_quote_runs_to_the_end() {
    assert_eq!(tokenize("\"abc"), strings(&["abc"]));
}

#[test]
fn trailing_backslash_adds_nothing() {
    assert_eq!(tokenize("abc\\"), strings(&["abc"]));
    assert_eq!(tokenize("\\"), Vec::<String>::new());
}

#[test]
fn consecutive_whitespace_gives_no_empty_token() {
    assert_eq!(tokenize("  a \t\n  b  "), strings(&["a", "b"]));
    assert_eq!(tokenize(""), Vec::<String>::new());
    assert_eq!(tokenize("   "), Vec::<String>::new());
}

#[test]
fn escaped_quote_and_backslash_are_taken_as_they_are() {
    assert_eq!(tokenize("say \\\"hi\\\""), strings(&["say", "\"hi\""]));
    assert_eq!(tokenize("a\\\\b"), strings(&["a\\b"]));
}

#[test]
fn quote_ends_the_pending_token() {
    assert_eq!(tokenize("ab\"cd\"ef"), strings(&["ab", "cd", "ef"]));
    assert_eq!(tokenize("\"\""), Vec::<String>::new());
}

#[test]
fn escape_inside_a_quoted_span_keeps_the_span_open() {
    assert_eq!(tokenize("\"a\\\"b c\" d"), strings(&["a\"b c", "d"]));
}

#[test]
fn first_token_is_the_command_name() {
    let line = parse_command("bridge create \"my room\" secret").expect("a command");
    assert_eq!(line.name, "bridge");
    assert_eq!(line.arguments, strings(&["create", "my room", "secret"]));
    assert!(parse_command("").is_none());
    assert!(parse_command("  ").is_none());
}

#[test]
fn plain_text_keeps_quotes_and_spaces_out_of_its_tokens() {
    for text in ["a \"b c\" d", "  \"\" \"x y\"z ", "one\ttwo\u{3000}three", "\"open to the end"] {
        for token in tokenize(text) {
            assert!(!token.is_empty());
            assert!(!token.contains('"'));
        }
    }
    for text in ["  a  b\tc\nd ", "one\u{a0}two\u{2003}three\u{85}four"] {
        for token in tokenize(text) {
            assert!(!token.chars().any(|c| c.is_whitespace()));
        }
    }
    assert_eq!(
        tokenize("one\u{a0}two\u{2003}three\u{85}four"),
        strings(&["one", "two", "three", "four"])
    );
}

#[test]
fn separators_are_the_whitespace_characters() {
    for code in 0u32..0x3100 {
        if let Some(c) = char::from_u32(code) {
            assert_eq!(separates(c), c.is_whitespace(), "U+{:04X}", code);
        }
    }
    assert!(!separates('\u{200B}'));
    assert!(!separates('\u{FEFF}'));
}
