use majjit::ansi::strip_non_style_ansi;

#[test]
fn control_sequences_go_but_styles_stay() {
    assert_eq!(strip_non_style_ansi("\x1b[2K\x1b[31mred\x1b[0m"), "\x1b[31mred\x1b[0m");
    assert_eq!(strip_non_style_ansi("a\x1b[?25lb\x1b[1;2 qc"), "abc");
    assert_eq!(strip_non_style_ansi("\x1b[10;20Hx\x1b[J"), "x");
    assert_eq!(strip_non_style_ansi("\x1b[1;32m"), "\x1b[1;32m");
}

#[test]
fn operating_system_commands_go_up_to_their_terminator() {
    assert_eq!(strip_non_style_ansi("\x1b]0;title\x07rest"), "rest");
    assert_eq!(strip_non_style_ansi("\x1b]8;;http://x\x1b\\link\x1b]8;;\x1b\\"), "link");
    assert_eq!(strip_non_style_ansi("\x1b]0;a\x1b[1mb\x07c"), "c");
}

#[test]
fn device_control_strings_end_with_string_terminator_only() {
    assert_eq!(strip_non_style_ansi("\x1bPq#0\x1b\\after"), "after");
    assert_eq!(strip_non_style_ansi("\x1bPab\x07c"), "\x1bPab\x07c");
}

#[test]
fn unfinished_or_multiline_sequences_stay() {
    assert_eq!(strip_non_style_ansi("\x1b[12"), "\x1b[12");
    assert_eq!(strip_non_style_ansi("\x1b]0;a\nb\x07"), "\x1b]0;a\nb\x07");
    assert_eq!(strip_non_style_ansi("\x1b"), "\x1b");
    assert_eq!(strip_non_style_ansi("\x1bXy"), "\x1bXy");
    assert_eq!(strip_non_style_ansi("héllo \x1b[Kwörld"), "héllo wörld");
}

#[test]
fn stripping_agrees_with_the_escape_pattern() {
    let pattern = regex::Regex::new(r"\x1b(\[[0-9;?]*[ -/]*([@-l]|[n-~])|\].*?(\x07|\x1b\\)|P.*?\x1b\\)").unwrap();
    let pieces = [
        "\x1b", "[", "]", "P", "\x07", "\\", "\n", "m", "K", "1", ";", "?", " ", "/", "a", "é", "~", "@",
    ];
    let mut seed: u64 = 12345;
    for _ in 0..3000 {
        let mut text = String::new();
        seed = seed.wrapping_mul(6364136223846793005).wrapping_add(1442695040888963407);
        let len = (seed >> 33) % 14;
        for _ in 0..len {
            seed = seed.wrapping_mul(6364136223846793005).wrapping_add(1442695040888963407);
            text.push_str(pieces[((seed >> 33) % pieces.len() as u64) as usize]);
        }
        assert_eq!(strip_non_style_ansi(&text), pattern.replace_all(&text, "").into_owned(), "{text:?}");
    }
}
