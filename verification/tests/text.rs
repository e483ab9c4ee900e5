use tbgui::text::{
    chars_of, contains, decimal_string, ends_with, find_from, matches_at, same_text, split_lines,
    string_of, trim,
};

#[test]
fn decimal_of_small_and_large_numbers() {
    assert_eq!(decimal_string(0), "0");
    assert_eq!(decimal_string(7), "7");
    assert_eq!(decimal_string(9), "9");
    assert_eq!(decimal_string(10), "10");
    assert_eq!(decimal_string(99), "99");
    assert_eq!(decimal_string(100), "100");
    assert_eq!(decimal_string(4096), "4096");
    assert_eq!(decimal_string(1234567890), "1234567890");
    assert_eq!(decimal_string(usize::MAX), usize::MAX.to_string());
}

#[test]
fn decimal_agrees_with_the_standard_library() {
    for n in 0..2000usize {
        assert_eq!(decimal_string(n), n.to_string());
    }
}

#[test]
fn lines_of_a_listing() {
    assert_eq!(split_lines("a\nb\nc\n"), vec!["a", "b", "c"]);
    assert_eq!(split_lines("a\nb\nc"), vec!["a", "b", "c"]);
}

#[test]
fn lines_of_the_empty_text() {
    assert!(split_lines("").is_empty());
}

#[test]
fn lines_keep_empty_lines() {
    assert_eq!(split_lines("\n"), vec![""]);
    assert_eq!(split_lines("a\n\nb"), vec!["a", "", "b"]);
    assert_eq!(split_lines("\n\n"), vec!["", ""]);
}

#[test]
fn lines_end_at_carriage_return_and_line_feed() {
    assert_eq!(split_lines("a\r\nb\r\n"), vec!["a", "b"]);
    assert_eq!(split_lines("a\r\n\r\nb"), vec!["a", "", "b"]);
}

#[test]
fn lines_keep_a_bare_carriage_return() {
    assert_eq!(split_lines("a\rb\nc"), vec!["a\rb", "c"]);
    assert_eq!(split_lines("a\r"), vec!["a\r"]);
    assert_eq!(split_lines("a\r\r\n"), vec!["a\r"]);
}

#[test]
fn lines_agree_with_the_standard_library() {
    let texts = [
        "",
        "\n",
        "\r\n",
        "x",
        "x\n",
        "x\r\n",
        "x\r",
        "\rx\n",
        "one\ntwo\r\nthree\n\nfour",
        "S1_R1.fastq\nS1_R2.fastq\nS2_R1.fastq\n",
        "é\nñ\r\n样本\n",
    ];
    for text in texts {
        let expected: Vec<String> = text.lines().map(String::from).collect();
        assert_eq!(split_lines(text), expected, "{:?}", text);
    }
}

#[test]
fn trim_removes_white_space_at_both_ends() {
    assert_eq!(trim("  exists \n"), "exists");
    assert_eq!(trim("exists"), "exists");
    assert_eq!(trim("\t a b \r\n"), "a b");
    assert_eq!(trim(""), "");
    assert_eq!(trim(" \n\t "), "");
}

#[test]
fn trim_knows_white_space_beyond_ascii() {
    assert_eq!(trim("\u{a0}x\u{2003}"), "x");
    assert_eq!(trim("\u{3000}样本\u{3000}"), "样本");
}

#[test]
fn trim_agrees_with_the_standard_library() {
    let texts = ["", " ", "a", " a", "a ", " a b ", "\n\na\n\n", "\u{85}a\u{1680}", "a\u{200b}"];
    for text in texts {
        assert_eq!(trim(text), text.trim(), "{:?}", text);
    }
}

#[test]
fn contains_finds_a_run_of_characters() {
    assert!(contains("JOBID USER\n17 mimeul\n", "mimeul"));
    assert!(!contains("JOBID USER\n17 someone\n", "mimeul"));
    assert!(contains("abc", "abc"));
    assert!(contains("abc", "c"));
    assert!(contains("abc", "a"));
    assert!(!contains("abc", "abcd"));
    assert!(!contains("abc", "ac"));
    assert!(!contains("", "a"));
}

#[test]
fn contains_finds_the_empty_text_everywhere() {
    assert!(contains("abc", ""));
    assert!(contains("", ""));
}

#[test]
fn contains_finds_a_match_after_a_near_miss() {
    assert!(contains("aaab", "aab"));
    assert!(contains("mimimeul", "mimeul"));
}

#[test]
fn ends_with_checks_the_tail() {
    assert!(ends_with("report.docx", ".docx"));
    assert!(!ends_with("report.docx.bak", ".docx"));
    assert!(!ends_with("docx", ".docx"));
    assert!(ends_with(".docx", ".docx"));
    assert!(ends_with("anything", ""));
    assert!(!ends_with("report.DOCX", ".docx"));
}

#[test]
fn same_text_compares_character_by_character() {
    assert!(same_text("exists", "exists"));
    assert!(!same_text("exists", "exist"));
    assert!(!same_text("exists", "Exists"));
    assert!(same_text("", ""));
}

#[test]
fn characters_and_slices() {
    let chars = chars_of("S1_R1");
    assert_eq!(chars, vec!['S', '1', '_', 'R', '1']);
    assert_eq!(find_from(&chars, 0, '_'), 2);
    assert_eq!(find_from(&chars, 3, '_'), 5);
    assert_eq!(find_from(&chars, 0, '1'), 1);
    assert_eq!(find_from(&chars, 2, '1'), 4);
    assert_eq!(string_of(&chars, 0, 2), "S1");
    assert_eq!(string_of(&chars, 3, 5), "R1");
    assert_eq!(string_of(&chars, 2, 2), "");
    assert!(matches_at(&chars, &chars_of("_R"), 2));
    assert!(!matches_at(&chars, &chars_of("_R"), 1));
}
