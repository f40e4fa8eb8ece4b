use scripture_retention_algorithm::input::{
    entries_from_lines, split_line, trim_line, trimmed_lines, FIELD_SEPARATOR,
};
use scripture_retention_algorithm::report::day_report;
use scripture_retention_algorithm::VerseEntry;

#[test]
fn field_separator_is_a_bar_between_spaces() {
    assert_eq!(FIELD_SEPARATOR, " | ");
}

#[test]
fn trim_line_agrees_with_std() {
    let lines = [
        "",
        " ",
        "a",
        "  a b  ",
        "\t2025-07-06 | John 3:16\r\n",
        "\u{a0}\u{2003}x\u{3000}\u{85}",
        "\u{1680}\u{2028}\u{2029}\u{202f}\u{205f}y z\u{2000}\u{200a}\u{0b}\u{0c}",
        "\u{200b}not white\u{200b}",
        " \u{feff} ",
        "é ü ",
    ];
    for line in lines {
        assert_eq!(trim_line(line), line.trim());
    }
}

#[test]
fn white_space_is_what_std_calls_white_space() {
    for code in 0..0x11_0000u32 {
        if let Some(c) = char::from_u32(code) {
            let text = c.to_string();
            assert_eq!(trim_line(&text).is_empty(), c.is_whitespace());
        }
    }
}

#[test]
fn split_line_at_the_first_separator() {
    assert_eq!(split_line("2025-07-06 | John 3:16"), Some(("2025-07-06", "John 3:16")));
    assert_eq!(split_line("  2025-07-06 | John 3:16 \n"), Some(("2025-07-06", "John 3:16")));
    assert_eq!(split_line("a | b | c"), Some(("a", "b | c")));
    assert_eq!(split_line("a |  | c"), Some(("a", " | c")));
    assert_eq!(split_line("x | "), None);
    assert_eq!(split_line("x |  y"), Some(("x", " y")));
    assert_eq!(split_line("é | ü"), Some(("é", "ü")));
}

#[test]
fn split_line_without_separator() {
    for line in ["", "   ", "2025-07-06", "2025-07-06|John 3:16", "a |b", "a| b", " | ", "|"] {
        assert_eq!(split_line(line), None);
    }
}

#[test]
fn split_line_agrees_with_std() {
    let lines = [
        "2025-07-06 | John 3:16",
        " | x",
        "x | ",
        "x |  | y",
        " a | b ",
        "a  |  b",
        "a | b | c | d",
        "\ta | b\u{3000}",
        "| | |",
        " |  |  | ",
    ];
    for line in lines {
        assert_eq!(split_line(line), line.trim().split_once(" | "));
    }
}

#[test]
fn entry_from_a_line() {
    let entry = VerseEntry::from_line(" 2025-07-06 | John 3:16\n").unwrap();
    assert_eq!(entry.date().day_number(), 739_438);
    assert_eq!(entry.reference(), "John 3:16");
}

#[test]
fn no_entry_from_a_line_that_is_none() {
    assert!(VerseEntry::from_line("").is_none());
    assert!(VerseEntry::from_line("John 3:16").is_none());
    assert!(VerseEntry::from_line("yesterday | John 3:16").is_none());
    assert!(VerseEntry::from_line("2025-07-06 John 3:16").is_none());
    assert!(VerseEntry::from_line("John 3:16 | 2025-07-06").is_none());
}

#[test]
fn entries_from_lines_pass_over_what_is_no_entry() {
    let lines: Vec<String> = [
        "2025-07-06 | A",
        "",
        "# verses of July",
        "2025-07-13 | B",
        "2025-02-30 | never",
        "   2025-07-20 | C | D  ",
    ]
    .iter()
    .map(|line| line.to_string())
    .collect();
    let entries = entries_from_lines(&lines);
    let found: Vec<(i32, &str)> =
        entries.iter().map(|entry| (entry.date().day_number(), entry.reference())).collect();
    assert_eq!(found, vec![(739_438, "A"), (739_445, "B"), (739_452, "C | D")]);
}

#[test]
fn entries_from_no_lines() {
    assert!(entries_from_lines(&Vec::new()).is_empty());
}

#[test]
fn trimmed_lines_keep_every_line() {
    let lines: Vec<String> =
        [" 2025-07-06 ", "", "\t2025-07-13"].iter().map(|line| line.to_string()).collect();
    assert_eq!(trimmed_lines(&lines), vec!["2025-07-06", "", "2025-07-13"]);
}

#[test]
fn report_of_a_day() {
    let lines: Vec<String> = ["2025-07-06 | A", "2025-07-13 | B", "2025-05-11 | C"]
        .iter()
        .map(|line| line.to_string())
        .collect();
    let entries = entries_from_lines(&lines);
    assert_eq!(
        day_report("2025-07-06", &entries).unwrap(),
        "## 2025-07-06\n\n### Daily: \n- A\n\n### Weekly: \n- C\n\n### Monthly: \n- \n"
    );
    // A Monday: the one weekly verse fell on Sunday.
    assert_eq!(
        day_report("2025-07-14", &entries).unwrap(),
        "## 2025-07-14\n\n### Daily: \n- A\n- B\n\n### Weekly: \n- \n\n### Monthly: \n- \n"
    );
}

#[test]
fn report_of_what_is_no_day() {
    assert!(day_report("", &Vec::new()).is_err());
    assert!(day_report("tomorrow", &Vec::new()).is_err());
}
