use csv_delimiter::{
    check_output_name, count_matching, get_number_of_delimiters, is_valid_delimiter, process_line,
    replace_all, resolve_output_name, same_text, CountError, DelimiterError, Ending,
    FileConverter, FileIsDirectoryError, LineAction, LineProcessingResult,
    OutputWithSameNameError, Phase, DEFAULT_NAME,
};

#[test]
fn replace_single_delimiter() {
    assert_eq!(replace_all("a;b;c\n", ";", ","), "a,b,c\n");
}

#[test]
fn replace_without_occurrence() {
    assert_eq!(replace_all("abc", ";", ","), "abc");
    assert_eq!(replace_all("", ";", ","), "");
}

#[test]
fn replace_longer_pattern_and_replacement() {
    assert_eq!(replace_all("a::b::c", "::", "|"), "a|b|c");
    assert_eq!(replace_all("a,b", ",", "<>"), "a<>b");
}

#[test]
fn replace_takes_leftmost_without_overlap() {
    assert_eq!(replace_all("aaa", "aa", "b"), "ba");
    assert_eq!(replace_all("aaaa", "aa", "b"), "bb");
}

#[test]
fn replace_empty_pattern_matches_std() {
    assert_eq!(replace_all("abc", "", "-"), "abc".replace("", "-"));
    assert_eq!(replace_all("", "", "-"), "-");
}

#[test]
fn replace_multibyte_characters() {
    assert_eq!(replace_all("é;ü;ß", ";", "\t"), "é\tü\tß");
    assert_eq!(replace_all("x→y→z", "→", ","), "x,y,z");
}

#[test]
fn same_text_compares_characters() {
    assert!(same_text("abc", "abc"));
    assert!(!same_text("abc", "abd"));
    assert!(!same_text("abc", "ab"));
    assert!(same_text("", ""));
}

#[test]
fn count_delimiters_in_line() {
    assert_eq!(get_number_of_delimiters("a;b;c\n", ";"), 2);
    assert_eq!(get_number_of_delimiters("abc\n", ";"), 0);
    assert_eq!(get_number_of_delimiters("", ";"), 0);
}

#[test]
fn count_uses_last_grapheme_of_separator() {
    assert_eq!(get_number_of_delimiters("a:b:c", "::"), 2);
    assert_eq!(get_number_of_delimiters("xby", "ab"), 1);
}

#[test]
fn count_goes_by_grapheme_clusters() {
    // An "e" followed by a combining accent is one cluster, not an "e".
    assert_eq!(get_number_of_delimiters("e\u{301}ee", "e"), 2);
    assert_eq!(get_number_of_delimiters("e\u{301};e\u{301}", "e\u{301}"), 2);
    // A carriage return and line feed form one cluster.
    assert_eq!(get_number_of_delimiters("a\r\nb\n", "\n"), 1);
}

#[test]
fn count_matching_counts_equal_items() {
    let gs = vec![
        String::from("a"),
        String::from(","),
        String::from("b"),
        String::from(","),
    ];
    assert_eq!(count_matching(&gs, &String::from(",")), 2);
    assert_eq!(count_matching(&gs, &String::from(";")), 0);
    assert_eq!(count_matching(&Vec::new(), &String::from(",")), 0);
}

#[test]
fn valid_delimiters_are_single_graphemes() {
    assert!(is_valid_delimiter(","));
    assert!(is_valid_delimiter("\t"));
    assert!(is_valid_delimiter("e\u{301}"));
    assert!(is_valid_delimiter("\u{1F1F7}\u{1F1FA}"));
    assert!(!is_valid_delimiter(""));
    assert!(!is_valid_delimiter(",,"));
    assert!(!is_valid_delimiter("ab"));
}

#[test]
fn process_line_end_of_file() {
    let (text, result) = process_line(None, ";", ",", true);
    assert_eq!(text, "");
    assert_eq!(result, LineProcessingResult::EndOfFile);
}

#[test]
fn process_line_with_count() {
    let (text, result) = process_line(Some("a;b;c\n"), ";", ",", true);
    assert_eq!(text, "a,b,c\n");
    assert_eq!(result, LineProcessingResult::Count(2));
}

#[test]
fn process_line_without_count() {
    let (text, result) = process_line(Some("a;b;c\n"), ";", ",", false);
    assert_eq!(text, "a,b,c\n");
    assert_eq!(result, LineProcessingResult::Any);
}

fn converter(check: bool) -> FileConverter {
    match FileConverter::new(String::from(";"), String::from(","), check) {
        Ok(c) => c,
        Err(e) => panic!("refused: {:?}", e),
    }
}

#[test]
fn converter_refuses_long_new_delimiter() {
    let r = FileConverter::new(String::from(";"), String::from("ab"), false);
    match r {
        Err(e) => {
            assert_eq!(e.invalid_delimiter(), "ab");
            assert_eq!(
                e.message(),
                "\"ab is not a valid delimiter. Please select a one-character delimiter\""
            );
        }
        Ok(_) => panic!("accepted an invalid delimiter"),
    }
}

#[test]
fn converter_refuses_empty_new_delimiter() {
    assert!(FileConverter::new(String::from(";"), String::new(), true).is_err());
}

#[test]
fn converter_empty_input_is_done() {
    let mut c = converter(true);
    assert_eq!(c.phase(), Phase::Header);
    assert_eq!(c.feed(None), LineAction::Finish(Ending::Done));
    assert_eq!(c.phase(), Phase::Finished);
    assert!(!c.ready(None));
    assert!(!c.ready(Some("a;b\n")));
}

#[test]
fn converter_checked_consistent_file() {
    let mut c = converter(true);
    assert_eq!(c.feed(Some("h1;h2\n")), LineAction::Write(String::from("h1,h2\n")));
    assert_eq!(
        c.phase(),
        Phase::Checked {
            expected: 1,
            line_number: 2
        }
    );
    assert_eq!(c.feed(Some("a;b\n")), LineAction::Write(String::from("a,b\n")));
    assert_eq!(c.feed(Some("c;d")), LineAction::Write(String::from("c,d")));
    assert_eq!(
        c.phase(),
        Phase::Checked {
            expected: 1,
            line_number: 4
        }
    );
    assert_eq!(c.feed(None), LineAction::Finish(Ending::Done));
}

#[test]
fn converter_checked_stops_at_mismatch() {
    let mut c = converter(true);
    assert_eq!(c.feed(Some("h1;h2\n")), LineAction::Write(String::from("h1,h2\n")));
    assert_eq!(c.feed(Some("a;b\n")), LineAction::Write(String::from("a,b\n")));
    match c.feed(Some("a;b;c\n")) {
        LineAction::WriteAndStop(text, e) => {
            assert_eq!(text, "a,b,c\n");
            assert_eq!(e, CountError::new(1, 2, 3));
            assert_eq!(e.delimiters_at_header(), 1);
            assert_eq!(e.delimiters_at_line(), 2);
            assert_eq!(e.line_number(), 3);
        }
        other => panic!("unexpected action {:?}", other),
    }
    assert_eq!(c.phase(), Phase::Finished);
    assert!(!c.ready(Some("a;b\n")));
}

#[test]
fn converter_unchecked_clears_at_end() {
    let mut c = converter(false);
    assert_eq!(c.feed(Some("a;b\n")), LineAction::Write(String::from("a,b\n")));
    assert_eq!(c.phase(), Phase::Unchecked);
    assert_eq!(c.feed(Some("a;b;c\n")), LineAction::Write(String::from("a,b,c\n")));
    assert_eq!(c.feed(None), LineAction::Finish(Ending::Cleared));
}

#[test]
fn converter_not_ready_to_count_with_empty_separator() {
    let c = match FileConverter::new(String::new(), String::from(","), true) {
        Ok(c) => c,
        Err(e) => panic!("refused: {:?}", e),
    };
    assert!(!c.ready(Some("a;b\n")));
    assert!(c.ready(Some("")));
    assert!(c.ready(None));
    let u = match FileConverter::new(String::new(), String::from(","), false) {
        Ok(c) => c,
        Err(e) => panic!("refused: {:?}", e),
    };
    assert!(u.ready(Some("a\n")));
}

#[test]
fn count_error_message() {
    let e = CountError::new(3, 4, 12);
    assert_eq!(e.message(), "\"3 delimiters at header, while 4 at line 12.\"");
    let z = CountError::new(0, 10, 105);
    assert_eq!(z.message(), "\"0 delimiters at header, while 10 at line 105.\"");
    assert_eq!(
        z.message(),
        format!("{:?}", "0 delimiters at header, while 10 at line 105.")
    );
}

#[test]
fn delimiter_error_message() {
    let e = DelimiterError::new(String::from("::"));
    assert_eq!(
        e.sentence(),
        ":: is not a valid delimiter. Please select a one-character delimiter"
    );
    assert_eq!(
        e.message(),
        "\":: is not a valid delimiter. Please select a one-character delimiter\""
    );
}

#[test]
fn delimiter_error_message_escapes() {
    let e = DelimiterError::new(String::from("\"\\"));
    assert_eq!(
        e.message(),
        "\"\\\"\\\\ is not a valid delimiter. Please select a one-character delimiter\""
    );
    let t = DelimiterError::new(String::from("\t\t"));
    assert_eq!(t.message(), format!("{:?}", t.sentence()));
    assert!(t.message().starts_with("\"\\t\\t is not"));
}

#[test]
fn unit_errors_compare_equal() {
    assert_eq!(FileIsDirectoryError::new(), FileIsDirectoryError {});
    assert_eq!(OutputWithSameNameError::new(), OutputWithSameNameError {});
}

#[test]
fn unit_error_messages_are_quoted_empty_text() {
    assert_eq!(FileIsDirectoryError::new().message(), "\"\"");
    assert_eq!(OutputWithSameNameError::new().message(), "\"\"");
}

#[test]
fn empty_line_holds_no_delimiter() {
    assert_eq!(get_number_of_delimiters("", ""), 0);
    assert_eq!(get_number_of_delimiters("", ";"), 0);
    let (text, result) = process_line(Some(""), "", ",", true);
    assert_eq!(text, ",");
    assert_eq!(result, LineProcessingResult::Count(0));
}

#[test]
fn count_never_exceeds_line_length() {
    assert_eq!(get_number_of_delimiters(";;;", ";"), 3);
    assert_eq!(get_number_of_delimiters(";", ";"), 1);
}

#[test]
fn output_name_for_single_file() {
    assert_eq!(resolve_output_name(false, DEFAULT_NAME), "formatted.csv");
    assert_eq!(resolve_output_name(true, DEFAULT_NAME), "formatted");
    assert_eq!(resolve_output_name(false, "out.tsv"), "out.tsv");
}

#[test]
fn output_name_same_as_input_is_refused() {
    assert_eq!(
        check_output_name("data.csv", "data.csv"),
        Err(OutputWithSameNameError::new())
    );
    assert_eq!(check_output_name("data.csv", "formatted.csv"), Ok(()));
}
