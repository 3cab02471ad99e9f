use comment_tally::lang::{lang_of, Lang};
use comment_tally::matcher::Matcher;
use comment_tally::records::{tally_line, tally_lines};
use comment_tally::{Tally, TallyError};

#[test]
fn rs_line_comment() {
    let m = Matcher::for_lang(Lang::Rs).unwrap();
    let t = m.tally_text("// hi\nlet x = 1;");
    assert_eq!(t, Tally { comment_chars: 4, total_chars: 11 });
}

#[test]
fn py_trailing_comment() {
    let m = Matcher::for_lang(Lang::Py).unwrap();
    let t = m.tally_text("x = 1  # set x");
    assert_eq!(t, Tally { comment_chars: 5, total_chars: 8 });
}

#[test]
fn missing_content_field_counts_nothing() {
    let m = Matcher::for_lang(Lang::Py).unwrap();
    let t = tally_line(&m, "{}").unwrap();
    assert_eq!(t, Tally { comment_chars: 0, total_chars: 0 });
}

#[test]
fn non_string_content_counts_nothing() {
    let m = Matcher::for_lang(Lang::Py).unwrap();
    let t = tally_line(&m, "{\"content\": 7}").unwrap();
    assert_eq!(t, Tally { comment_chars: 0, total_chars: 0 });
}

#[test]
fn unterminated_block_comment_matches_nothing() {
    let m = Matcher::for_lang(Lang::Cpp).unwrap();
    let t = m.tally_text("/* never closed");
    assert_eq!(t, Tally { comment_chars: 0, total_chars: 13 });
}

#[test]
fn no_records_no_counts() {
    let m = Matcher::for_lang(Lang::Py).unwrap();
    let lines: Vec<String> = Vec::new();
    let t = tally_lines(&m, &lines).unwrap();
    assert_eq!(t, Tally { comment_chars: 0, total_chars: 0 });
}

#[test]
fn unrecognized_language_is_rejected() {
    assert_eq!(lang_of("cobol"), None);
}

#[test]
fn file_of_records_sums_per_record_tallies() {
    let m = Matcher::for_lang(Lang::Rs).unwrap();
    let lines: Vec<String> = vec![
        "{\"content\": \"// hi\\nlet x = 1;\"}".to_string(),
        "{\"content\": \"/* never closed\"}".to_string(),
        "{}".to_string(),
    ];
    let t = tally_lines(&m, &lines).unwrap();
    assert_eq!(t, Tally { comment_chars: 4, total_chars: 24 });
}

#[test]
fn invalid_json_line_is_fatal() {
    let m = Matcher::for_lang(Lang::Rs).unwrap();
    let r = tally_line(&m, "not json");
    assert_eq!(r, Err(TallyError::MalformedRecord));

    let lines: Vec<String> = vec!["{\"content\": \"x\"}".to_string(), "{oops".to_string()];
    assert_eq!(tally_lines(&m, &lines), Err(TallyError::MalformedRecord));
}

#[test]
fn invalid_pattern_is_rejected() {
    assert!(matches!(Matcher::new("("), Err(TallyError::InvalidPattern)));
}
