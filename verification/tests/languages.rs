use comment_tally::lang::{lang_of, pattern_of, Lang};
use comment_tally::matcher::Matcher;
use comment_tally::Tally;

#[test]
fn every_recognized_identifier_maps() {
    assert_eq!(lang_of("py"), Some(Lang::Py));
    assert_eq!(lang_of("java"), Some(Lang::Java));
    assert_eq!(lang_of("js"), Some(Lang::Js));
    assert_eq!(lang_of("go"), Some(Lang::Go));
    assert_eq!(lang_of("php"), Some(Lang::Php));
    assert_eq!(lang_of("rb"), Some(Lang::Rb));
    assert_eq!(lang_of("rs"), Some(Lang::Rs));
    assert_eq!(lang_of("cpp"), Some(Lang::Cpp));
    assert_eq!(lang_of("ts"), Some(Lang::Ts));
    assert_eq!(lang_of("cs"), Some(Lang::Cs));
}

#[test]
fn unknown_identifiers_do_not_map() {
    assert_eq!(lang_of(""), None);
    assert_eq!(lang_of("Py"), None);
    assert_eq!(lang_of("python"), None);
    assert_eq!(lang_of("c"), None);
}

#[test]
fn every_pattern_compiles() {
    for l in [
        Lang::Py,
        Lang::Java,
        Lang::Js,
        Lang::Go,
        Lang::Php,
        Lang::Rb,
        Lang::Rs,
        Lang::Cpp,
        Lang::Ts,
        Lang::Cs,
    ] {
        assert!(Matcher::for_lang(l).is_ok(), "pattern {:?} did not compile", pattern_of(l));
    }
}

#[test]
fn python_triple_quotes_span_lines() {
    let m = Matcher::for_lang(Lang::Py).unwrap();
    let t = m.tally_text("'''doc\nstring'''x=1");
    assert_eq!(t, Tally { comment_chars: 15, total_chars: 18 });
    let d = m.tally_text("\"\"\"doc\"\"\" y");
    assert_eq!(d, Tally { comment_chars: 9, total_chars: 10 });
}

#[test]
fn ruby_begin_end_blocks_span_lines() {
    let m = Matcher::for_lang(Lang::Rb).unwrap();
    let t = m.tally_text("=begin\nfoo\n=end\nx");
    assert_eq!(t, Tally { comment_chars: 13, total_chars: 14 });
}

#[test]
fn block_comments_span_lines() {
    let m = Matcher::for_lang(Lang::Go).unwrap();
    let t = m.tally_text("/* a\nb */ c");
    assert_eq!(t, Tally { comment_chars: 6, total_chars: 7 });
}

#[test]
fn spans_are_character_based() {
    // Span offsets count characters, not bytes, so a multi-byte character
    // before the comment does not shift membership: the comment "# ü"
    // holds the two non-whitespace characters '#' and 'ü'.
    let m = Matcher::for_lang(Lang::Py).unwrap();
    let t = m.tally_text("\u{e9} = 1 # \u{fc}");
    assert_eq!(t, Tally { comment_chars: 2, total_chars: 5 });
}
