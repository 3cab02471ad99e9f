use comment_tally::lang::Lang;
use comment_tally::matcher::Matcher;
use comment_tally::tally::is_whitespace_char;
use comment_tally::Tally;

#[test]
fn comment_chars_never_exceed_total_chars() {
    let m = Matcher::for_lang(Lang::Py).unwrap();
    for text in [
        "",
        "   \t\n",
        "# all comment",
        "x = 1",
        "x = 1  # set x",
        "'''doc\nstring''' x = 1",
    ] {
        let t = m.tally_text(text);
        assert!(t.comment_chars <= t.total_chars);
    }
}

#[test]
fn extra_whitespace_changes_no_counter() {
    let m = Matcher::for_lang(Lang::Py).unwrap();
    let before = m.tally_text("x = 1  # set x");
    let after = m.tally_text("  x  =  1\t   #  set   x  ");
    assert_eq!(before, after);
}

#[test]
fn a_newline_can_end_a_line_comment() {
    // Inserted whitespace can still change which spans the pattern finds:
    // a newline inside a line comment ends it.
    let m = Matcher::for_lang(Lang::Rs).unwrap();
    assert_eq!(m.tally_text("// hi"), Tally { comment_chars: 4, total_chars: 4 });
    assert_eq!(m.tally_text("//\n hi"), Tally { comment_chars: 2, total_chars: 4 });
}

#[test]
fn tally_addition_is_commutative() {
    let a = Tally { comment_chars: 3, total_chars: 10 };
    let b = Tally { comment_chars: 5, total_chars: 7 };
    assert_eq!(a.checked_add(b), b.checked_add(a));
    assert_eq!(a.checked_add(b).unwrap(), Tally { comment_chars: 8, total_chars: 17 });
}

#[test]
fn tally_addition_checks_for_overflow() {
    let a = Tally { comment_chars: u64::MAX, total_chars: u64::MAX };
    let b = Tally { comment_chars: 0, total_chars: 1 };
    assert_eq!(a.checked_add(b), None);
    assert_eq!(a.checked_add(Tally { comment_chars: 0, total_chars: 0 }), Some(a));
}

#[test]
fn concatenation_need_not_be_additive() {
    // A comment spanning the boundary of two records: tallying the
    // concatenation differs from summing the records' tallies.
    let m = Matcher::for_lang(Lang::Cpp).unwrap();
    let a = m.tally_text("/* a");
    let b = m.tally_text(" b */");
    assert_eq!(a, Tally { comment_chars: 0, total_chars: 3 });
    assert_eq!(b, Tally { comment_chars: 0, total_chars: 3 });
    let joined = m.tally_text("/* a b */");
    assert_eq!(joined, Tally { comment_chars: 6, total_chars: 6 });
    assert_ne!(Some(joined), a.checked_add(b));
}

#[test]
fn matching_is_deterministic() {
    let text = "// a\n/* b */ c /* d";
    let m = Matcher::for_lang(Lang::Rs).unwrap();
    let first = m.find_spans(text);
    let second = m.find_spans(text);
    assert_eq!(first, second);
    let other = Matcher::for_lang(Lang::Rs).unwrap();
    assert_eq!(other.find_spans(text), first);
    assert_eq!(m.tally_text(text), other.tally_text(text));
}

#[test]
fn whitespace_table_agrees_with_the_standard_library() {
    for u in 0..=0x10FFFFu32 {
        if let Some(c) = char::from_u32(u) {
            assert_eq!(is_whitespace_char(c), c.is_whitespace());
        }
    }
}
