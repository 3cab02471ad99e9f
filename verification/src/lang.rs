//! The language table: each recognized language identifier maps to one
//! comment pattern, a regular expression that matches line comments and
//! block comments of that language.

use vstd::prelude::*;

verus! {

/// A recognized programming language, the closed set of identifiers the tool
/// accepts. An identifier outside this set is a configuration error.
#[derive(Clone, Copy, Debug, PartialEq, Eq, Structural)]
pub enum Lang {
    Py,
    Java,
    Js,
    Go,
    Php,
    Rb,
    Rs,
    Cpp,
    Ts,
    Cs,
}

/// Whether two string slices hold the same characters.
pub fn str_eq(a: &str, b: &str) -> (r: bool)
    ensures
        r == (a@ == b@),
{
    let na = a.unicode_len();
    let nb = b.unicode_len();
    if na != nb {
        proof {
            assert(a@ != b@);
        }
        return false;
    }
    let mut i: usize = 0;
    while i < na
        invariant
            na == a@.len() == b@.len(),
            i <= na,
            forall|j: int| 0 <= j < i ==> a@[j] == b@[j],
        decreases na - i,
    {
        if a.get_char(i) != b.get_char(i) {
            proof {
                assert(a@ != b@);
            }
            return false;
        }
        i += 1;
    }
    proof {
        assert(a@ =~= b@);
    }
    true
}

/// The language named by identifier `s`, if any.
pub open spec fn spec_lang_of(s: Seq<char>) -> Option<Lang> {
    if s == "py"@ {
        Some(Lang::Py)
    } else if s == "java"@ {
        Some(Lang::Java)
    } else if s == "js"@ {
        Some(Lang::Js)
    } else if s == "go"@ {
        Some(Lang::Go)
    } else if s == "php"@ {
        Some(Lang::Php)
    } else if s == "rb"@ {
        Some(Lang::Rb)
    } else if s == "rs"@ {
        Some(Lang::Rs)
    } else if s == "cpp"@ {
        Some(Lang::Cpp)
    } else if s == "ts"@ {
        Some(Lang::Ts)
    } else if s == "cs"@ {
        Some(Lang::Cs)
    } else {
        None
    }
}

/// Looks the identifier `s` up in the language table: `Some` exactly on the
/// ten recognized identifiers, `None` otherwise.
pub fn lang_of(s: &str) -> (r: Option<Lang>)
    ensures
        r == spec_lang_of(s@),
{
    if str_eq(s, "py") {
        Some(Lang::Py)
    } else if str_eq(s, "java") {
        Some(Lang::Java)
    } else if str_eq(s, "js") {
        Some(Lang::Js)
    } else if str_eq(s, "go") {
        Some(Lang::Go)
    } else if str_eq(s, "php") {
        Some(Lang::Php)
    } else if str_eq(s, "rb") {
        Some(Lang::Rb)
    } else if str_eq(s, "rs") {
        Some(Lang::Rs)
    } else if str_eq(s, "cpp") {
        Some(Lang::Cpp)
    } else if str_eq(s, "ts") {
        Some(Lang::Ts)
    } else if str_eq(s, "cs") {
        Some(Lang::Cs)
    } else {
        None
    }
}

/// The comment pattern of `l`: line comments, and block comments matched
/// non-greedily, so an unterminated opener matches nothing.
pub open spec fn spec_pattern(l: Lang) -> Seq<char> {
    match l {
        Lang::Py => "(#.*)|(\'\'\'(?:.|\n)*?\'\'\')|(\"\"\"(?:.|\n)*?\"\"\")"@,
        Lang::Java => "//.*|/\\*(?:.|\\n)*?\\*/"@,
        Lang::Js => "//.*|/\\*(?:.|\\n)*?\\*/"@,
        Lang::Go => "//.*|/\\*(?:.|\\n)*?\\*/"@,
        Lang::Php => "//.*|/\\*(?:.|\\n)*?\\*/"@,
        Lang::Rb => "#.*|=begin(?:.|\n)*?=end"@,
        Lang::Rs => "//.*|/\\*(?:.|\\n)*?\\*/"@,
        Lang::Cpp => "//.*|/\\*(?:.|\\n)*?\\*/"@,
        Lang::Ts => "//.*|/\\*(?:.|\\n)*?\\*/"@,
        Lang::Cs => "//.*|/\\*(?:.|\\n)*?\\*/"@,
    }
}

/// The comment pattern of language `l`.
pub fn pattern_of(l: Lang) -> (r: &'static str)
    ensures
        r@ == spec_pattern(l),
{
    match l {
        Lang::Py => "(#.*)|(\'\'\'(?:.|\n)*?\'\'\')|(\"\"\"(?:.|\n)*?\"\"\")",
        Lang::Java => "//.*|/\\*(?:.|\\n)*?\\*/",
        Lang::Js => "//.*|/\\*(?:.|\\n)*?\\*/",
        Lang::Go => "//.*|/\\*(?:.|\\n)*?\\*/",
        Lang::Php => "//.*|/\\*(?:.|\\n)*?\\*/",
        Lang::Rb => "#.*|=begin(?:.|\n)*?=end",
        Lang::Rs => "//.*|/\\*(?:.|\\n)*?\\*/",
        Lang::Cpp => "//.*|/\\*(?:.|\\n)*?\\*/",
        Lang::Ts => "//.*|/\\*(?:.|\\n)*?\\*/",
        Lang::Cs => "//.*|/\\*(?:.|\\n)*?\\*/",
    }
}

} // verus!
