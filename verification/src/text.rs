//! Verified text helpers: decimal rendering of integers and the small
//! path-name computations the pipeline needs (file name, file stem,
//! dynamic-library extension test, path joining).
//!
//! Paths are handled as plain strings; a character index is a position in
//! the string's character sequence.

use vstd::prelude::*;
use vstd::string::StrSliceExecFns;
use vstd::string::StringExecFns;

verus! {

// ---------------------------------------------------------------------------
// Decimal rendering
// ---------------------------------------------------------------------------
/// The decimal digit character for a value below ten.
pub open spec fn spec_digit(d: nat) -> char {
    if d == 0 {
        '0'
    } else if d == 1 {
        '1'
    } else if d == 2 {
        '2'
    } else if d == 3 {
        '3'
    } else if d == 4 {
        '4'
    } else if d == 5 {
        '5'
    } else if d == 6 {
        '6'
    } else if d == 7 {
        '7'
    } else if d == 8 {
        '8'
    } else {
        '9'
    }
}

/// The decimal rendering of a non-negative integer, most significant digit
/// first, with no leading zeros (a lone zero renders as "0").
pub open spec fn spec_udec(n: nat) -> Seq<char>
    decreases n,
{
    if n < 10 {
        seq![spec_digit(n)]
    } else {
        spec_udec(n / 10) + seq![spec_digit(n % 10)]
    }
}

/// The decimal rendering of an integer: a minus sign before the magnitude
/// for negative values.
pub open spec fn spec_dec(n: int) -> Seq<char> {
    if n < 0 {
        seq!['-'] + spec_udec((-n) as nat)
    } else {
        spec_udec(n as nat)
    }
}

fn digit_str(d: u64) -> (r: &'static str)
    requires
        d < 10,
    ensures
        r@ =~= seq![spec_digit(d as nat)],
{
    match d {
        0 => {
            proof {
                reveal_strlit("0");
            }
            "0"
        },
        1 => {
            proof {
                reveal_strlit("1");
            }
            "1"
        },
        2 => {
            proof {
                reveal_strlit("2");
            }
            "2"
        },
        3 => {
            proof {
                reveal_strlit("3");
            }
            "3"
        },
        4 => {
            proof {
                reveal_strlit("4");
            }
            "4"
        },
        5 => {
            proof {
                reveal_strlit("5");
            }
            "5"
        },
        6 => {
            proof {
                reveal_strlit("6");
            }
            "6"
        },
        7 => {
            proof {
                reveal_strlit("7");
            }
            "7"
        },
        8 => {
            proof {
                reveal_strlit("8");
            }
            "8"
        },
        _ => {
            proof {
                reveal_strlit("9");
            }
            "9"
        },
    }
}

/// Render an unsigned integer in decimal.
pub fn u64_to_string(n: u64) -> (r: String)
    ensures
        r@ =~= spec_udec(n as nat),
    decreases n,
{
    if n < 10 {
        String::from_str(digit_str(n))
    } else {
        let prefix = u64_to_string(n / 10);
        prefix.concat(digit_str(n % 10))
    }
}

/// Render a signed integer in decimal.
pub fn i64_to_string(n: i64) -> (r: String)
    ensures
        r@ =~= spec_dec(n as int),
{
    if n >= 0 {
        u64_to_string(n as u64)
    } else {
        let magnitude: u64 = if n == i64::MIN {
            9223372036854775808u64
        } else {
            (-n) as u64
        };
        let mut r = String::from_str("-");
        let digits = u64_to_string(magnitude);
        r.append(digits.as_str());
        proof {
            reveal_strlit("-");
        }
        r
    }
}

// ---------------------------------------------------------------------------
// Character search
// ---------------------------------------------------------------------------
/// Whether the character sequence contains the given character.
pub open spec fn spec_has_char(s: Seq<char>, c: char) -> bool {
    exists|i: int| 0 <= i < s.len() && s[i] == c
}

/// The index of the last occurrence of the character, if any.
fn find_last(s: &str, c: char) -> (r: Option<usize>)
    ensures
        match r {
            Some(i) => {
                &&& i < s@.len()
                &&& s@[i as int] == c
                &&& forall|j: int| i < j < s@.len() ==> s@[j] != c
            },
            None => !spec_has_char(s@, c),
        },
{
    let n = s.unicode_len();
    let mut i = n;
    while i > 0
        invariant
            i <= n,
            n == s@.len(),
            forall|j: int| i <= j < s@.len() ==> s@[j] != c,
        decreases i,
    {
        i = i - 1;
        if s.get_char(i) == c {
            return Some(i);
        }
    }
    None
}

// ---------------------------------------------------------------------------
// Suffix after / prefix before the last occurrence of a character
// ---------------------------------------------------------------------------
/// The suffix after the last occurrence of `c`; the whole sequence if `c`
/// does not occur.
pub open spec fn spec_after_last(s: Seq<char>, c: char) -> Seq<char>
    decreases s.len(),
{
    if s.len() == 0 {
        s
    } else if s.last() == c {
        Seq::empty()
    } else {
        spec_after_last(s.drop_last(), c).push(s.last())
    }
}

/// The prefix before the last occurrence of `c`; empty if `c` does not occur.
pub open spec fn spec_before_last(s: Seq<char>, c: char) -> Seq<char>
    decreases s.len(),
{
    if s.len() == 0 {
        s
    } else if s.last() == c {
        s.drop_last()
    } else {
        spec_before_last(s.drop_last(), c)
    }
}

proof fn lemma_after_last_at(s: Seq<char>, c: char, i: int)
    requires
        0 <= i < s.len(),
        s[i] == c,
        forall|j: int| i < j < s.len() ==> s[j] != c,
    ensures
        spec_after_last(s, c) =~= s.subrange(i + 1, s.len() as int),
    decreases s.len(),
{
    if i == s.len() - 1 {
        assert(s.last() == c);
    } else {
        assert(s.last() != c);
        let t = s.drop_last();
        lemma_after_last_at(t, c, i);
    }
}

proof fn lemma_after_last_absent(s: Seq<char>, c: char)
    requires
        !spec_has_char(s, c),
    ensures
        spec_after_last(s, c) =~= s,
    decreases s.len(),
{
    if s.len() > 0 {
        let t = s.drop_last();
        assert(!spec_has_char(t, c)) by {
            assert(forall|j: int| 0 <= j < t.len() ==> t[j] == s[j]);
        }
        lemma_after_last_absent(t, c);
    }
}

proof fn lemma_before_last_at(s: Seq<char>, c: char, i: int)
    requires
        0 <= i < s.len(),
        s[i] == c,
        forall|j: int| i < j < s.len() ==> s[j] != c,
    ensures
        spec_before_last(s, c) =~= s.subrange(0, i),
    decreases s.len(),
{
    if i == s.len() - 1 {
        assert(s.last() == c);
    } else {
        assert(s.last() != c);
        let t = s.drop_last();
        lemma_before_last_at(t, c, i);
    }
}

// ---------------------------------------------------------------------------
// Path-name helpers
// ---------------------------------------------------------------------------
/// The file-name component of a slash-separated path: everything after the
/// last slash, or the whole path when it has no slash.
pub open spec fn spec_file_name(path: Seq<char>) -> Seq<char> {
    spec_after_last(path, '/')
}

/// The stem of a file name: everything before the last dot, or the whole
/// name when it has no dot.
pub open spec fn spec_file_stem(name: Seq<char>) -> Seq<char> {
    if spec_has_char(name, '.') {
        spec_before_last(name, '.')
    } else {
        name
    }
}

/// Whether a file name carries the platform's dynamic-library extension.
pub open spec fn spec_is_dylib(name: Seq<char>) -> bool {
    spec_has_char(name, '.') && spec_after_last(name, '.') == "so"@
}

/// The file-name component of a slash-separated path.
pub fn file_name_of(path: &str) -> (r: String)
    ensures
        r@ =~= spec_file_name(path@),
{
    let n = path.unicode_len();
    match find_last(path, '/') {
        Some(i) => {
            let tail = path.substring_char(i + 1, n);
            proof {
                lemma_after_last_at(path@, '/', i as int);
            }
            String::from_str(tail)
        },
        None => {
            proof {
                lemma_after_last_absent(path@, '/');
            }
            String::from_str(path)
        },
    }
}

/// The stem of a file name (the part before the last dot).
pub fn file_stem_of(name: &str) -> (r: String)
    ensures
        r@ =~= spec_file_stem(name@),
{
    match find_last(name, '.') {
        Some(i) => {
            let head = name.substring_char(0, i);
            proof {
                lemma_before_last_at(name@, '.', i as int);
            }
            String::from_str(head)
        },
        None => String::from_str(name),
    }
}

/// Whether a file name carries the platform's dynamic-library extension.
pub fn is_dylib_file(name: &str) -> (r: bool)
    ensures
        r == spec_is_dylib(name@),
{
    let n = name.unicode_len();
    match find_last(name, '.') {
        Some(i) => {
            let ext = name.substring_char(i + 1, n);
            proof {
                lemma_after_last_at(name@, '.', i as int);
            }
            let ext_string = String::from_str(ext);
            let so = String::from_str("so");
            ext_string == so
        },
        None => false,
    }
}

/// Join a directory path and a file name with a slash.
pub fn path_join(dir: &str, name: &str) -> (r: String)
    ensures
        r@ =~= dir@ + seq!['/'] + name@,
{
    let mut r = String::from_str(dir);
    r.append("/");
    r.append(name);
    proof {
        reveal_strlit("/");
    }
    r
}

} // verus!
