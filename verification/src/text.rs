use vstd::prelude::*;
use vstd::string::*;

use crate::interop::{ascii_lower, ascii_lower_char, ascii_upper, ascii_upper_char, is_ascii};

verus! {

/// Unicode `White_Space`, as `char::is_whitespace` defines it.
pub open spec fn is_whitespace(c: char) -> bool {
    let v = c as u32;
    ||| v == 0x20
    ||| 0x09 <= v <= 0x0d
    ||| v == 0x85
    ||| v == 0xa0
    ||| v == 0x1680
    ||| 0x2000 <= v <= 0x200a
    ||| v == 0x2028
    ||| v == 0x2029
    ||| v == 0x202f
    ||| v == 0x205f
    ||| v == 0x3000
}

/// Index of the first non-whitespace char at or after `i` (or `s.len()`).
pub open spec fn first_non_ws_from(s: Seq<char>, i: int) -> int
    decreases s.len() - i,
{
    if i < 0 || i >= s.len() {
        s.len() as int
    } else if is_whitespace(s[i]) {
        first_non_ws_from(s, i + 1)
    } else {
        i
    }
}

/// One past the index of the last non-whitespace char before `j` (or 0).
pub open spec fn end_non_ws_before(s: Seq<char>, j: int) -> int
    decreases j,
{
    if j <= 0 || j > s.len() {
        0
    } else if is_whitespace(s[j - 1]) {
        end_non_ws_before(s, j - 1)
    } else {
        j
    }
}

/// `s` without leading and trailing whitespace, as `str::trim` gives it.
pub open spec fn trimmed(s: Seq<char>) -> Seq<char> {
    let a = first_non_ws_from(s, 0);
    let b = end_non_ws_before(s, s.len() as int);
    if a < b {
        s.subrange(a, b)
    } else {
        Seq::empty()
    }
}

proof fn lemma_first_non_ws(s: Seq<char>, i: int)
    requires
        0 <= i <= s.len(),
    ensures
        i <= first_non_ws_from(s, i) <= s.len(),
        first_non_ws_from(s, i) < s.len() ==> !is_whitespace(s[first_non_ws_from(s, i)]),
    decreases s.len() - i,
{
    if i < s.len() && is_whitespace(s[i]) {
        lemma_first_non_ws(s, i + 1);
    }
}

proof fn lemma_end_non_ws(s: Seq<char>, j: int)
    requires
        0 <= j <= s.len(),
    ensures
        0 <= end_non_ws_before(s, j) <= j,
        end_non_ws_before(s, j) > 0 ==> !is_whitespace(s[end_non_ws_before(s, j) - 1]),
    decreases j,
{
    if j > 0 && is_whitespace(s[j - 1]) {
        lemma_end_non_ws(s, j - 1);
    }
}

/// Text without whitespace at either end.
pub open spec fn is_trimmed(s: Seq<char>) -> bool {
    s.len() == 0 || (!is_whitespace(s[0]) && !is_whitespace(s[s.len() - 1]))
}

/// Trimming leaves text without whitespace at either end.
pub proof fn lemma_trimmed_is_trimmed(s: Seq<char>)
    ensures
        is_trimmed(trimmed(s)),
{
    lemma_first_non_ws(s, 0);
    lemma_end_non_ws(s, s.len() as int);
}

/// Text without whitespace at either end is its own trimmed form.
pub proof fn lemma_trim_keeps_trimmed(s: Seq<char>)
    requires
        is_trimmed(s),
    ensures
        trimmed(s) == s,
{
    if s.len() > 0 {
        assert(first_non_ws_from(s, 0) == 0);
        assert(end_non_ws_before(s, s.len() as int) == s.len());
        assert(s.subrange(0, s.len() as int) =~= s);
    } else {
        assert(trimmed(s) =~= s);
    }
}

/// Trimming twice is trimming once.
pub proof fn lemma_trim_idempotent(s: Seq<char>)
    ensures
        trimmed(trimmed(s)) == trimmed(s),
{
    lemma_trimmed_is_trimmed(s);
    lemma_trim_keeps_trimmed(trimmed(s));
}

/// The trimmed text keeps only chars of the text, so ASCII text trims to
/// ASCII text.
pub proof fn lemma_trimmed_ascii(s: Seq<char>)
    requires
        is_ascii(s),
    ensures
        is_ascii(trimmed(s)),
{
    lemma_first_non_ws(s, 0);
    lemma_end_non_ws(s, s.len() as int);
    let a = first_non_ws_from(s, 0);
    let b = end_non_ws_before(s, s.len() as int);
    if a < b {
        assert forall|i: int| 0 <= i < trimmed(s).len() implies (#[trigger] trimmed(s)[i] as u32) < 128 by {
            assert(trimmed(s)[i] == s[a + i]);
        }
    }
}

proof fn lemma_ascii_case_char(c: char)
    requires
        (c as u32) < 128,
    ensures
        (ascii_upper_char(c) as u32) < 128,
        (ascii_lower_char(c) as u32) < 128,
        ascii_upper_char(ascii_upper_char(c)) == ascii_upper_char(c),
        ascii_upper_char(ascii_lower_char(c)) == ascii_upper_char(c),
        is_whitespace(ascii_upper_char(c)) == is_whitespace(c),
{
    if 'a' <= c <= 'z' {
        assert((((c as u32) - 32) as char) as u32 == (c as u32) - 32);
    }
    if 'A' <= c <= 'Z' {
        assert((((c as u32) + 32) as char) as u32 == (c as u32) + 32);
    }
}

/// On ASCII text, uppercasing is idempotent, ignores a prior lowercasing,
/// keeps the text ASCII and keeps whitespace where it was.
pub proof fn lemma_ascii_case(s: Seq<char>)
    requires
        is_ascii(s),
    ensures
        is_ascii(ascii_upper(s)),
        is_ascii(ascii_lower(s)),
        ascii_upper(ascii_upper(s)) == ascii_upper(s),
        ascii_upper(ascii_lower(s)) == ascii_upper(s),
        forall|i: int| 0 <= i < s.len() ==> is_whitespace(#[trigger] ascii_upper(s)[i]) == is_whitespace(s[i]),
{
    assert forall|i: int| 0 <= i < s.len() implies {
        &&& (#[trigger] ascii_upper(s)[i] as u32) < 128
        &&& (ascii_lower(s)[i] as u32) < 128
        &&& ascii_upper(ascii_upper(s))[i] == ascii_upper(s)[i]
        &&& ascii_upper(ascii_lower(s))[i] == ascii_upper(s)[i]
        &&& is_whitespace(ascii_upper(s)[i]) == is_whitespace(s[i])
    } by {
        lemma_ascii_case_char(s[i]);
    }
    assert(ascii_upper(ascii_upper(s)) =~= ascii_upper(s));
    assert(ascii_upper(ascii_lower(s)) =~= ascii_upper(s));
    assert forall|i: int| 0 <= i < ascii_lower(s).len() implies (#[trigger] ascii_lower(s)[i] as u32) < 128 by {
        lemma_ascii_case_char(s[i]);
    }
}

pub fn is_whitespace_char(c: char) -> (r: bool)
    ensures
        r == is_whitespace(c),
{
    let v = c as u32;
    v == 0x20 || (0x09 <= v && v <= 0x0d) || v == 0x85 || v == 0xa0 || v == 0x1680 || (0x2000
        <= v && v <= 0x200a) || v == 0x2028 || v == 0x2029 || v == 0x202f || v == 0x205f || v
        == 0x3000
}

/// Removes leading and trailing whitespace.
pub fn trim(s: &str) -> (r: String)
    ensures
        r@ == trimmed(s@),
{
    let n = s.unicode_len();
    let mut a: usize = 0;
    while a < n && is_whitespace_char(s.get_char(a))
        invariant
            n == s@.len(),
            a <= n,
            first_non_ws_from(s@, a as int) == first_non_ws_from(s@, 0),
        decreases n - a,
    {
        a = a + 1;
    }
    let mut b: usize = n;
    while b > 0 && is_whitespace_char(s.get_char(b - 1))
        invariant
            n == s@.len(),
            b <= n,
            end_non_ws_before(s@, b as int) == end_non_ws_before(s@, n as int),
        decreases b,
    {
        b = b - 1;
    }
    assert(first_non_ws_from(s@, 0) == a);
    assert(end_non_ws_before(s@, n as int) == b);
    if a < b {
        let sub = s.substring_char(a, b);
        sub.to_string()
    } else {
        String::new()
    }
}

} // verus!

verus! {

/// Compares two strings char by char.
pub fn str_eq(a: &str, b: &str) -> (r: bool)
    ensures
        r == (a@ == b@),
{
    let n = a.unicode_len();
    let m = b.unicode_len();
    if n != m {
        return false;
    }
    let mut i: usize = 0;
    while i < n
        invariant
            n == a@.len(),
            m == b@.len(),
            n == m,
            i <= n,
            forall|j: int| 0 <= j < i ==> a@[j] == b@[j],
        decreases n - i,
    {
        if a.get_char(i) != b.get_char(i) {
            return false;
        }
        i = i + 1;
    }
    assert(a@ =~= b@);
    true
}

/// `char::is_ascii_alphanumeric`.
pub open spec fn is_ascii_alphanumeric(c: char) -> bool {
    ||| '0' <= c <= '9'
    ||| 'A' <= c <= 'Z'
    ||| 'a' <= c <= 'z'
}

pub fn is_ascii_alphanumeric_char(c: char) -> (r: bool)
    ensures
        r == is_ascii_alphanumeric(c),
{
    ('0' <= c && c <= '9') || ('A' <= c && c <= 'Z') || ('a' <= c && c <= 'z')
}

/// Whether every char of `s` is ASCII alphanumeric.
pub fn all_ascii_alphanumeric(s: &str) -> (r: bool)
    ensures
        r == (forall|j: int| 0 <= j < s@.len() ==> is_ascii_alphanumeric(#[trigger] s@[j])),
{
    let n = s.unicode_len();
    let mut i: usize = 0;
    while i < n
        invariant
            n == s@.len(),
            i <= n,
            forall|j: int| 0 <= j < i ==> is_ascii_alphanumeric(#[trigger] s@[j]),
        decreases n - i,
    {
        if !is_ascii_alphanumeric_char(s.get_char(i)) {
            return false;
        }
        i = i + 1;
    }
    true
}

/// `a` followed by `b`.
pub fn concat(a: &str, b: &str) -> (r: String)
    ensures
        r@ == a@ + b@,
{
    let s = a.to_string();
    s.concat(b)
}

} // verus!
