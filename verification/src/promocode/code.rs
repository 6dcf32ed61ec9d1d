use vstd::prelude::*;
use vstd::string::*;
use vstd::utf8::encode_utf8;

use crate::interop::{ascii_upper, is_ascii, push_char, random_index, uppercased, to_uppercase};
use crate::text::{
    all_ascii_alphanumeric, is_ascii_alphanumeric, is_whitespace, lemma_ascii_case, lemma_trim_keeps_trimmed,
    lemma_trimmed_ascii, lemma_trimmed_is_trimmed, trim, trimmed,
};

verus! {

/// Chars that generated codes are drawn from: uppercase letters and digits
/// without the easily confused `I`, `O`, `0` and `1`.
pub const CODE_CHARSET: [char; 32] = [
    'A', 'B', 'C', 'D', 'E', 'F', 'G', 'H', 'J', 'K', 'L', 'M', 'N', 'P', 'Q', 'R',
    'S', 'T', 'U', 'V', 'W', 'X', 'Y', 'Z', '2', '3', '4', '5', '6', '7', '8', '9',
];

/// Length of a generated code, in chars.
pub const GENERATED_CODE_LEN: usize = 5;

/// Longest code text, in bytes, that a lookup accepts.
pub const MAX_LOOKUP_CODE_BYTES: usize = 16;

/// `c` is one of the chars of `CODE_CHARSET`.
pub open spec fn is_code_char(c: char) -> bool {
    ||| 'A' <= c <= 'H'
    ||| 'J' <= c <= 'N'
    ||| 'P' <= c <= 'Z'
    ||| '2' <= c <= '9'
}

/// A generated code: five chars of the code charset.
pub open spec fn is_generated_code(s: Seq<char>) -> bool {
    &&& s.len() == GENERATED_CODE_LEN
    &&& forall|i: int| 0 <= i < s.len() ==> is_code_char(#[trigger] s[i])
}

proof fn lemma_charset_chars(i: int)
    requires
        0 <= i < 32,
    ensures
        is_code_char(CODE_CHARSET@[i]),
{
    assert(CODE_CHARSET@ =~= seq![
        'A', 'B', 'C', 'D', 'E', 'F', 'G', 'H', 'J', 'K', 'L', 'M', 'N', 'P', 'Q', 'R',
        'S', 'T', 'U', 'V', 'W', 'X', 'Y', 'Z', '2', '3', '4', '5', '6', '7', '8', '9',
    ]);
}

/// Every char of a generated code is an uppercase ASCII letter or a digit.
pub proof fn lemma_generated_code_is_uppercase_alphanumeric(s: Seq<char>)
    requires
        is_generated_code(s),
    ensures
        forall|i: int|
            0 <= i < s.len() ==> is_ascii_alphanumeric(#[trigger] s[i]) && !('a' <= s[i] <= 'z'),
{
}

/// Draws a random five-char code from `CODE_CHARSET`.
pub fn generate_5char_code() -> (r: String)
    ensures
        is_generated_code(r@),
{
    let mut s = String::new();
    let mut k: usize = 0;
    while k < GENERATED_CODE_LEN
        invariant
            k <= GENERATED_CODE_LEN,
            s@.len() == k,
            forall|i: int| 0 <= i < k ==> is_code_char(#[trigger] s@[i]),
        decreases GENERATED_CODE_LEN - k,
    {
        let idx = random_index(32);
        let c = CODE_CHARSET[idx];
        proof {
            lemma_charset_chars(idx as int);
        }
        push_char(&mut s, c);
        k = k + 1;
    }
    s
}

/// The canonical form of a code that a user typed: trimmed, then uppercased.
pub open spec fn normalized_code(raw: Seq<char>) -> Seq<char> {
    uppercased(trimmed(raw))
}

/// Normalizing a typed (ASCII) code twice is normalizing it once. The
/// redemption and the lookup see a code only through its normalized form,
/// so a raw code and its normalized form are treated alike.
pub proof fn lemma_normalized_code_idempotent(raw: Seq<char>)
    requires
        is_ascii(raw),
    ensures
        normalized_code(normalized_code(raw)) == normalized_code(raw),
{
    let t = trimmed(raw);
    lemma_trimmed_ascii(raw);
    lemma_trimmed_is_trimmed(raw);
    lemma_ascii_case(t);
    let u = ascii_upper(t);
    assert(normalized_code(raw) == u);
    if u.len() > 0 {
        assert(is_whitespace(u[0]) == is_whitespace(t[0]));
        assert(is_whitespace(u[u.len() - 1]) == is_whitespace(t[t.len() - 1]));
    }
    lemma_trim_keeps_trimmed(u);
    lemma_ascii_case(u);
}

pub fn normalize_code(raw: &str) -> (r: String)
    ensures
        r@ == normalized_code(raw@),
{
    let t = trim(raw);
    to_uppercase(t.as_str())
}

/// `str::len` of a string with chars `s`: the length of its UTF-8 encoding.
pub open spec fn byte_len(s: Seq<char>) -> usize {
    encode_utf8(s).len() as usize
}

/// A code that can be redeemed has exactly five bytes, all ASCII letters or
/// digits.
pub open spec fn is_redeemable_format(code: Seq<char>) -> bool {
    &&& byte_len(code) == 5
    &&& forall|i: int| 0 <= i < code.len() ==> is_ascii_alphanumeric(#[trigger] code[i])
}

pub fn check_redeemable_format(code: &str) -> (r: bool)
    ensures
        r == is_redeemable_format(code@),
{
    code.len() == 5 && all_ascii_alphanumeric(code)
}

/// A code that can be looked up is non-empty and at most 16 bytes long.
pub open spec fn is_lookup_format(code: Seq<char>) -> bool {
    &&& code.len() > 0
    &&& byte_len(code) <= MAX_LOOKUP_CODE_BYTES
}

pub fn check_lookup_format(code: &str) -> (r: bool)
    ensures
        r == is_lookup_format(code@),
{
    !(code.is_empty() || code.len() > MAX_LOOKUP_CODE_BYTES)
}

} // verus!
