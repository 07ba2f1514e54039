//! Strings: byte-indexed and character-indexed views of UTF-8 text, and
//! decoding byte vectors into strings.

use vstd::prelude::*;
use vstd::utf8::decode_utf8;
use vstd::utf8::is_leading_byte_width_1;
use vstd::utf8::length_of_first_scalar;
use vstd::utf8::pop_first_scalar;
use vstd::utf8::valid_first_scalar;
use vstd::utf8::valid_utf8;

verus! {

/// Relies on utf8_slice::slice: for character indices `begin <= end` within
/// the string, it returns exactly the characters `begin..end`.
pub assume_specification[ utf8_slice::slice ](s: &str, begin: usize, end: usize) -> (r: &str)
    requires
        begin <= end <= s@.len(),
    ensures
        r@ == s@.subrange(begin as int, end as int),
;

/// Indexing an ASCII string: each character occupies one byte, so byte
/// positions and character positions coincide.
pub fn string_index() {
    let s1 = String::from_str("hi, #$");
    proof {
        reveal_strlit("hi, #$");
        reveal_strlit("h");
        reveal_strlit("#$");
    }
    assert(s1.is_ascii());

    let h = s1.as_str().substring_ascii(0, 1);
    assert(h@ =~= "h"@);

    let h1 = s1.as_str().substring_ascii(4, 6);
    assert(h1@ =~= "#$"@);
}

/// Indexing past the ASCII range: a character position addresses one
/// character whatever the width of its byte encoding.
pub fn exercise_3() {
    let s = String::from_str("hello, ぁまピ");
    proof {
        reveal_strlit("hello, ぁまピ");
        reveal_strlit("h");
        reveal_strlit("ぁ");
    }

    let slice1 = s.as_str().substring_char(0, 1);
    assert(slice1@ =~= "h"@);

    let slice2 = s.as_str().substring_char(7, 8);
    assert(slice2@ =~= "ぁ"@);

    let c = s.as_str().get_char(7);
    assert(c == 'ぁ');
}

/// Slicing by character index through the outside helper: the rocket is the
/// fifth character, however many bytes it occupies.
pub fn example_4() -> (r: &'static str)
    ensures
        r@ == "🚀"@,
{
    let s = "The 🚀 goes to the 🌘";
    proof {
        reveal_strlit("The 🚀 goes to the 🌘");
        reveal_strlit("🚀");
    }

    let uft8_slice = utf8_slice::slice(s, 4, 5);
    assert(uft8_slice@ =~= "🚀"@);
    uft8_slice
}

/// Relies on String::from_utf8: it succeeds exactly on valid UTF-8 input,
/// and the returned string holds the decoded characters.
#[verifier::external_body]
fn string_from_utf8(v: Vec<u8>) -> (r: Option<String>)
    ensures
        r is Some <==> valid_utf8(v@),
        r matches Some(s) ==> s@ == decode_utf8(v@),
{
    match String::from_utf8(v) {
        Ok(s) => Some(s),
        Err(_) => None,
    }
}

/// ASCII bytes are always valid UTF-8, and each byte decodes to the
/// character with the same code.
pub proof fn lemma_ascii_utf8(bytes: Seq<u8>)
    requires
        forall|i: int| 0 <= i < bytes.len() ==> bytes[i] < 128,
    ensures
        valid_utf8(bytes),
        decode_utf8(bytes) =~= bytes.map_values(|b: u8| b as char),
    decreases bytes.len(),
{
    if bytes.len() != 0 {
        let b0 = bytes[0];
        assert(is_leading_byte_width_1(b0));
        assert(b0 & 0x7F == b0) by (bit_vector)
            requires
                b0 < 128,
        ;
        assert(valid_first_scalar(bytes));
        assert(length_of_first_scalar(bytes) == 1);
        let rest = bytes.subrange(1, bytes.len() as int);
        assert(pop_first_scalar(bytes) =~= rest);
        lemma_ascii_utf8(rest);
        assert(decode_utf8(bytes) =~= bytes.map_values(|b: u8| b as char));
    }
}

/// Turns a vector of ASCII bytes into the string they spell; bytes outside
/// the ASCII range are rejected before decoding.
pub fn ascii_bytes_to_string(v: Vec<u8>) -> (r: Option<String>)
    ensures
        r is Some <==> (forall|i: int| 0 <= i < v@.len() ==> v@[i] < 128),
        r matches Some(s) ==> s@ == v@.map_values(|b: u8| b as char),
{
    let mut k: usize = 0;
    while k < v.len()
        invariant
            k <= v@.len(),
            forall|i: int| 0 <= i < k ==> v@[i] < 128,
        decreases v@.len() - k,
    {
        if v[k] >= 128 {
            return None;
        }
        k = k + 1;
    }

    proof {
        lemma_ascii_utf8(v@);
    }
    let s = string_from_utf8(v);
    s
}

/// Decodes the byte spelling of a greeting and checks every character.
pub fn exercise_4() {
    let mut v: Vec<u8> = Vec::new();
    v.push(104);
    v.push(101);
    v.push(108);
    v.push(108);
    v.push(111);

    let s1 = ascii_bytes_to_string(v);
    proof {
        reveal_strlit("hello");
    }
    assert(s1 matches Some(s) && s@ =~= "hello"@);
}

} // verus!
