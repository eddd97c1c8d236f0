//! Hexadecimal text: the exact meaning of decoding, and encoding for the
//! fallback renderer.

use vstd::prelude::*;
use vstd::string::StringExecFns;

verus! {

/// A character that counts as a hexadecimal digit: `0-9`, `a-f`, `A-F`.
pub open spec fn is_hex_digit(c: char) -> bool {
    ('0' as u32 <= c as u32 && c as u32 <= '9' as u32)
    || ('a' as u32 <= c as u32 && c as u32 <= 'f' as u32)
    || ('A' as u32 <= c as u32 && c as u32 <= 'F' as u32)
}

/// The numeric value of a hexadecimal digit.
pub open spec fn hex_digit_value(c: char) -> int
    recommends
        is_hex_digit(c),
{
    if '0' as u32 <= c as u32 && c as u32 <= '9' as u32 {
        c as u32 - '0' as u32
    } else if 'a' as u32 <= c as u32 && c as u32 <= 'f' as u32 {
        c as u32 - 'a' as u32 + 10
    } else {
        c as u32 - 'A' as u32 + 10
    }
}

/// Valid hexadecimal text: an even number of characters, all of them digits.
pub open spec fn is_hex_text(s: Seq<char>) -> bool {
    s.len() % 2 == 0 && (forall|i: int| 0 <= i < s.len() ==> is_hex_digit(#[trigger] s[i]))
}

/// The bytes that valid hexadecimal text stands for: one byte per digit pair.
pub open spec fn hex_bytes_of(s: Seq<char>) -> Seq<u8>
    recommends
        is_hex_text(s),
    decreases s.len(),
{
    if s.len() < 2 {
        Seq::empty()
    } else {
        seq![(hex_digit_value(s[0]) * 16 + hex_digit_value(s[1])) as u8] + hex_bytes_of(s.skip(2))
    }
}

/// Relies on `hex::decode` (hex 0.4.3): it returns the decoded bytes exactly
/// when the input has an even number of characters, all hexadecimal digits
/// (either case), and fails otherwise.
#[verifier::external_body]
pub(crate) fn hex_decode(s: &str) -> (r: Option<Vec<u8>>)
    ensures
        (if is_hex_text(s@) {
            r matches Some(b) && b@ == hex_bytes_of(s@)
        } else {
            r is None
        }),
{
    match hex::decode(s) {
        Ok(b) => Some(b),
        Err(_) => None,
    }
}

/// The lower-case hexadecimal digit for a value below sixteen.
pub open spec fn hex_char_of(d: int) -> char
    recommends
        0 <= d < 16,
{
    if d == 0 { '0' } else if d == 1 { '1' } else if d == 2 { '2' } else if d == 3 { '3' }
    else if d == 4 { '4' } else if d == 5 { '5' } else if d == 6 { '6' } else if d == 7 { '7' }
    else if d == 8 { '8' } else if d == 9 { '9' } else if d == 10 { 'a' } else if d == 11 { 'b' }
    else if d == 12 { 'c' } else if d == 13 { 'd' } else if d == 14 { 'e' } else { 'f' }
}

/// The lower-case hexadecimal rendering of a byte string, two digits a byte.
pub open spec fn hex_text_of(b: Seq<u8>) -> Seq<char>
    decreases b.len(),
{
    if b.len() == 0 {
        Seq::empty()
    } else {
        seq![hex_char_of((b[0] / 16) as int), hex_char_of((b[0] % 16) as int)] + hex_text_of(b.drop_first())
    }
}

/// The hexadecimal rendering drops no byte: every byte stands as exactly
/// two digits.
pub proof fn lemma_hex_text_len(b: Seq<u8>)
    ensures
        hex_text_of(b).len() == 2 * b.len(),
    decreases b.len(),
{
    if b.len() > 0 {
        lemma_hex_text_len(b.drop_first());
    }
}

/// The one-character string holding the digit for a value below sixteen.
pub(crate) fn hex_digit_str(d: u8) -> (r: &'static str)
    requires
        d < 16,
    ensures
        r@ == seq![hex_char_of(d as int)],
{
    proof {
        reveal_strlit("0"); reveal_strlit("1"); reveal_strlit("2"); reveal_strlit("3");
        reveal_strlit("4"); reveal_strlit("5"); reveal_strlit("6"); reveal_strlit("7");
        reveal_strlit("8"); reveal_strlit("9"); reveal_strlit("a"); reveal_strlit("b");
        reveal_strlit("c"); reveal_strlit("d"); reveal_strlit("e"); reveal_strlit("f");
    }
    let r: &'static str = match d {
        0 => "0", 1 => "1", 2 => "2", 3 => "3",
        4 => "4", 5 => "5", 6 => "6", 7 => "7",
        8 => "8", 9 => "9", 10 => "a", 11 => "b",
        12 => "c", 13 => "d", 14 => "e", _ => "f",
    };
    proof {
        assert(r@ =~= seq![hex_char_of(d as int)]);
    }
    r
}

/// Appends to `s` the hexadecimal rendering of `b[i..]`.
fn push_hex_from(s: &mut String, b: &Vec<u8>, i: usize)
    requires
        i <= b.len(),
    ensures
        final(s)@ == old(s)@ + hex_text_of(b@.skip(i as int)),
    decreases b.len() - i,
{
    if i < b.len() {
        let x = b[i];
        s.append(hex_digit_str(x / 16));
        s.append(hex_digit_str(x % 16));
        push_hex_from(s, b, i + 1);
        proof {
            assert(b@.skip(i as int).drop_first() =~= b@.skip(i as int + 1));
            assert(b@.skip(i as int)[0] == b@[i as int]);
            assert(s@ =~= old(s)@ + hex_text_of(b@.skip(i as int)));
        }
    } else {
        proof {
            assert(b@.skip(i as int) =~= Seq::<u8>::empty());
            assert(s@ =~= old(s)@ + hex_text_of(b@.skip(i as int)));
        }
    }
}

/// The lower-case hexadecimal rendering of a byte string.
pub fn hex_encode_bytes(b: &Vec<u8>) -> (r: String)
    ensures
        r@ == hex_text_of(b@),
{
    let mut s = String::new();
    push_hex_from(&mut s, b, 0);
    proof {
        assert(b@.skip(0) =~= b@);
        assert(s@ =~= hex_text_of(b@));
    }
    s
}

} // verus!
