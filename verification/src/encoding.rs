//! Bytes, and strings out of bytes by way of the standard library.

use vstd::prelude::*;
use vstd::string::*;
use vstd::utf8::*;

verus! {

/// The text that `String::from_utf8_lossy` makes of arbitrary bytes.
pub uninterp spec fn utf8_lossy(bytes: Seq<u8>) -> Seq<char>;

/// Calls `String::from_utf8`. It succeeds exactly on valid UTF-8, and the string it gives is
/// what the bytes encode.
#[verifier::external_body]
pub(crate) fn string_from_utf8(bytes: Vec<u8>) -> (r: Option<String>)
    ensures
        match r {
            Some(s) => valid_utf8(bytes@) && s@ == decode_utf8(bytes@),
            None => !valid_utf8(bytes@),
        },
{
    String::from_utf8(bytes).ok()
}

/// Calls `String::from_utf8_lossy`. Its result is a function of the bytes, and on valid UTF-8
/// it is what they encode. How it replaces invalid sequences is left unsaid.
#[verifier::external_body]
pub(crate) fn string_from_utf8_lossy(bytes: &Vec<u8>) -> (s: String)
    ensures
        s@ == utf8_lossy(bytes@),
        valid_utf8(bytes@) ==> s@ == decode_utf8(bytes@),
{
    String::from_utf8_lossy(bytes).into_owned()
}

/// Whether `bytes` begins with `prefix`.
pub fn bytes_start_with(bytes: &Vec<u8>, prefix: &Vec<u8>) -> (yes: bool)
    ensures
        yes == prefix@.is_prefix_of(bytes@),
{
    if bytes.len() < prefix.len() {
        return false;
    }
    let mut i: usize = 0;
    while i < prefix.len()
        invariant
            i <= prefix.len() <= bytes.len(),
            forall|j: int| 0 <= j < i ==> bytes@[j] == prefix@[j],
        decreases prefix.len() - i,
    {
        if bytes[i] != prefix[i] {
            assert(bytes@.subrange(0, prefix.len() as int)[i as int] == bytes@[i as int]);
            return false;
        }
        i += 1;
    }
    assert(prefix@ =~= bytes@.subrange(0, prefix.len() as int));
    true
}

/// Whether the bytes are the same.
pub fn same_bytes(a: &Vec<u8>, b: &Vec<u8>) -> (yes: bool)
    ensures
        yes == (a@ == b@),
{
    if a.len() != b.len() {
        return false;
    }
    let yes = bytes_start_with(a, b);
    assert(yes ==> a@ =~= b@);
    yes
}

/// The bytes of two texts, one after the other, are the bytes of the two in a row.
pub proof fn lemma_encode_join(a: Seq<char>, b: Seq<char>)
    ensures
        encode_utf8(a + b) == encode_utf8(a) + encode_utf8(b),
    decreases a.len(),
{
    if a.len() == 0 {
        assert(a + b =~= b);
        assert(encode_utf8(a) =~= Seq::<u8>::empty());
        assert(encode_utf8(a) + encode_utf8(b) =~= encode_utf8(b));
    } else {
        lemma_encode_join(a.drop_first(), b);
        assert((a + b).drop_first() =~= a.drop_first() + b);
        assert((a + b)[0] == a[0]);
        assert(encode_utf8(a + b) =~= encode_utf8(a) + encode_utf8(b));
    }
}

/// The bytes of a single character.
proof fn lemma_encode_one(c: char)
    ensures
        encode_utf8(seq![c]) == encode_scalar(c as u32),
{
    let s = seq![c];
    assert(s.drop_first() =~= Seq::<char>::empty());
    reveal_with_fuel(encode_utf8, 2);
    assert(encode_utf8(s) =~= encode_scalar(c as u32));
}

/// The last byte of a character is below 128 only if the character is that byte.
proof fn lemma_last_byte_of_character(c: char)
    ensures
        encode_utf8(seq![c]).len() > 0,
        128 > encode_utf8(seq![c]).last() ==> encode_utf8(seq![c]).last() == c as u32,
        128 > c as u32 ==> encode_utf8(seq![c]) == seq![c as u8],
        (encode_utf8(seq![c]).last() == 13 || encode_utf8(seq![c]).last() == 10) <==> (c == '\r'
            || c == '\n'),
{
    lemma_encode_one(c);
    char_is_scalar(c);
    let n = c as u32;
    assert(last_continuation_byte(n) >= 128) by {
        let byte = last_continuation_byte(n);
        assert((0x80u8 | (n & 0x3F) as u8) >= 128) by (bit_vector);
    }
    if has_width_1_encoding(n) {
        assert(leading_byte_width_1(n) == n as u8) by {
            assert((n & 0x7F) as u8 == n as u8) by (bit_vector)
                requires
                    n <= 0x7F,
            ;
        }
        assert(n as u8 == c as u8);
    }
}

/// A text ends with a carriage return or a line feed exactly when its bytes do.
pub proof fn lemma_last_byte(s: Seq<char>)
    requires
        s.len() > 0,
    ensures
        encode_utf8(s).len() > 0,
        (encode_utf8(s).last() == 13 || encode_utf8(s).last() == 10) <==> (s.last() == '\r'
            || s.last() == '\n'),
{
    let c = s.last();
    assert(s =~= s.drop_last() + seq![c]);
    lemma_encode_join(s.drop_last(), seq![c]);
    lemma_last_byte_of_character(c);
    assert(encode_utf8(s).last() == encode_utf8(seq![c]).last());
}

/// The bytes of carriage returns and line feeds are these.
pub proof fn lemma_line_end_bytes(s: Seq<char>)
    requires
        forall|i: int| 0 <= i < s.len() ==> (#[trigger] s[i] == '\r' || s[i] == '\n'),
    ensures
        encode_utf8(s).len() == s.len(),
        forall|i: int| 0 <= i < s.len() ==> (#[trigger] encode_utf8(s)[i] == 13 || encode_utf8(s)[i]
            == 10),
{
    assert(is_ascii_chars(s));
    is_ascii_chars_encode_utf8(s);
    assert forall|i: int| 0 <= i < s.len() implies (#[trigger] encode_utf8(s)[i] == 13
        || encode_utf8(s)[i] == 10) by {
        assert(s[i] == '\r' || s[i] == '\n');
    }
}

} // verus!
