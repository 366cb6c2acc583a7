//! The JSON that the broker answers with.

use vstd::prelude::*;
use vstd::string::*;
use vstd::utf8::*;

verus! {

/// `serde_json::Error`, which is only carried.
#[verifier::external_type_specification]
#[verifier::external_body]
pub struct ExJsonError(serde_json::Error);

/// The lower-case hexadecimal digit for a number below sixteen.
pub open spec fn hex_digit(n: int) -> char {
    if n < 10 {
        ('0' as int + n) as char
    } else {
        ('a' as int + n - 10) as char
    }
}

/// How a character stands inside a JSON string.
pub open spec fn escape(c: char) -> Seq<char> {
    if c == '"' || c == '\\' {
        seq!['\\', c]
    } else if c == '\u{8}' {
        seq!['\\', 'b']
    } else if c == '\t' {
        seq!['\\', 't']
    } else if c == '\n' {
        seq!['\\', 'n']
    } else if c == '\u{c}' {
        seq!['\\', 'f']
    } else if c == '\r' {
        seq!['\\', 'r']
    } else if 0x20 > c as int {
        seq!['\\', 'u', '0', '0', hex_digit(c as int / 16), hex_digit(c as int % 16)]
    } else {
        seq![c]
    }
}

/// How a text stands inside a JSON string.
pub open spec fn escaped(s: Seq<char>) -> Seq<char>
    decreases s.len(),
{
    if s.len() == 0 {
        Seq::empty()
    } else {
        escape(s[0]) + escaped(s.drop_first())
    }
}

/// The JSON string for a text.
pub open spec fn json_string(s: Seq<char>) -> Seq<char> {
    seq!['"'] + escaped(s) + seq!['"']
}

/// The JSON object with one member, whose value is a string.
pub open spec fn json_object(key: Seq<char>, value: Seq<char>) -> Seq<char> {
    seq!['{'] + json_string(key) + seq![':'] + json_string(value) + seq!['}']
}

/// Calls `serde_json::to_vec` on the object with one member whose value is a string. It
/// succeeds, as such a value has no key that is not a string, and gives the compact JSON text in
/// UTF-8, with only quotes, backslashes and control characters escaped.
#[verifier::external_body]
pub(crate) fn object_to_vec(key: &str, value: &str) -> (r: Result<Vec<u8>, serde_json::Error>)
    ensures
        match r {
            Ok(bytes) => bytes@ == encode_utf8(json_object(key@, value@)),
            Err(_) => false,
        },
{
    let mut members = serde_json::Map::new();
    members.insert(key.to_string(), serde_json::Value::String(value.to_string()));
    serde_json::to_vec(&serde_json::Value::Object(members))
}

/// No character's escape begins another's.
proof fn lemma_escapes_differ(a: char, b: char, x: Seq<char>, y: Seq<char>)
    requires
        escape(a) + x == escape(b) + y,
    ensures
        a == b,
        x == y,
{
    let p = escape(a) + x;
    let q = escape(b) + y;
    assert(p.len() == q.len());
    assert(p[0] == escape(a)[0] && q[0] == escape(b)[0]);
    if escape(a).len() > 1 && escape(b).len() > 1 {
        assert(p[1] == escape(a)[1] && q[1] == escape(b)[1]);
        if escape(a).len() > 2 && escape(b).len() > 2 {
            assert(p[4] == escape(a)[4] && q[4] == escape(b)[4]);
            assert(p[5] == escape(a)[5] && q[5] == escape(b)[5]);
            lemma_hex_digits_differ(a as int / 16, b as int / 16);
            lemma_hex_digits_differ(a as int % 16, b as int % 16);
            assert(a as int == b as int);
        }
    }
    assert(a == b);
    assert(x =~= p.skip(escape(a).len() as int));
    assert(y =~= q.skip(escape(b).len() as int));
}

proof fn lemma_hex_digits_differ(m: int, n: int)
    requires
        0 <= m < 16,
        0 <= n < 16,
        hex_digit(m) == hex_digit(n),
    ensures
        m == n,
{
    assert(hex_digit(m) as int == if m < 10 {
        '0' as int + m
    } else {
        'a' as int + m - 10
    });
    assert(hex_digit(n) as int == if n < 10 {
        '0' as int + n
    } else {
        'a' as int + n - 10
    });
}

/// Texts that stand alike inside a JSON string are the same text.
pub proof fn law_escaped_determines_text(a: Seq<char>, b: Seq<char>)
    requires
        escaped(a) == escaped(b),
    ensures
        a == b,
    decreases a.len(),
{
    if a.len() == 0 && b.len() == 0 {
        assert(a =~= b);
    } else if a.len() == 0 {
        assert(escape(b[0]).len() > 0);
        assert(escaped(b).len() > 0);
    } else if b.len() == 0 {
        assert(escape(a[0]).len() > 0);
        assert(escaped(a).len() > 0);
    } else {
        lemma_escapes_differ(a[0], b[0], escaped(a.drop_first()), escaped(b.drop_first()));
        law_escaped_determines_text(a.drop_first(), b.drop_first());
        assert(a =~= seq![a[0]] + a.drop_first());
        assert(b =~= seq![b[0]] + b.drop_first());
    }
}

/// The bytes of an object with a given key determine its value.
pub proof fn law_object_determines_value(key: Seq<char>, a: Seq<char>, b: Seq<char>)
    requires
        encode_utf8(json_object(key, a)) == encode_utf8(json_object(key, b)),
    ensures
        a == b,
{
    encode_utf8_decode_utf8(json_object(key, a));
    encode_utf8_decode_utf8(json_object(key, b));
    let head = seq!['{'] + json_string(key) + seq![':'] + seq!['"'];
    let tail = seq!['"'] + seq!['}'];
    let x = json_object(key, a);
    let y = json_object(key, b);
    assert(x =~= head + escaped(a) + tail);
    assert(y =~= head + escaped(b) + tail);
    assert(escaped(a) =~= x.subrange(head.len() as int, x.len() - 2));
    assert(escaped(b) =~= y.subrange(head.len() as int, y.len() - 2));
    law_escaped_determines_text(a, b);
}

/// A character stands for itself inside a JSON string, unless it is a quote, a backslash or one of
/// the thirty-two control characters.
pub proof fn law_plain_characters_stand_for_themselves(c: char)
    ensures
        escape(c) == seq![c] <==> c as int >= 32 && c != '"' && c != '\\',
        escape(c) != seq![c] ==> escape(c).len() > 1 && escape(c)[0] == '\\',
{
    assert(escape(c).len() == 1 || escape(c).len() == 2 || escape(c).len() == 6);
}

/// A text of plain characters stands for itself inside a JSON string, however long it is.
pub proof fn law_plain_text_stands_for_itself(s: Seq<char>)
    requires
        forall|i: int|
            0 <= i < s.len() ==> (#[trigger] s[i]) as int >= 32 && s[i] != '"' && s[i] != '\\',
    ensures
        escaped(s) == s,
    decreases s.len(),
{
    if s.len() > 0 {
        let rest = s.drop_first();
        assert forall|i: int| 0 <= i < rest.len() implies (#[trigger] rest[i]) as int >= 32
            && rest[i] != '"' && rest[i] != '\\' by {
            assert(rest[i] == s[i + 1]);
        }
        law_plain_text_stands_for_itself(rest);
        assert(s[0] as int >= 32);
        law_plain_characters_stand_for_themselves(s[0]);
        assert(escaped(s) =~= s);
    } else {
        assert(escaped(s) =~= s);
    }
}

/// Escaping goes character by character: what stands for a text is what stands for its parts.
pub proof fn law_escaping_joins(a: Seq<char>, b: Seq<char>)
    ensures
        escaped(a + b) == escaped(a) + escaped(b),
    decreases a.len(),
{
    if a.len() == 0 {
        assert(a + b =~= b);
        assert(escaped(a) + escaped(b) =~= escaped(b));
    } else {
        law_escaping_joins(a.drop_first(), b);
        assert((a + b)[0] == a[0]);
        assert((a + b).drop_first() =~= a.drop_first() + b);
        assert(escaped(a + b) =~= escaped(a) + escaped(b));
    }
}

/// An object with one member is its key and its value between quotes, with a colon between them,
/// inside braces.
pub proof fn law_object_notation(key: Seq<char>, value: Seq<char>)
    ensures
        json_object(key, value) == "{\""@ + escaped(key) + "\":\""@ + escaped(value) + "\"}"@,
{
    reveal_strlit("{\"");
    reveal_strlit("\":\"");
    reveal_strlit("\"}");
    assert(json_object(key, value) =~= "{\""@ + escaped(key) + "\":\""@ + escaped(value) + "\"}"@);
}

/// How the other characters stand inside a JSON string: a backslash before a quote or a backslash,
/// five letters for five control characters, and four hexadecimal digits for the rest of them.
pub proof fn law_escapes(c: char)
    ensures
        c == '"' ==> escape(c) == seq!['\\', '"'],
        c == '\\' ==> escape(c) == seq!['\\', '\\'],
        c as int == 8 ==> escape(c) == seq!['\\', 'b'],
        c as int == 9 ==> escape(c) == seq!['\\', 't'],
        c as int == 10 ==> escape(c) == seq!['\\', 'n'],
        c as int == 12 ==> escape(c) == seq!['\\', 'f'],
        c as int == 13 ==> escape(c) == seq!['\\', 'r'],
        (0 <= c as int <= 7 || c as int == 11 || 14 <= c as int <= 31) ==> {
            &&& escape(c).len() == 6
            &&& escape(c)[0] == '\\' && escape(c)[1] == 'u' && escape(c)[2] == '0'
            &&& escape(c)[3] == '0'
            &&& escape(c)[4] == if c as int >= 16 {
                '1'
            } else {
                '0'
            }
            &&& escape(c)[5] as int == if c as int % 16 < 10 {
                48 + c as int % 16
            } else {
                87 + c as int % 16
            }
        },
{
}

} // verus!
