//! Character-level operations on strings, with their mathematical meaning over `Seq<char>`.

use vstd::prelude::*;
use vstd::string::*;

verus! {

/// The characters with the Unicode `White_Space` property.
pub open spec fn white_space(c: char) -> bool {
    ||| '\u{9}' <= c <= '\u{d}'
    ||| c == '\u{20}'
    ||| c == '\u{85}'
    ||| c == '\u{a0}'
    ||| c == '\u{1680}'
    ||| '\u{2000}' <= c <= '\u{200a}'
    ||| c == '\u{2028}'
    ||| c == '\u{2029}'
    ||| c == '\u{202f}'
    ||| c == '\u{205f}'
    ||| c == '\u{3000}'
}

/// The characters that end a line.
pub open spec fn line_ending(c: char) -> bool {
    c == '\r' || c == '\n'
}

/// `white_space` as a predicate to trim by.
pub open spec fn blank() -> spec_fn(char) -> bool {
    |c: char| white_space(c)
}

/// `line_ending` as a predicate to trim by.
pub open spec fn newline() -> spec_fn(char) -> bool {
    |c: char| line_ending(c)
}

/// `s` without its leading characters that satisfy `drop`.
pub open spec fn trim_start_by(s: Seq<char>, drop: spec_fn(char) -> bool) -> Seq<char>
    decreases s.len(),
{
    if s.len() > 0 && drop(s[0]) {
        trim_start_by(s.drop_first(), drop)
    } else {
        s
    }
}

/// `s` without its trailing characters that satisfy `drop`.
pub open spec fn trim_end_by(s: Seq<char>, drop: spec_fn(char) -> bool) -> Seq<char>
    decreases s.len(),
{
    if s.len() > 0 && drop(s.last()) {
        trim_end_by(s.drop_last(), drop)
    } else {
        s
    }
}

/// `s` without the white space at its two ends.
pub open spec fn trimmed(s: Seq<char>) -> Seq<char> {
    trim_end_by(trim_start_by(s, blank()), blank())
}

/// `s` without the line endings at its end.
pub open spec fn without_line_end(s: Seq<char>) -> Seq<char> {
    trim_end_by(s, newline())
}

/// `c`, with the letters `A` to `Z` replaced by `a` to `z`.
pub open spec fn lower(c: char) -> char {
    if 'A' <= c <= 'Z' {
        (c as u8 + 32) as char
    } else {
        c
    }
}

/// Every character of `s` in its `lower` form.
pub open spec fn lowered(s: Seq<char>) -> Seq<char> {
    s.map_values(|c: char| lower(c))
}

/// `part` stands in `s` from index `i` on.
pub open spec fn occurs_at(s: Seq<char>, part: Seq<char>, i: int) -> bool {
    0 <= i && i + part.len() <= s.len() && s.subrange(i, i + part.len()) == part
}

/// `part` stands somewhere in `s`.
pub open spec fn occurs_in(s: Seq<char>, part: Seq<char>) -> bool {
    exists|i: int| occurs_at(s, part, i)
}

/// The index of the first `c` in `s`, or the length of `s` when there is none.
pub open spec fn position(s: Seq<char>, c: char) -> int
    decreases s.len(),
{
    if s.len() == 0 || s[0] == c {
        0
    } else {
        1 + position(s.drop_first(), c)
    }
}

/// The part of `s` before its first `c`: all of `s` when there is none.
pub open spec fn before(s: Seq<char>, c: char) -> Seq<char> {
    s.subrange(0, position(s, c))
}

/// The part of `s` after its first `c`: empty when there is none.
pub open spec fn after(s: Seq<char>, c: char) -> Seq<char> {
    if position(s, c) < s.len() {
        s.subrange(position(s, c) + 1, s.len() as int)
    } else {
        Seq::empty()
    }
}

/// `position` is where the first `c` stands.
pub proof fn lemma_position(s: Seq<char>, c: char)
    ensures
        0 <= position(s, c) <= s.len(),
        position(s, c) < s.len() ==> s[position(s, c)] == c,
        forall|i: int| 0 <= i < position(s, c) ==> s[i] != c,
    decreases s.len(),
{
    if s.len() > 0 && s[0] != c {
        lemma_position(s.drop_first(), c);
        assert forall|i: int| 0 <= i < position(s, c) implies s[i] != c by {
            if i > 0 {
                assert(s[i] == s.drop_first()[i - 1]);
            }
        }
    }
}

/// An index with `c` on it and no `c` before it is the `position` of `c`.
pub proof fn lemma_position_unique(s: Seq<char>, c: char, i: int)
    requires
        0 <= i <= s.len(),
        i < s.len() ==> s[i] == c,
        forall|j: int| 0 <= j < i ==> s[j] != c,
    ensures
        position(s, c) == i,
{
    lemma_position(s, c);
}

/// A text is what stands before its first `c`, that `c`, and what stands after it.
pub proof fn lemma_split_rejoins(s: Seq<char>, c: char)
    requires
        s.contains(c),
    ensures
        s == before(s, c) + seq![c] + after(s, c),
        !before(s, c).contains(c),
{
    lemma_position(s, c);
    let i = choose|i: int| 0 <= i < s.len() && s[i] == c;
    assert(position(s, c) < s.len()) by {
        if position(s, c) == s.len() {
            assert(s[i] != c);
        }
    }
    assert(s =~= before(s, c) + seq![c] + after(s, c));
}

/// Splitting at the first `c` undoes joining with a `c`.
pub proof fn lemma_split_of_join(head: Seq<char>, c: char, tail: Seq<char>)
    requires
        !head.contains(c),
    ensures
        before(head + seq![c] + tail, c) == head,
        after(head + seq![c] + tail, c) == tail,
{
    let s = head + seq![c] + tail;
    assert forall|j: int| 0 <= j < head.len() implies s[j] != c by {
        assert(s[j] == head[j]);
    }
    assert(s[head.len() as int] == c);
    lemma_position_unique(s, c, head.len() as int);
    assert(before(s, c) =~= head);
    assert(after(s, c) =~= tail);
}

/// Only characters that `drop` accepts leave at the start.
proof fn lemma_trim_start_by(s: Seq<char>, drop: spec_fn(char) -> bool)
    ensures
        trim_start_by(s, drop).len() <= s.len(),
        trim_start_by(s, drop) == s.skip(s.len() - trim_start_by(s, drop).len()),
        forall|i: int|
            0 <= i < s.len() - trim_start_by(s, drop).len() ==> drop(#[trigger] s[i]),
        trim_start_by(s, drop).len() > 0 ==> !drop(trim_start_by(s, drop)[0]),
    decreases s.len(),
{
    if s.len() > 0 && drop(s[0]) {
        lemma_trim_start_by(s.drop_first(), drop);
        let r = trim_start_by(s, drop);
        assert(r =~= s.skip(s.len() - r.len()));
        assert forall|i: int| 0 <= i < s.len() - r.len() implies drop(#[trigger] s[i]) by {
            if i > 0 {
                assert(s[i] == s.drop_first()[i - 1]);
            }
        }
    } else {
        assert(s.skip(0) =~= s);
    }
}

/// Only characters that `drop` accepts leave at the end, and none of them stays last.
pub proof fn lemma_trim_end_by(s: Seq<char>, drop: spec_fn(char) -> bool)
    ensures
        trim_end_by(s, drop).len() <= s.len(),
        trim_end_by(s, drop) == s.take(trim_end_by(s, drop).len() as int),
        forall|i: int| trim_end_by(s, drop).len() <= i < s.len() ==> drop(#[trigger] s[i]),
        trim_end_by(s, drop).len() > 0 ==> !drop(trim_end_by(s, drop).last()),
    decreases s.len(),
{
    if s.len() > 0 && drop(s.last()) {
        lemma_trim_end_by(s.drop_last(), drop);
        let r = trim_end_by(s, drop);
        assert(r =~= s.take(r.len() as int));
        assert forall|i: int| r.len() <= i < s.len() implies drop(#[trigger] s[i]) by {
            if i < s.len() - 1 {
                assert(s[i] == s.drop_last()[i]);
            }
        }
    } else {
        assert(s.take(s.len() as int) =~= s);
    }
}

/// Trimming leaves nothing exactly when there is only white space.
pub proof fn lemma_trimmed_empty(s: Seq<char>)
    ensures
        trimmed(s).len() > 0 <==> exists|i: int|
            0 <= i < s.len() && !white_space(#[trigger] s[i]),
{
    let t = trim_start_by(s, blank());
    lemma_trim_start_by(s, blank());
    lemma_trim_end_by(t, blank());
    if trimmed(s).len() > 0 {
        assert(t[0] == s[s.len() - t.len()]);
        assert(!white_space(s[s.len() - t.len()]));
    } else {
        assert(t.len() == 0) by {
            if t.len() > 0 {
                assert(blank()(t[0]));
            }
        }
        assert forall|i: int| 0 <= i < s.len() implies white_space(#[trigger] s[i]) by {
            assert(blank()(s[i]));
        }
    }
}

/// The characters of `s`, one by one.
pub fn chars_of(s: &str) -> (chars: Vec<char>)
    ensures
        chars@ == s@,
{
    let mut chars: Vec<char> = Vec::new();
    for c in it: s.chars()
        invariant
            chars@ == it.seq().take(it.index()),
            it.seq() == s@,
    {
        chars.push(c);
    }
    chars
}

/// Whether `c` has the Unicode `White_Space` property.
pub fn is_white_space(c: char) -> (yes: bool)
    ensures
        yes == white_space(c),
{
    ('\u{9}' <= c && c <= '\u{d}') || c == '\u{20}' || c == '\u{85}' || c == '\u{a0}' || c
        == '\u{1680}' || ('\u{2000}' <= c && c <= '\u{200a}') || c == '\u{2028}' || c == '\u{2029}'
        || c == '\u{202f}' || c == '\u{205f}' || c == '\u{3000}'
}

/// `c`, with the letters `A` to `Z` replaced by `a` to `z`.
pub fn to_lower(c: char) -> (r: char)
    ensures
        r == lower(c),
{
    if 'A' <= c && c <= 'Z' {
        (c as u8 + 32) as char
    } else {
        c
    }
}

/// `s` without the white space at its two ends.
pub fn trim(s: &str) -> (r: &str)
    ensures
        r@ == trimmed(s@),
{
    let chars = chars_of(s);
    let end: usize = chars.len();
    let mut i: usize = 0;
    assert(s@.subrange(0, end as int) == s@);
    while i < end && is_white_space(chars[i])
        invariant
            i <= end == chars.len(),
            chars@ == s@,
            trim_start_by(s@, blank()) == trim_start_by(s@.subrange(i as int, end as int), blank()),
        decreases end - i,
    {
        assert(s@.subrange(i as int, end as int).drop_first() == s@.subrange(i + 1, end as int));
        i += 1;
    }
    let mut j: usize = end;
    while j > i && is_white_space(chars[j - 1])
        invariant
            i <= j <= end == chars.len(),
            chars@ == s@,
            trim_end_by(s@.subrange(i as int, end as int), blank()) == trim_end_by(
                s@.subrange(i as int, j as int),
                blank(),
            ),
        decreases j,
    {
        assert(s@.subrange(i as int, j as int).drop_last() == s@.subrange(i as int, j - 1));
        j -= 1;
    }
    s.substring_char(i, j)
}

/// `s` without the carriage returns and line feeds at its end.
pub fn trim_line_end(s: &str) -> (r: &str)
    ensures
        r@ == without_line_end(s@),
{
    let chars = chars_of(s);
    let mut j: usize = chars.len();
    assert(s@.subrange(0, j as int) == s@);
    while j > 0 && (chars[j - 1] == '\r' || chars[j - 1] == '\n')
        invariant
            j <= chars.len(),
            chars@ == s@,
            without_line_end(s@) == trim_end_by(s@.subrange(0, j as int), newline()),
        decreases j,
    {
        assert(s@.subrange(0, j as int).drop_last() == s@.subrange(0, j - 1));
        j -= 1;
    }
    s.substring_char(0, j)
}

/// Whether `part` stands in `chars` from index `i` on.
fn stands_at(chars: &Vec<char>, part: &Vec<char>, i: usize) -> (yes: bool)
    requires
        i <= chars.len(),
    ensures
        yes == occurs_at(chars@, part@, i as int),
{
    if part.len() > chars.len() - i {
        return false;
    }
    let mut k: usize = 0;
    while k < part.len()
        invariant
            k <= part.len() <= chars.len() - i,
            forall|m: int| 0 <= m < k ==> chars@[i + m] == part@[m],
        decreases part.len() - k,
    {
        if chars[i + k] != part[k] {
            assert(chars@.subrange(i as int, i + part.len())[k as int] == chars@[i + k]);
            return false;
        }
        k += 1;
    }
    assert(chars@.subrange(i as int, i + part.len()) =~= part@);
    true
}

/// Whether `part` stands somewhere in `chars`.
pub fn contains(chars: &Vec<char>, part: &str) -> (yes: bool)
    ensures
        yes == occurs_in(chars@, part@),
{
    let part_chars = chars_of(part);
    let mut i: usize = 0;
    while i < chars.len()
        invariant
            i <= chars.len(),
            part_chars@ == part@,
            forall|j: int| 0 <= j < i ==> !occurs_at(chars@, part@, j),
        decreases chars.len() - i,
    {
        if stands_at(chars, &part_chars, i) {
            return true;
        }
        i += 1;
    }
    stands_at(chars, &part_chars, i)
}

/// Whether `s` begins with `prefix`.
pub fn starts_with(s: &str, prefix: &str) -> (yes: bool)
    ensures
        yes == prefix@.is_prefix_of(s@),
{
    stands_at(&chars_of(s), &chars_of(prefix), 0)
}

/// Whether the two texts are the same.
pub fn same(a: &str, b: &str) -> (yes: bool)
    ensures
        yes == (a@ == b@),
{
    if a.unicode_len() != b.unicode_len() {
        return false;
    }
    let yes = starts_with(a, b);
    assert(yes ==> a@ =~= b@);
    yes
}

/// The index of the first `c` in `chars`, or the length of `chars` when there is none.
pub fn find(chars: &Vec<char>, c: char) -> (i: usize)
    ensures
        i == position(chars@, c),
        i <= chars.len(),
{
    let mut i: usize = 0;
    while i < chars.len() && chars[i] != c
        invariant
            i <= chars.len(),
            forall|j: int| 0 <= j < i ==> chars@[j] != c,
        decreases chars.len() - i,
    {
        i += 1;
    }
    proof {
        lemma_position_unique(chars@, c, i as int);
    }
    i
}

/// The two parts of `s` around its first `c`; the second one is empty when there is no `c`.
pub fn split_at_first(s: &str, c: char) -> (r: (&str, &str))
    ensures
        r.0@ == before(s@, c),
        r.1@ == after(s@, c),
{
    let chars = chars_of(s);
    let i: usize = find(&chars, c);
    let end: usize = chars.len();
    let first = s.substring_char(0, i);
    if i < end {
        (first, s.substring_char(i + 1, end))
    } else {
        let rest = s.substring_char(end, end);
        assert(rest@ =~= Seq::<char>::empty());
        (first, rest)
    }
}

/// The text of `s` with the letters `A` to `Z` replaced by `a` to `z`.
pub fn lower_chars(s: &str) -> (chars: Vec<char>)
    ensures
        chars@ == lowered(s@),
{
    let mut chars: Vec<char> = Vec::new();
    for c in it: s.chars()
        invariant
            chars@ == lowered(it.seq().take(it.index())),
            it.seq() == s@,
    {
        chars.push(to_lower(c));
    }
    assert(s@.take(s@.len() as int) == s@);
    chars
}

/// Whether some character of `chars` is white space.
pub fn has_white_space(chars: &Vec<char>) -> (yes: bool)
    ensures
        yes == exists|i: int| 0 <= i < chars.len() && white_space(#[trigger] chars@[i]),
{
    let mut i: usize = 0;
    while i < chars.len()
        invariant
            i <= chars.len(),
            forall|j: int| 0 <= j < i ==> !white_space(#[trigger] chars@[j]),
        decreases chars.len() - i,
    {
        if is_white_space(chars[i]) {
            return true;
        }
        i += 1;
    }
    false
}

/// The white space characters, by their numbers.
pub proof fn law_white_space_characters(c: char)
    ensures
        white_space(c) <==> ({
            let n = c as u32;
            ||| 9 <= n <= 13
            ||| n == 32 || n == 133 || n == 160 || n == 5760
            ||| 8192 <= n <= 8202
            ||| n == 8232 || n == 8233 || n == 8239 || n == 8287 || n == 12288
        }),
{
}

/// Leading characters that are dropped change nothing.
proof fn lemma_trim_start_skips(head: Seq<char>, rest: Seq<char>, drop: spec_fn(char) -> bool)
    requires
        forall|i: int| 0 <= i < head.len() ==> drop(#[trigger] head[i]),
    ensures
        trim_start_by(head + rest, drop) == trim_start_by(rest, drop),
    decreases head.len(),
{
    if head.len() == 0 {
        assert(head + rest =~= rest);
    } else {
        assert((head + rest)[0] == head[0]);
        assert((head + rest).drop_first() =~= head.drop_first() + rest);
        assert forall|i: int| 0 <= i < head.drop_first().len() implies drop(
            #[trigger] head.drop_first()[i],
        ) by {
            assert(head.drop_first()[i] == head[i + 1]);
        }
        lemma_trim_start_skips(head.drop_first(), rest, drop);
    }
}

/// Trailing characters that are dropped change nothing.
proof fn lemma_trim_end_skips(rest: Seq<char>, tail: Seq<char>, drop: spec_fn(char) -> bool)
    requires
        forall|i: int| 0 <= i < tail.len() ==> drop(#[trigger] tail[i]),
    ensures
        trim_end_by(rest + tail, drop) == trim_end_by(rest, drop),
    decreases tail.len(),
{
    if tail.len() == 0 {
        assert(rest + tail =~= rest);
    } else {
        assert((rest + tail).last() == tail[tail.len() - 1]);
        assert((rest + tail).drop_last() =~= rest + tail.drop_last());
        lemma_trim_end_skips(rest, tail.drop_last(), drop);
    }
}

/// Trimming takes away the white space at the two ends and nothing else: what stands between
/// them stays as it is, whatever it is and however long.
pub proof fn law_trim_keeps_the_middle(head: Seq<char>, middle: Seq<char>, tail: Seq<char>)
    requires
        forall|i: int| 0 <= i < head.len() ==> white_space(#[trigger] head[i]),
        forall|i: int| 0 <= i < tail.len() ==> white_space(#[trigger] tail[i]),
        middle.len() > 0 ==> !white_space(middle[0]) && !white_space(middle[middle.len() - 1]),
    ensures
        trimmed(head + middle + tail) == middle,
{
    let rest = middle + tail;
    assert(head + middle + tail =~= head + rest);
    assert forall|i: int| 0 <= i < head.len() implies blank()(#[trigger] head[i]) by {}
    assert forall|i: int| 0 <= i < tail.len() implies blank()(#[trigger] tail[i]) by {}
    lemma_trim_start_skips(head, rest, blank());
    if middle.len() > 0 {
        assert(rest[0] == middle[0]);
        assert(trim_start_by(rest, blank()) == rest);
        lemma_trim_end_skips(middle, tail, blank());
    } else {
        assert(rest =~= tail + Seq::<char>::empty());
        lemma_trim_start_skips(tail, Seq::empty(), blank());
        assert(middle =~= Seq::<char>::empty());
    }
}

/// Every text is white space, what trimming leaves, and white space; and what trimming leaves
/// neither begins nor ends with white space.
pub proof fn law_trim_splits(s: Seq<char>) -> (r: (Seq<char>, Seq<char>))
    ensures
        s == r.0 + trimmed(s) + r.1,
        forall|i: int| 0 <= i < r.0.len() ==> white_space(#[trigger] r.0[i]),
        forall|i: int| 0 <= i < r.1.len() ==> white_space(#[trigger] r.1[i]),
        trimmed(s).len() > 0 ==> !white_space(trimmed(s)[0]) && !white_space(
            trimmed(s)[trimmed(s).len() - 1],
        ),
{
    let rest = trim_start_by(s, blank());
    let middle = trimmed(s);
    lemma_trim_start_by(s, blank());
    lemma_trim_end_by(rest, blank());
    let head = s.take(s.len() - rest.len());
    let tail = rest.skip(middle.len() as int);
    assert(s =~= head + middle + tail);
    assert forall|i: int| 0 <= i < head.len() implies white_space(#[trigger] head[i]) by {
        assert(blank()(s[i]));
    }
    assert forall|i: int| 0 <= i < tail.len() implies white_space(#[trigger] tail[i]) by {
        assert(blank()(rest[middle.len() + i]));
    }
    if middle.len() > 0 {
        assert(middle[0] == rest[0]);
        assert(!blank()(rest[0]));
        assert(!blank()(middle.last()));
    }
    (head, tail)
}

/// The carriage returns and line feeds at the end go, and nothing else: what stands before them
/// stays as it is, whatever it is and however long.
pub proof fn law_line_end_goes_alone(text: Seq<char>, end: Seq<char>)
    requires
        forall|i: int| 0 <= i < end.len() ==> (#[trigger] end[i] == '\r' || end[i] == '\n'),
        text.len() > 0 ==> text[text.len() - 1] != '\r' && text[text.len() - 1] != '\n',
    ensures
        without_line_end(text + end) == text,
{
    assert forall|i: int| 0 <= i < end.len() implies newline()(#[trigger] end[i]) by {}
    lemma_trim_end_skips(text, end, newline());
}

/// Every text is what is left without its line end, and carriage returns and line feeds; and
/// what is left ends with neither.
pub proof fn law_line_end_splits(s: Seq<char>) -> (end: Seq<char>)
    ensures
        s == without_line_end(s) + end,
        forall|i: int| 0 <= i < end.len() ==> (#[trigger] end[i] == '\r' || end[i] == '\n'),
        without_line_end(s).len() > 0 ==> without_line_end(s).last() != '\r'
            && without_line_end(s).last() != '\n',
{
    let text = without_line_end(s);
    lemma_trim_end_by(s, newline());
    let end = s.skip(text.len() as int);
    assert(s =~= text + end);
    assert forall|i: int| 0 <= i < end.len() implies (#[trigger] end[i] == '\r' || end[i]
        == '\n') by {
        assert(newline()(s[text.len() + i]));
    }
    if text.len() > 0 {
        assert(!newline()(text.last()));
    }
    end
}

/// Lowering changes the twenty-six capital letters of ASCII, each to the letter thirty-two places
/// on, and leaves every other character as it is.
pub proof fn law_lowering(s: Seq<char>)
    ensures
        lowered(s).len() == s.len(),
        forall|i: int|
            0 <= i < s.len() ==> {
                let n = (#[trigger] s[i]) as int;
                lowered(s)[i] as int == if 65 <= n <= 90 {
                    n + 32
                } else {
                    n
                }
            },
{
    assert forall|i: int| 0 <= i < s.len() implies ({
        let n = (#[trigger] s[i]) as int;
        lowered(s)[i] as int == if 65 <= n <= 90 {
            n + 32
        } else {
            n
        }
    }) by {
        let c = s[i];
        if 'A' <= c <= 'Z' {
            assert((c as u8 + 32) as char as u32 == c as u32 + 32);
        }
    }
}

/// A text occurs in another exactly when something before it and something after it make up the
/// whole.
pub proof fn law_occurrence(s: Seq<char>, part: Seq<char>)
    ensures
        occurs_in(s, part) <==> exists|a: Seq<char>, b: Seq<char>| s == #[trigger] (a + part + b),
{
    if occurs_in(s, part) {
        let i = choose|i: int| occurs_at(s, part, i);
        let a = s.take(i);
        let b = s.skip(i + part.len());
        assert(s.subrange(i, i + part.len()) =~= part);
        assert forall|j: int| 0 <= j < s.len() implies s[j] == (a + part + b)[j] by {
            if i <= j < i + part.len() {
                assert(s[j] == s.subrange(i, i + part.len())[j - i]);
            }
        }
        assert(s =~= a + part + b);
    }
    if exists|a: Seq<char>, b: Seq<char>| s == #[trigger] (a + part + b) {
        let (a, b) = choose|a: Seq<char>, b: Seq<char>| s == #[trigger] (a + part + b);
        let i = a.len() as int;
        assert(s.subrange(i, i + part.len()) =~= part);
        assert(occurs_at(s, part, i));
    }
}

/// A text without a `c` stands whole before it, with nothing after it.
pub proof fn law_split_without_separator(s: Seq<char>, c: char)
    requires
        !s.contains(c),
    ensures
        before(s, c) == s,
        after(s, c) == Seq::<char>::empty(),
{
    assert forall|j: int| 0 <= j < s.len() implies s[j] != c by {
        assert(s.contains(s[j]));
    }
    lemma_position_unique(s, c, s.len() as int);
    assert(before(s, c) =~= s);
}

} // verus!
