//! Secret references, audit reasons, and the pass-cli arguments that look a secret up.

use crate::error::{ReasonError, ReferenceError};
use crate::text;
use vstd::prelude::*;
use vstd::string::*;
use vstd::utf8::*;

verus! {

/// The most bytes that a secret reference may have.
pub const MAX_REFERENCE_BYTES: usize = 2048;

/// The most characters that an audit reason may have.
pub const MAX_REASON_CHARS: usize = 300;

/// Reference scheme. `pass://` carries opaque, keyset-bound IDs (legacy); `proton://` carries
/// stable vault and item names resolved by pass-cli.
#[derive(Clone, Copy, Debug, PartialEq, Eq, Structural)]
pub enum ReferenceScheme {
    Id,
    Name,
}

/// A reference split into its scheme and three `/`-separated components.
#[derive(Clone, Copy, Debug)]
pub struct ParsedReference<'a> {
    pub scheme: ReferenceScheme,
    pub first: &'a str,
    pub second: &'a str,
    pub field: &'a str,
}

/// The value of a `ParsedReference`.
pub struct ParsedView {
    pub scheme: ReferenceScheme,
    pub first: Seq<char>,
    pub second: Seq<char>,
    pub field: Seq<char>,
}

impl<'a> View for ParsedReference<'a> {
    type V = ParsedView;

    open spec fn view(&self) -> ParsedView {
        ParsedView {
            scheme: self.scheme,
            first: self.first@,
            second: self.second@,
            field: self.field@,
        }
    }
}

impl ReferenceScheme {
    /// The text that a reference of this scheme begins with.
    pub open spec fn prefix(self) -> Seq<char> {
        match self {
            ReferenceScheme::Id => "pass://"@,
            ReferenceScheme::Name => "proton://"@,
        }
    }
}

impl ParsedView {
    /// The text after the scheme, cut at its first two slashes. What is missing is empty, and
    /// further slashes belong to the field.
    pub open spec fn of(scheme: ReferenceScheme, rest: Seq<char>) -> ParsedView {
        let tail = text::after(rest, '/');
        ParsedView {
            scheme,
            first: text::before(rest, '/'),
            second: text::before(tail, '/'),
            field: text::after(tail, '/'),
        }
    }

    /// The reference that has these components.
    pub open spec fn joined(self) -> Seq<char> {
        self.scheme.prefix() + self.first + seq!['/'] + self.second + seq!['/'] + self.field
    }
}

/// The components of a reference, or `None` when it begins with no known scheme.
pub open spec fn parsed(reference: Seq<char>) -> Option<ParsedView> {
    if "pass://"@.is_prefix_of(reference) {
        Some(ParsedView::of(ReferenceScheme::Id, reference.skip("pass://"@.len() as int)))
    } else if "proton://"@.is_prefix_of(reference) {
        Some(ParsedView::of(ReferenceScheme::Name, reference.skip("proton://"@.len() as int)))
    } else {
        None
    }
}

/// Every character is ASCII, and none is white space.
pub open spec fn plain_ascii(reference: Seq<char>) -> bool {
    &&& is_ascii_chars(reference)
    &&& forall|i: int| 0 <= i < reference.len() ==> !text::white_space(#[trigger] reference[i])
}

/// What is wrong with a reference: the first that applies, or `None` when it is valid.
pub open spec fn reference_fault(reference: Seq<char>) -> Option<ReferenceError> {
    if encode_utf8(reference).len() > MAX_REFERENCE_BYTES {
        Some(ReferenceError::TooLong)
    } else if !plain_ascii(reference) {
        Some(ReferenceError::NotPlainAscii)
    } else {
        match parsed(reference) {
            None => Some(ReferenceError::UnknownScheme),
            Some(p) => if p.first.len() == 0 || p.second.len() == 0 || p.field.len() == 0 {
                match p.scheme {
                    ReferenceScheme::Id => Some(ReferenceError::MissingIdPart),
                    ReferenceScheme::Name => Some(ReferenceError::MissingNamePart),
                }
            } else if p.field.last() == '/' {
                Some(ReferenceError::TrailingSlash)
            } else {
                None
            },
        }
    }
}

/// The reference passes every check.
pub open spec fn valid_reference(reference: Seq<char>) -> bool {
    reference_fault(reference) is None
}

/// The pass-cli arguments that look the reference up.
pub open spec fn view_arguments(reference: Seq<char>) -> Seq<Seq<char>> {
    match parsed(reference) {
        Some(p) if p.scheme == ReferenceScheme::Name => seq![
            "item"@,
            "view"@,
            "--vault-name"@,
            p.first,
            "--item-title"@,
            p.second,
            "--field"@,
            p.field,
        ],
        _ => seq!["item"@, "view"@, reference],
    }
}

/// What is wrong with an audit reason, or `None` when it is valid.
pub open spec fn reason_fault(reason: Seq<char>) -> Option<ReasonError> {
    if text::trimmed(reason).len() == 0 {
        Some(ReasonError::Empty)
    } else if reason.len() > MAX_REASON_CHARS {
        Some(ReasonError::TooLong)
    } else {
        None
    }
}

/// The reason passes every check.
pub open spec fn valid_reason(reason: Seq<char>) -> bool {
    reason_fault(reason) is None
}

/// The components of the text after the scheme.
fn split_rest<'a>(scheme: ReferenceScheme, rest: &'a str) -> (r: ParsedReference<'a>)
    ensures
        r@ == ParsedView::of(scheme, rest@),
{
    let (first, tail) = text::split_at_first(rest, '/');
    let (second, field) = text::split_at_first(tail, '/');
    ParsedReference { scheme, first, second, field }
}

/// `s` without `prefix`, or `None` when it does not begin with it.
fn strip_prefix<'a>(s: &'a str, prefix: &str) -> (rest: Option<&'a str>)
    ensures
        match rest {
            Some(r) => prefix@.is_prefix_of(s@) && r@ == s@.skip(prefix@.len() as int),
            None => !prefix@.is_prefix_of(s@),
        },
{
    if text::starts_with(s, prefix) {
        Some(s.substring_char(prefix.unicode_len(), s.unicode_len()))
    } else {
        None
    }
}

/// Split a `pass://` or `proton://` reference into its components without validating them.
/// Returns `None` for unknown schemes.
pub fn split_reference(reference: &str) -> (r: Option<ParsedReference<'_>>)
    ensures
        match r {
            Some(p) => parsed(reference@) == Some(p@),
            None => parsed(reference@) is None,
        },
{
    if let Some(rest) = strip_prefix(reference, "pass://") {
        Some(split_rest(ReferenceScheme::Id, rest))
    } else if let Some(rest) = strip_prefix(reference, "proton://") {
        Some(split_rest(ReferenceScheme::Name, rest))
    } else {
        None
    }
}

/// Check that a reference is short, plain, of a known scheme and complete.
pub fn validate_reference(reference: &str) -> (r: Result<(), ReferenceError>)
    ensures
        match r {
            Ok(()) => reference_fault(reference@) is None,
            Err(e) => reference_fault(reference@) == Some(e),
        },
        r is Ok <==> {
            &&& reference@.len() <= 2048
            &&& forall|i: int|
                0 <= i < reference@.len() ==> {
                    let n = (#[trigger] reference@[i]) as int;
                    n < 128 && !(9 <= n <= 13) && n != 32
                }
            &&& exists|scheme: Seq<char>, first: Seq<char>, second: Seq<char>, field: Seq<char>|
                {
                    &&& scheme == "pass://"@ || scheme == "proton://"@
                    &&& #[trigger] has_parts(reference@, scheme, first, second, field)
                    &&& field.last() != '/'
                }
        },
{
    proof {
        law_valid_references(reference@);
    }
    if reference.as_bytes().len() > MAX_REFERENCE_BYTES {
        return Err(ReferenceError::TooLong);
    }
    let chars = text::chars_of(reference);
    if !reference.is_ascii() || text::has_white_space(&chars) {
        return Err(ReferenceError::NotPlainAscii);
    }
    match split_reference(reference) {
        None => Err(ReferenceError::UnknownScheme),
        Some(parsed) => {
            if parsed.first.is_empty() || parsed.second.is_empty() || parsed.field.is_empty() {
                match parsed.scheme {
                    ReferenceScheme::Id => Err(ReferenceError::MissingIdPart),
                    ReferenceScheme::Name => Err(ReferenceError::MissingNamePart),
                }
            } else if parsed.field.get_char(parsed.field.unicode_len() - 1) == '/' {
                Err(ReferenceError::TrailingSlash)
            } else {
                Ok(())
            }
        },
    }
}

/// Build the `pass-cli item view` argument list for a reference. The reference is assumed to
/// have passed [`validate_reference`]. `pass://` references are forwarded as a positional URI;
/// `proton://` references are translated into the named `--vault-name/--item-title/--field`
/// flags so pass-cli resolves the keyset-bound IDs at runtime.
pub fn pass_cli_view_arguments(reference: &str) -> (arguments: Vec<String>)
    ensures
        arguments.deep_view() == view_arguments(reference@),
{
    let mut arguments: Vec<String> = Vec::new();
    arguments.push("item".to_owned());
    arguments.push("view".to_owned());
    match split_reference(reference) {
        Some(ParsedReference { scheme: ReferenceScheme::Name, first, second, field }) => {
            arguments.push("--vault-name".to_owned());
            arguments.push(first.to_owned());
            arguments.push("--item-title".to_owned());
            arguments.push(second.to_owned());
            arguments.push("--field".to_owned());
            arguments.push(field.to_owned());
        },
        _ => {
            arguments.push(reference.to_owned());
        },
    }
    assert(arguments.deep_view() =~= view_arguments(reference@));
    arguments
}

/// Check that an audit reason says something and is short.
pub fn validate_reason(reason: &str) -> (r: Result<(), ReasonError>)
    ensures
        match r {
            Ok(()) => reason_fault(reason@) is None,
            Err(e) => reason_fault(reason@) == Some(e),
        },
        r is Ok <==> reason@.len() <= 300 && exists|i: int|
            0 <= i < reason@.len() && !text::white_space(#[trigger] reason@[i]),
{
    proof {
        law_valid_reason_says_something(reason@);
    }
    if text::trim(reason).is_empty() {
        return Err(ReasonError::Empty);
    }
    if reason.unicode_len() > MAX_REASON_CHARS {
        return Err(ReasonError::TooLong);
    }
    Ok(())
}

impl ParsedView {
    /// Three components that are there and can be told apart: no slash in the first two, and
    /// none at the end of the third.
    pub open spec fn complete(self) -> bool {
        &&& self.first.len() > 0 && !self.first.contains('/')
        &&& self.second.len() > 0 && !self.second.contains('/')
        &&& self.field.len() > 0 && self.field.last() != '/'
    }
}

/// Nothing after a missing separator: a text whose part after the first `/` is not empty has one.
proof fn lemma_after_needs_slash(s: Seq<char>)
    requires
        text::after(s, '/').len() > 0,
    ensures
        s.contains('/'),
{
    text::lemma_position(s, '/');
    assert(s[text::position(s, '/')] == '/');
}

/// Splitting undoes joining: a reference put together from complete components has exactly
/// these components.
pub proof fn law_split_undoes_join(p: ParsedView)
    requires
        p.complete(),
    ensures
        parsed(p.joined()) == Some(p),
{
    reveal_strlit("pass://");
    reveal_strlit("proton://");
    let tail = p.second + seq!['/'] + p.field;
    let rest = p.first + seq!['/'] + tail;
    let prefix = p.scheme.prefix();
    assert(p.joined() =~= prefix + rest);
    assert(p.joined().skip(prefix.len() as int) =~= rest);
    assert(prefix.is_prefix_of(p.joined()));
    text::lemma_split_of_join(p.first, '/', tail);
    text::lemma_split_of_join(p.second, '/', p.field);
    if p.scheme == ReferenceScheme::Name {
        assert(p.joined()[1] == 'r');
        assert("pass://"@[1] == 'a');
        assert(!"pass://"@.is_prefix_of(p.joined()));
    }
}

/// Joining undoes splitting: the components of a valid reference are complete, and the
/// reference is their join.
pub proof fn law_join_undoes_split(reference: Seq<char>)
    requires
        valid_reference(reference),
    ensures
        parsed(reference) is Some,
        parsed(reference)->0.complete(),
        parsed(reference)->0.joined() == reference,
{
    let p = parsed(reference)->0;
    let prefix = p.scheme.prefix();
    let rest = reference.skip(prefix.len() as int);
    assert(reference =~= prefix + rest);
    let tail = text::after(rest, '/');
    lemma_after_needs_slash(tail);
    assert(tail.len() > 0);
    lemma_after_needs_slash(rest);
    text::lemma_split_rejoins(rest, '/');
    text::lemma_split_rejoins(tail, '/');
    assert(p.joined() =~= prefix + (p.first + seq!['/'] + (p.second + seq!['/'] + p.field)));
}

/// The valid references are exactly the short, plain ASCII joins of a scheme and three complete
/// components.
pub proof fn law_valid_reference_shape(reference: Seq<char>)
    ensures
        valid_reference(reference) <==> {
            &&& encode_utf8(reference).len() <= MAX_REFERENCE_BYTES
            &&& plain_ascii(reference)
            &&& exists|p: ParsedView| p.complete() && reference == #[trigger] p.joined()
        },
{
    if valid_reference(reference) {
        law_join_undoes_split(reference);
        let p = parsed(reference)->0;
        assert(p.complete() && reference == p.joined());
    }
    if exists|p: ParsedView| p.complete() && reference == #[trigger] p.joined() {
        let p = choose|p: ParsedView| p.complete() && reference == #[trigger] p.joined();
        law_split_undoes_join(p);
    }
}

/// Every lookup is one of two fixed argument lists, in which only the values come from the
/// reference: its whole text, which begins with `pass://`, or its three components, each behind
/// the flag that names it.
pub proof fn law_fixed_argument_lists(reference: Seq<char>)
    requires
        valid_reference(reference),
    ensures
        ({
            let arguments = view_arguments(reference);
            let p = parsed(reference)->0;
            ||| {
                &&& p.scheme == ReferenceScheme::Id
                &&& "pass://"@.is_prefix_of(reference)
                &&& arguments == seq!["item"@, "view"@, reference]
            }
            ||| {
                &&& p.scheme == ReferenceScheme::Name
                &&& p.complete()
                &&& arguments.len() == 8
                &&& arguments[0] == "item"@ && arguments[1] == "view"@
                &&& arguments[2] == "--vault-name"@ && arguments[3] == p.first
                &&& arguments[4] == "--item-title"@ && arguments[5] == p.second
                &&& arguments[6] == "--field"@ && arguments[7] == p.field
            }
        }),
{
    law_join_undoes_split(reference);
}

/// Two valid references that ask pass-cli for the same thing are the same reference.
pub proof fn law_arguments_determine_reference(a: Seq<char>, b: Seq<char>)
    requires
        valid_reference(a),
        valid_reference(b),
        view_arguments(a) == view_arguments(b),
    ensures
        a == b,
{
    law_join_undoes_split(a);
    law_join_undoes_split(b);
    let x = view_arguments(a);
    let y = view_arguments(b);
    assert(x.len() == y.len());
    if x.len() == 3 {
        assert(x[2] == a && y[2] == b);
    } else {
        let p = parsed(a)->0;
        let q = parsed(b)->0;
        assert(x[3] == p.first && y[3] == q.first);
        assert(x[5] == p.second && y[5] == q.second);
        assert(x[7] == p.field && y[7] == q.field);
    }
}

/// A valid reason holds a character that is not white space, and at most three hundred
/// characters; one that holds nothing but white space counts as empty, however long it is.
pub proof fn law_valid_reason_says_something(reason: Seq<char>)
    ensures
        valid_reason(reason) <==> reason.len() <= 300 && exists|i: int|
            0 <= i < reason.len() && !text::white_space(#[trigger] reason[i]),
        reason_fault(reason) == Some(ReasonError::Empty) <==> forall|i: int|
            0 <= i < reason.len() ==> text::white_space(#[trigger] reason[i]),
        reason_fault(reason) == Some(ReasonError::TooLong) <==> reason.len() > 300 && exists|i: int|
            0 <= i < reason.len() && !text::white_space(#[trigger] reason[i]),
{
    text::lemma_trimmed_empty(reason);
}

/// The reference is the scheme and three parts with a slash between them. The parts are not
/// empty, and the first two hold no slash.
pub open spec fn has_parts(
    reference: Seq<char>,
    scheme: Seq<char>,
    first: Seq<char>,
    second: Seq<char>,
    field: Seq<char>,
) -> bool {
    &&& reference == scheme + first + seq!['/'] + second + seq!['/'] + field
    &&& first.len() > 0 && forall|i: int| 0 <= i < first.len() ==> #[trigger] first[i] != '/'
    &&& second.len() > 0 && forall|i: int| 0 <= i < second.len() ==> #[trigger] second[i] != '/'
    &&& field.len() > 0
}

/// The scheme decides how the text after it is split.
proof fn lemma_parsed_after(scheme: ReferenceScheme, rest: Seq<char>)
    ensures
        parsed(scheme.prefix() + rest) == Some(ParsedView::of(scheme, rest)),
{
    reveal_strlit("pass://");
    reveal_strlit("proton://");
    let prefix = scheme.prefix();
    let reference = prefix + rest;
    assert(reference.skip(prefix.len() as int) =~= rest);
    assert(prefix.is_prefix_of(reference));
    if scheme == ReferenceScheme::Name {
        assert(reference[1] == 'r');
        assert("pass://"@[1] == 'a');
        assert(!"pass://"@.is_prefix_of(reference));
    }
}

/// A reference is split at the first two slashes after its scheme: further slashes belong to the
/// field, and what is missing is empty. The parts are whatever stands there, however long.
pub proof fn law_split_at_two_slashes(first: Seq<char>, second: Seq<char>, field: Seq<char>)
    requires
        !first.contains('/'),
        !second.contains('/'),
    ensures
        parsed("pass://"@ + first + seq!['/'] + second + seq!['/'] + field) == Some(
            ParsedView { scheme: ReferenceScheme::Id, first, second, field },
        ),
        parsed("proton://"@ + first + seq!['/'] + second + seq!['/'] + field) == Some(
            ParsedView { scheme: ReferenceScheme::Name, first, second, field },
        ),
        parsed("pass://"@ + first + seq!['/'] + second) == Some(
            ParsedView { scheme: ReferenceScheme::Id, first, second, field: Seq::empty() },
        ),
        parsed("proton://"@ + first + seq!['/'] + second) == Some(
            ParsedView { scheme: ReferenceScheme::Name, first, second, field: Seq::empty() },
        ),
        parsed("pass://"@ + first) == Some(
            ParsedView {
                scheme: ReferenceScheme::Id,
                first,
                second: Seq::empty(),
                field: Seq::empty(),
            },
        ),
        parsed("proton://"@ + first) == Some(
            ParsedView {
                scheme: ReferenceScheme::Name,
                first,
                second: Seq::empty(),
                field: Seq::empty(),
            },
        ),
{
    lemma_split_parts(ReferenceScheme::Id, first, second, field);
    lemma_split_parts(ReferenceScheme::Name, first, second, field);
}

/// The parts that are there are found, for either scheme.
proof fn lemma_split_parts(
    scheme: ReferenceScheme,
    first: Seq<char>,
    second: Seq<char>,
    field: Seq<char>,
)
    requires
        !first.contains('/'),
        !second.contains('/'),
    ensures
        ({
            let prefix = scheme.prefix();
            let none = Seq::<char>::empty();
            &&& parsed(prefix + first + seq!['/'] + second + seq!['/'] + field) == Some(
                ParsedView { scheme, first, second, field },
            )
            &&& parsed(prefix + first + seq!['/'] + second) == Some(
                ParsedView { scheme, first, second, field: none },
            )
            &&& parsed(prefix + first) == Some(
                ParsedView { scheme, first, second: none, field: none },
            )
        }),
{
    let prefix = scheme.prefix();
    let none = Seq::<char>::empty();
    let tail = second + seq!['/'] + field;
    let three = first + seq!['/'] + tail;
    let two = first + seq!['/'] + second;
    text::lemma_split_of_join(first, '/', tail);
    text::lemma_split_of_join(second, '/', field);
    text::lemma_split_of_join(first, '/', second);
    text::law_split_without_separator(first, '/');
    text::law_split_without_separator(second, '/');
    text::law_split_without_separator(none, '/');
    assert(prefix + first + seq!['/'] + second + seq!['/'] + field =~= prefix + three);
    assert(prefix + first + seq!['/'] + second =~= prefix + two);
    lemma_parsed_after(scheme, three);
    lemma_parsed_after(scheme, two);
    lemma_parsed_after(scheme, first);
}

/// A reference has no components exactly when it begins with neither scheme.
pub proof fn law_unknown_scheme_has_no_components(reference: Seq<char>)
    ensures
        parsed(reference) is None <==> !"pass://"@.is_prefix_of(reference)
            && !"proton://"@.is_prefix_of(reference),
{
}

/// The parts of a reference are its components.
proof fn lemma_parts_are_components(reference: Seq<char>, scheme: ReferenceScheme)
    ensures
        forall|first: Seq<char>, second: Seq<char>, field: Seq<char>| #[trigger]
            has_parts(reference, scheme.prefix(), first, second, field) ==> parsed(reference)
                == Some(ParsedView { scheme, first, second, field }),
        parsed(reference) matches Some(p) ==> (p.scheme == scheme && p.first.len() > 0
            && p.second.len() > 0 && p.field.len() > 0 ==> has_parts(
            reference,
            scheme.prefix(),
            p.first,
            p.second,
            p.field,
        )),
{
    assert forall|first: Seq<char>, second: Seq<char>, field: Seq<char>| #[trigger]
        has_parts(reference, scheme.prefix(), first, second, field) implies parsed(reference)
        == Some(ParsedView { scheme, first, second, field }) by {
        law_split_at_two_slashes(first, second, field);
    }
    if let Some(p) = parsed(reference) {
        if p.scheme == scheme && p.first.len() > 0 && p.second.len() > 0 && p.field.len() > 0 {
            let prefix = scheme.prefix();
            let rest = reference.skip(prefix.len() as int);
            assert(reference =~= prefix + rest);
            let tail = text::after(rest, '/');
            lemma_after_needs_slash(tail);
            assert(tail.len() > 0);
            lemma_after_needs_slash(rest);
            text::lemma_split_rejoins(rest, '/');
            text::lemma_split_rejoins(tail, '/');
            assert(reference =~= prefix + p.first + seq!['/'] + p.second + seq!['/'] + p.field);
            assert forall|i: int| 0 <= i < p.first.len() implies #[trigger] p.first[i] != '/' by {
                assert(p.first.contains(p.first[i]));
            }
            assert forall|i: int| 0 <= i < p.second.len() implies #[trigger] p.second[i] != '/' by {
                assert(p.second.contains(p.second[i]));
            }
        }
    }
}

/// A character with a number below 128 is ASCII.
proof fn lemma_ascii_character(c: char)
    requires
        128 > c as int,
    ensures
        '\0' <= c <= '\u{7f}',
{
}

/// Plain text has as many bytes as characters, and its characters are these.
proof fn lemma_plain_characters(reference: Seq<char>)
    ensures
        plain_ascii(reference) <==> forall|i: int|
            0 <= i < reference.len() ==> {
                let n = (#[trigger] reference[i]) as int;
                n < 128 && !(9 <= n <= 13) && n != 32
            },
        plain_ascii(reference) ==> encode_utf8(reference).len() == reference.len(),
{
    if is_ascii_chars(reference) {
        is_ascii_chars_encode_utf8(reference);
    }
    if forall|i: int|
        0 <= i < reference.len() ==> {
            let n = (#[trigger] reference[i]) as int;
            n < 128 && !(9 <= n <= 13) && n != 32
        } {
        assert forall|i: int| 0 <= i < reference.len() implies !text::white_space(
            #[trigger] reference[i],
        ) by {
            text::law_white_space_characters(reference[i]);
        }
        assert(is_ascii_chars(reference)) by {
            assert forall|i: int| 0 <= i < reference.len() implies '\0' <= #[trigger] reference[i]
                <= '\u{7f}' by {
                lemma_ascii_character(reference[i]);
            }
        }
    }
    if plain_ascii(reference) {
        assert forall|i: int| 0 <= i < reference.len() implies ({
            let n = (#[trigger] reference[i]) as int;
            n < 128 && !(9 <= n <= 13) && n != 32
        }) by {
            text::law_white_space_characters(reference[i]);
        }
    }
}

/// A reference is valid if and only if it has at most 2048 characters, each of them ASCII and
/// none a tab, line feed, vertical tab, form feed, carriage return or space, and is `pass://` or
/// `proton://` and three parts with a slash between them, the last of which does not end with a
/// slash.
pub proof fn law_valid_references(reference: Seq<char>)
    ensures
        valid_reference(reference) <==> {
            &&& reference.len() <= 2048
            &&& forall|i: int|
                0 <= i < reference.len() ==> {
                    let n = (#[trigger] reference[i]) as int;
                    n < 128 && !(9 <= n <= 13) && n != 32
                }
            &&& exists|scheme: Seq<char>, first: Seq<char>, second: Seq<char>, field: Seq<char>|
                {
                    &&& scheme == "pass://"@ || scheme == "proton://"@
                    &&& #[trigger] has_parts(reference, scheme, first, second, field)
                    &&& field.last() != '/'
                }
        },
{
    lemma_plain_characters(reference);
    lemma_parts_are_components(reference, ReferenceScheme::Id);
    lemma_parts_are_components(reference, ReferenceScheme::Name);
    if valid_reference(reference) {
        let p = parsed(reference)->0;
        assert(has_parts(reference, p.scheme.prefix(), p.first, p.second, p.field));
    }
    if exists|scheme: Seq<char>, first: Seq<char>, second: Seq<char>, field: Seq<char>|
        {
            &&& scheme == "pass://"@ || scheme == "proton://"@
            &&& #[trigger] has_parts(reference, scheme, first, second, field)
            &&& field.last() != '/'
        } {
        let (scheme, first, second, field) = choose|
            scheme: Seq<char>,
            first: Seq<char>,
            second: Seq<char>,
            field: Seq<char>,
        |
            {
                &&& scheme == "pass://"@ || scheme == "proton://"@
                &&& #[trigger] has_parts(reference, scheme, first, second, field)
                &&& field.last() != '/'
            };
        if scheme == "pass://"@ {
            assert(has_parts(reference, ReferenceScheme::Id.prefix(), first, second, field));
        } else {
            assert(has_parts(reference, ReferenceScheme::Name.prefix(), first, second, field));
        }
        assert(parsed(reference) is Some);
    }
}

/// Why a reference is refused: for more than 2048 bytes; else for a character that is not ASCII
/// or is white space; else for an unknown scheme; else for a part that is missing, told apart by
/// the scheme; else for a slash at the end.
pub proof fn law_refused_references(reference: Seq<char>)
    ensures
        ({
            let fault = reference_fault(reference);
            let long = encode_utf8(reference).len() > 2048;
            let odd = exists|i: int|
                0 <= i < reference.len() && {
                    let n = (#[trigger] reference[i]) as int;
                    n >= 128 || 9 <= n <= 13 || n == 32
                };
            let by_id = "pass://"@.is_prefix_of(reference);
            let by_name = "proton://"@.is_prefix_of(reference);
            let whole_id = exists|first: Seq<char>, second: Seq<char>, field: Seq<char>| #[trigger]
                has_parts(reference, "pass://"@, first, second, field);
            let whole_name = exists|first: Seq<char>, second: Seq<char>, field: Seq<char>|
                #[trigger] has_parts(reference, "proton://"@, first, second, field);
            &&& fault == Some(ReferenceError::TooLong) <==> long
            &&& fault == Some(ReferenceError::NotPlainAscii) <==> !long && odd
            &&& fault == Some(ReferenceError::UnknownScheme) <==> !long && !odd && !by_id
                && !by_name
            &&& fault == Some(ReferenceError::MissingIdPart) <==> !long && !odd && by_id
                && !whole_id
            &&& fault == Some(ReferenceError::MissingNamePart) <==> !long && !odd && by_name
                && !whole_name
            &&& fault == Some(ReferenceError::TrailingSlash) <==> !long && !odd && (whole_id
                || whole_name) && reference.last() == '/'
        }),
{
    lemma_plain_characters(reference);
    lemma_parts_are_components(reference, ReferenceScheme::Id);
    lemma_parts_are_components(reference, ReferenceScheme::Name);
    reveal_strlit("pass://");
    reveal_strlit("proton://");
    assert("pass://"@[1] == 'a' && "proton://"@[1] == 'r');
    if let Some(p) = parsed(reference) {
        let prefix = p.scheme.prefix();
        if p.first.len() > 0 && p.second.len() > 0 && p.field.len() > 0 {
            assert(has_parts(reference, prefix, p.first, p.second, p.field));
            assert(reference.last() == p.field.last());
        }
    }
    if "pass://"@.is_prefix_of(reference) && "proton://"@.is_prefix_of(reference) {
        assert(reference[1] == 'a' && reference[1] == 'r');
    }
}

/// A reference by name becomes the three flags, each with the part that it names, whatever the
/// parts are.
pub proof fn law_arguments_of_a_name(first: Seq<char>, second: Seq<char>, field: Seq<char>)
    requires
        !first.contains('/'),
        !second.contains('/'),
    ensures
        view_arguments("proton://"@ + first + seq!['/'] + second + seq!['/'] + field) == seq![
            "item"@,
            "view"@,
            "--vault-name"@,
            first,
            "--item-title"@,
            second,
            "--field"@,
            field,
        ],
{
    law_split_at_two_slashes(first, second, field);
}

/// Every other reference is handed on as it is, behind `item view`.
pub proof fn law_arguments_of_an_id(reference: Seq<char>)
    requires
        !"proton://"@.is_prefix_of(reference),
    ensures
        view_arguments(reference) == seq!["item"@, "view"@, reference],
{
}

/// The value of a split reference is its scheme and its three components.
pub proof fn law_views_leave_nothing_out(parsed: ParsedReference<'_>)
    ensures
        parsed@.scheme == parsed.scheme,
        parsed@.first == parsed.first@,
        parsed@.second == parsed.second@,
        parsed@.field == parsed.field@,
{
}

} // verus!
