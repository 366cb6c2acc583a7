//! The file that holds the scoped agent token.

use crate::error::TokenError;
use crate::text;
use vstd::prelude::*;
use vstd::string::*;

verus! {

/// Neither the group nor others have any access.
pub open spec fn private_mode(mode: u32) -> bool {
    mode & 0o077 == 0
}

/// Whether a token file with these permissions may be read. `None` stands for permissions that
/// could not be looked up.
pub open spec fn token_access(mode: Option<u32>) -> Result<(), TokenError> {
    match mode {
        None => Err(TokenError::CannotInspect),
        Some(m) => if private_mode(m) {
            Ok(())
        } else {
            Err(TokenError::NotPrivate)
        },
    }
}

/// The token in the text of a token file: the trimmed text, when it begins with `pst_` and
/// holds `::`. `None` stands for a text that could not be read.
pub open spec fn token_in(contents: Option<Seq<char>>) -> Result<Seq<char>, TokenError> {
    match contents {
        None => Err(TokenError::CannotRead),
        Some(s) => if "pst_"@.is_prefix_of(text::trimmed(s)) && text::occurs_in(
            text::trimmed(s),
            "::"@,
        ) {
            Ok(text::trimmed(s))
        } else {
            Err(TokenError::InvalidFormat)
        },
    }
}

/// Decide, by its permissions, whether the token file may be read.
pub fn inspect_token(mode: Option<u32>) -> (r: Result<(), TokenError>)
    ensures
        r == token_access(mode),
        r is Ok <==> (mode matches Some(m) && m % 64 == 0),
{
    proof {
        law_access_to_the_token_file(mode);
    }
    match mode {
        None => Err(TokenError::CannotInspect),
        Some(m) => if m & 0o077 != 0 {
            Err(TokenError::NotPrivate)
        } else {
            Ok(())
        },
    }
}

/// Take the token out of the text of the token file.
pub fn read_token(contents: Option<String>) -> (r: Result<String, TokenError>)
    ensures
        match r {
            Ok(token) => token_in(contents.deep_view()) == Ok::<Seq<char>, TokenError>(token@),
            Err(e) => token_in(contents.deep_view()) == Err::<Seq<char>, TokenError>(e),
        },
{
    match contents {
        None => Err(TokenError::CannotRead),
        Some(s) => {
            let token = text::trim(s.as_str());
            let chars = text::chars_of(token);
            if !text::starts_with(token, "pst_") || !text::contains(&chars, "::") {
                Err(TokenError::InvalidFormat)
            } else {
                Ok(token.to_owned())
            }
        },
    }
}

/// The token file may be read if and only if its permissions are known and none of the lowest six
/// bits, those of the group and of others, is set. Else the error says which of the two it is.
pub proof fn law_access_to_the_token_file(mode: Option<u32>)
    ensures
        token_access(mode) is Ok <==> (mode matches Some(m) && m % 64 == 0),
        token_access(mode) == Err::<(), TokenError>(TokenError::CannotInspect) <==> mode is None,
        token_access(mode) == Err::<(), TokenError>(TokenError::NotPrivate) <==> (
        mode matches Some(m) && m % 64 != 0),
{
    if let Some(m) = mode {
        assert(m & 0o077 == m % 64) by (bit_vector);
    }
}

/// The token is what stands in the file between white space, whole and unchanged, whatever follows
/// `pst_` and `::` in it.
pub proof fn law_token_is_the_text(
    head: Seq<char>,
    a: Seq<char>,
    b: Seq<char>,
    tail: Seq<char>,
)
    requires
        forall|i: int| 0 <= i < head.len() ==> text::white_space(#[trigger] head[i]),
        forall|i: int| 0 <= i < tail.len() ==> text::white_space(#[trigger] tail[i]),
        "pst_"@.is_prefix_of(a + "::"@ + b),
        !text::white_space((a + "::"@ + b).last()),
    ensures
        token_in(Some(head + (a + "::"@ + b) + tail)) == Ok::<Seq<char>, TokenError>(
            a + "::"@ + b,
        ),
{
    let token = a + "::"@ + b;
    reveal_strlit("pst_");
    assert("pst_"@[0] == 'p');
    assert(token.subrange(0, 4)[0] == token[0]);
    assert(token[0] == 'p');
    text::law_trim_keeps_the_middle(head, token, tail);
    text::law_occurrence(token, "::"@);
}

/// A token always begins with `pst_` and holds `::`, has no white space at its ends, and stands in
/// the file between white space.
pub proof fn law_token_comes_from_the_file(contents: Seq<char>, token: Seq<char>)
    requires
        token_in(Some(contents)) == Ok::<Seq<char>, TokenError>(token),
    ensures
        "pst_"@.is_prefix_of(token),
        exists|a: Seq<char>, b: Seq<char>| token == #[trigger] (a + "::"@ + b),
        exists|head: Seq<char>, tail: Seq<char>|
            {
                &&& contents == #[trigger] (head + token + tail)
                &&& forall|i: int| 0 <= i < head.len() ==> text::white_space(#[trigger] head[i])
                &&& forall|i: int| 0 <= i < tail.len() ==> text::white_space(#[trigger] tail[i])
            },
        !text::white_space(token.last()),
{
    let (head, tail) = text::law_trim_splits(contents);
    text::law_occurrence(token, "::"@);
    reveal_strlit("pst_");
    assert(contents == head + token + tail);
}

/// A file that cannot be read is told apart from one without a token.
pub proof fn law_missing_tokens_are_told_apart(contents: Option<Seq<char>>)
    ensures
        token_in(contents) == Err::<Seq<char>, TokenError>(TokenError::CannotRead) <==> contents
            is None,
        contents is Some ==> token_in(contents) is Ok || token_in(contents) == Err::<
            Seq<char>,
            TokenError,
        >(TokenError::InvalidFormat),
{
}

} // verus!
