//! The token buffer of the `quote` crate, as far as the generator uses it, and
//! the text that a run of tokens makes.

use quote::Tokens;
use vstd::prelude::*;

verus! {

/// `quote::Tokens`, a buffer of source text that only grows.
#[verifier::external_type_specification]
#[verifier::external_body]
pub struct ExTokens(quote::Tokens);

/// The text that a token buffer holds.
pub uninterp spec fn tokens_text(tokens: Tokens) -> Seq<char>;

/// Token text as it grows: `text.word(w)` is `text` with the token `w` behind
/// it. A single space parts the two, unless one of them is empty.
pub trait TokenText {
    spec fn word(self, token: Seq<char>) -> Seq<char>;
}

impl TokenText for Seq<char> {
    open spec fn word(self, token: Seq<char>) -> Seq<char> {
        if self.len() > 0 && token.len() > 0 {
            self + seq![' '] + token
        } else {
            self + token
        }
    }
}

/// The text of no token at all.
pub open spec fn no_text() -> Seq<char> {
    Seq::empty()
}

/// `quote::Tokens::new`: a buffer without text.
#[verifier::external_body]
pub(crate) fn tokens_new() -> (tokens: Tokens)
    ensures
        tokens_text(tokens) == no_text(),
{
    Tokens::new()
}

/// `quote::Tokens::append`: puts `token` behind the text of the buffer, after a
/// space where both the buffer and the token hold something.
#[verifier::external_body]
pub(crate) fn tokens_append(tokens: &mut Tokens, token: &str)
    ensures
        tokens_text(*final(tokens)) == tokens_text(*old(tokens)).word(token@),
{
    tokens.append(token)
}

/// `quote::Tokens::as_str`: the text of the buffer.
#[verifier::external_body]
pub(crate) fn tokens_as_str(tokens: &Tokens) -> (text: &str)
    ensures
        text@ == tokens_text(*tokens),
{
    tokens.as_str()
}

} // verus!
