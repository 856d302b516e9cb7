//! Token streams of `proc_macro2`, read as sequences of [`Token`]s.
//!
//! Nothing in this file is proved: it says what is taken on trust about the
//! outside crate.
use vstd::prelude::*;
use proc_macro2::{TokenStream, TokenTree};
use crate::token::{Kind, Tok, Token};

verus! {

/// `proc_macro2::TokenStream`, an opaque sequence of token trees.
#[verifier::external_type_specification]
#[verifier::external_body]
pub struct ExTokenStream(proc_macro2::TokenStream);

/// The token trees at the top level of a stream, in order, each with its
/// kind and with the text that its `Display` impl prints.
pub uninterp spec fn stream_tokens(stream: TokenStream) -> Seq<Tok>;

/// Walks the stream with `TokenStream::into_iter` and prints each tree with
/// `TokenTree::to_string`.
///
/// Trusted: the result is what [`stream_tokens`] stands for.  The variant of
/// a tree gives the kind, and the text is what `Display` prints for the tree:
/// for an identifier the identifier, for a group its delimiters, where they
/// can be seen, with what stands between them.
#[verifier::external_body]
pub(crate) fn read_tokens(stream: TokenStream) -> (tokens: Vec<Token>)
    ensures
        tokens.deep_view() == stream_tokens(stream),
{
    let mut tokens = Vec::new();
    for tree in stream {
        let kind = match &tree {
            TokenTree::Group(_) => Kind::Group,
            TokenTree::Ident(_) => Kind::Ident,
            TokenTree::Punct(_) => Kind::Punct,
            TokenTree::Literal(_) => Kind::Literal,
        };
        tokens.push(Token { kind, text: tree.to_string() });
    }
    tokens
}

} // verus!
