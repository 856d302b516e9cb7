//! Tokens of a declaration, as far as the scanner reads them.
use vstd::prelude::*;
use vstd::string::*;

verus! {

/// The four kinds of token tree.
#[derive(Debug, Clone, Copy, PartialEq, Eq, Structural)]
pub enum Kind {
    /// An identifier or keyword, such as `pub`, `struct` or `Foo`.
    Ident,
    /// A delimited group, such as `(crate)` or `{ x: u32 }`.
    Group,
    /// A single punctuation character.
    Punct,
    /// A literal.
    Literal,
}

/// One token tree at the top level of a declaration: its kind and its source
/// text.  What stands inside a group is never looked at, only passed on as
/// part of the text.
#[derive(Debug, PartialEq, Eq)]
pub struct Token {
    pub kind: Kind,
    pub text: String,
}

/// The mathematical value of a [`Token`].
pub struct Tok {
    pub kind: Kind,
    pub text: Seq<char>,
}

impl View for Token {
    type V = Tok;

    open spec fn view(&self) -> Tok {
        Tok { kind: self.kind, text: self.text@ }
    }
}

impl DeepView for Token {
    type V = Tok;

    open spec fn deep_view(&self) -> Tok {
        self@
    }
}

impl Clone for Token {
    fn clone(&self) -> (copy: Self)
        ensures
            copy == *self,
    {
        Token { kind: self.kind, text: self.text.clone() }
    }
}

impl Tok {
    /// Whether the token is the identifier `word`.
    pub open spec fn is_word(self, word: Seq<char>) -> bool {
        self.kind == Kind::Ident && self.text == word
    }
}

impl Token {
    /// A token of the given kind and text.
    pub fn new(kind: Kind, text: &str) -> (token: Token)
        ensures
            token@ == (Tok { kind, text: text@ }),
    {
        Token { kind, text: String::from_str(text) }
    }

    /// Whether the token is the identifier `word`.
    pub fn is_word(&self, word: &str) -> (yes: bool)
        ensures
            yes == self@.is_word(word@),
    {
        match self.kind {
            Kind::Ident => self.text == String::from_str(word),
            _ => false,
        }
    }
}

} // verus!
