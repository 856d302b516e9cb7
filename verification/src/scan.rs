//! The declaration scanner: from the tokens of a `struct` or `enum`
//! declaration to its visibility qualifier and its name.
use vstd::prelude::*;
use vstd::string::*;
use crate::token::{Kind, Tok, Token};

verus! {

/// What the scanner finds in a declaration.
#[derive(Debug, PartialEq, Eq)]
pub struct Declaration {
    /// The tokens of the visibility qualifier, in source order; empty for a
    /// type that is private to the scope that declares it.
    pub vis: Vec<Token>,
    /// The name of the type.
    pub name: String,
}

/// The mathematical value of a [`Declaration`].
pub struct DeclarationView {
    pub vis: Seq<Tok>,
    pub name: Seq<char>,
}

impl View for Declaration {
    type V = DeclarationView;

    open spec fn view(&self) -> DeclarationView {
        DeclarationView { vis: self.vis.deep_view(), name: self.name@ }
    }
}

impl DeepView for Declaration {
    type V = DeclarationView;

    open spec fn deep_view(&self) -> DeclarationView {
        self@
    }
}

/// The token is the visibility keyword.
pub open spec fn is_pub(token: Tok) -> bool {
    token.is_word("pub"@)
}

/// The token is one of the two kind markers.
pub open spec fn is_kind(token: Tok) -> bool {
    token.is_word("struct"@) || token.is_word("enum"@)
}

/// The token can be the name of the type: an identifier that is neither the
/// visibility keyword nor a kind marker.
pub open spec fn names_type(token: Tok) -> bool {
    token.kind == Kind::Ident && !is_pub(token) && !is_kind(token)
}

/// The token at `at` belongs to the visibility qualifier: it is the
/// visibility keyword, or a group that follows the keyword directly.
pub open spec fn captured(tokens: Seq<Tok>, at: int) -> bool {
    is_pub(tokens[at]) || (tokens[at].kind == Kind::Group && at > 0 && is_pub(tokens[at - 1]))
}

/// The captured tokens among the first `upto` tokens, in source order.
pub open spec fn qualifier(tokens: Seq<Tok>, upto: int) -> Seq<Tok>
    decreases upto,
{
    if upto <= 0 {
        Seq::empty()
    } else if captured(tokens, upto - 1) {
        qualifier(tokens, upto - 1).push(tokens[upto - 1])
    } else {
        qualifier(tokens, upto - 1)
    }
}

/// The name of the type stands at `at`: it is the first token that can be one.
pub open spec fn name_at(tokens: Seq<Tok>, at: int) -> bool {
    &&& 0 <= at < tokens.len()
    &&& names_type(tokens[at])
    &&& forall|before: int| 0 <= before < at ==> !names_type(#[trigger] tokens[before])
}

/// Some token of the declaration can be the name of the type.
pub open spec fn has_name(tokens: Seq<Tok>) -> bool {
    exists|at: int| name_at(tokens, at)
}

/// Where the name of the type stands, in a declaration that has one.
pub open spec fn name_index(tokens: Seq<Tok>) -> int {
    choose|at: int| name_at(tokens, at)
}

/// The declaration that the tokens hold: the name is the first identifier
/// that is neither `pub`, `struct` nor `enum`, and the visibility is made of
/// the captured tokens before it.  Without such an identifier there is none.
pub open spec fn scanned(tokens: Seq<Tok>) -> Option<DeclarationView> {
    if has_name(tokens) {
        let at = name_index(tokens);
        Some(DeclarationView { vis: qualifier(tokens, at), name: tokens[at].text })
    } else {
        None
    }
}

/// The name stands in one place only.
pub proof fn lemma_name_at_unique(tokens: Seq<Tok>, first: int, second: int)
    requires
        name_at(tokens, first),
        name_at(tokens, second),
    ensures
        first == second,
{
    if first < second {
        assert(!names_type(tokens[first]));
    } else if second < first {
        assert(!names_type(tokens[second]));
    }
}

/// From the place of the name to the scanned declaration.
pub proof fn lemma_scanned_at(tokens: Seq<Tok>, at: int)
    requires
        name_at(tokens, at),
    ensures
        scanned(tokens) == Some(
            DeclarationView { vis: qualifier(tokens, at), name: tokens[at].text },
        ),
{
    lemma_name_at_unique(tokens, at, name_index(tokens));
}

/// Scans the tokens of a declaration for the visibility qualifier and the
/// name of the type.
///
/// Tokens are read from the left.  Each `pub` is kept, together with a group
/// that follows it directly; `struct` and `enum` are passed over, and so is
/// every token that is no identifier.  The first identifier left is the name,
/// and nothing after it is read.  A declaration without one gives `None`.
pub fn scan(tokens: &Vec<Token>) -> (found: Option<Declaration>)
    ensures
        found is Some <==> has_name(tokens.deep_view()),
        found.deep_view() == scanned(tokens.deep_view()),
{
    let ghost all = tokens.deep_view();
    let mut vis: Vec<Token> = Vec::new();
    let mut at: usize = 0;
    while at < tokens.len()
        invariant
            all == tokens.deep_view(),
            at <= tokens.len(),
            vis.deep_view() == qualifier(all, at as int),
            forall|before: int| 0 <= before < at ==> !names_type(#[trigger] all[before]),
            0 < at < tokens.len() && is_pub(all[at - 1]) ==> all[at as int].kind != Kind::Group,
        decreases tokens.len() - at,
    {
        let token = &tokens[at];
        if token.is_word("pub") {
            vis.push(token.clone());
            at += 1;
            assert(vis.deep_view() == qualifier(all, at as int));
            if at < tokens.len() && matches!(tokens[at].kind, Kind::Group) {
                vis.push(tokens[at].clone());
                at += 1;
            }
        } else if token.is_word("struct") || token.is_word("enum") {
            at += 1;
        } else {
            match token.kind {
                Kind::Ident => {
                    proof {
                        lemma_scanned_at(all, at as int);
                    }
                    return Some(Declaration { vis, name: token.text.clone() });
                },
                _ => {
                    at += 1;
                },
            }
        }
    }
    None
}

} // verus!
