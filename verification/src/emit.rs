//! The method synthesizer: from a scanned declaration to the source text of
//! the `impl` block that gives the type its `encrypt` and `decrypt`.
use vstd::prelude::*;
use vstd::string::*;
use crate::scan::{scan, scanned, Declaration, DeclarationView};
use crate::token::{Tok, Token};

verus! {

/// The `encrypt` method from `fn` on: serialise `self`, then let the
/// strong box encrypt the bytes under the context.
pub const ENCRYPT_METHOD: &'static str =
    "fn encrypt(&self, strong_box: &impl ::strong_box::StrongBox, ctx: impl AsRef<[u8]>) -> Result<Vec<u8>, ::strong_box::Error> { let mut serialized = Vec::<u8>::new(); ::strong_box::ciborium::into_writer(self, &mut serialized)?; strong_box.encrypt(&serialized, ctx.as_ref()) } ";

/// The `decrypt` constructor from `fn` on: let the strong box decrypt the
/// ciphertext under the context, then deserialise the bytes.
pub const DECRYPT_METHOD: &'static str =
    "fn decrypt(ciphertext: impl AsRef<[u8]>, strong_box: &impl ::strong_box::StrongBox, ctx: impl AsRef<[u8]>) -> Result<Self, ::strong_box::Error> { let plaintext = strong_box.decrypt(ciphertext.as_ref(), ctx.as_ref())?; Ok(::strong_box::ciborium::from_reader::<Self, &[u8]>(&plaintext)?) } ";

/// What is written for a declaration in which no name was found.
pub const NO_NAME_FOUND: &'static str = "compile_error!(\"no type name found?!\")";

/// The source text of the tokens: the text of each, followed by a space.
pub open spec fn rendered(tokens: Seq<Tok>) -> Seq<char>
    decreases tokens.len(),
{
    if tokens.len() == 0 {
        Seq::empty()
    } else {
        rendered(tokens.drop_last()) + tokens.last().text + " "@
    }
}

/// The `impl` block for a declaration: both methods, each with the
/// visibility qualifier of the declaration before its `fn`.
pub open spec fn impl_text(decl: DeclarationView) -> Seq<char> {
    "impl "@ + decl.name + " { "@
        + rendered(decl.vis) + ENCRYPT_METHOD@
        + rendered(decl.vis) + DECRYPT_METHOD@
        + "}"@
}

/// What is written for the tokens of a declaration: the `impl` block where
/// the scanner finds a name, the compile error where it finds none.
pub open spec fn expansion(tokens: Seq<Tok>) -> Seq<char> {
    match scanned(tokens) {
        Some(decl) => impl_text(decl),
        None => NO_NAME_FOUND@,
    }
}

/// Writes the tokens out, each followed by a space.
pub fn render(tokens: &Vec<Token>) -> (text: String)
    ensures
        text@ == rendered(tokens.deep_view()),
{
    let ghost all = tokens.deep_view();
    let mut text = String::new();
    let mut at: usize = 0;
    while at < tokens.len()
        invariant
            all == tokens.deep_view(),
            at <= tokens.len(),
            text@ == rendered(all.take(at as int)),
        decreases tokens.len() - at,
    {
        assert(all.take(at + 1).drop_last() == all.take(at as int));
        text.append(tokens[at].text.as_str());
        text.append(" ");
        at += 1;
    }
    assert(all.take(at as int) == all);
    text
}

/// Writes the `impl` block that gives the declared type its two methods.
pub fn synthesize(decl: &Declaration) -> (text: String)
    ensures
        text@ == impl_text(decl@),
{
    let vis = render(&decl.vis);
    let mut text = String::from_str("impl ");
    text.append(decl.name.as_str());
    text.append(" { ");
    text.append(vis.as_str());
    text.append(ENCRYPT_METHOD);
    text.append(vis.as_str());
    text.append(DECRYPT_METHOD);
    text.append("}");
    text
}

/// Writes what stands for a declaration: its `impl` block, or the compile
/// error if the declaration has no name.
pub fn expand(tokens: &Vec<Token>) -> (text: String)
    ensures
        text@ == expansion(tokens.deep_view()),
{
    match scan(tokens) {
        Some(decl) => synthesize(&decl),
        None => String::from_str(NO_NAME_FOUND),
    }
}

} // verus!
