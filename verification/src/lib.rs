//! Encrypting and decrypting methods for any serializable struct or enum.
//!
//! Given the tokens that declare a type, this crate writes the source text of
//! an `impl` block that gives the type an `encrypt` method and a `decrypt`
//! constructor.  Both serialise with CBOR and hand the bytes to a
//! [`StrongBox`](https://docs.rs/strong-box), and both carry the visibility
//! that the type itself was declared with.
//!
//! The work is done in two steps, each a verified function:
//!
//! * [`scan::scan`] reads the declaration and finds the visibility qualifier
//!   and the name of the type;
//! * [`emit::synthesize`] writes the `impl` block for that pair.
//!
//! [`struct_box`] puts the two together for a `proc_macro2::TokenStream`,
//! and [`emit::expand`] does so for tokens that are already at hand.
use vstd::prelude::*;
use proc_macro2::TokenStream;
use crate::emit::{expand, expansion};
use crate::stream::{read_tokens, stream_tokens};

pub mod emit;
pub mod laws;
pub mod scan;
pub mod stream;
pub mod token;

verus! {

/// Writes the `impl` block for the type that `input` declares.
///
/// The result is source text: the block with `encrypt` and `decrypt` where
/// the declaration has a name, and a `compile_error!` invocation where it
/// has none.  Only the top level of `input` is read, and nothing after the
/// name of the type.
pub fn struct_box(input: TokenStream) -> (text: String)
    ensures
        text@ == expansion(stream_tokens(input)),
{
    let tokens = read_tokens(input);
    expand(&tokens)
}

} // verus!
