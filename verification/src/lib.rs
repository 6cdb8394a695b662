//! Rewrites a trait implementation of the extended dialect, in which the
//! block and its trait bounds may be marked `const`, into the baseline
//! grammar: the block loses its `const`, a `~const` bound loses its mark, and
//! a `~const` bound on `Drop` goes altogether.
//!
//! ```text
//! impl<T: ~const Clone + ~const Drop> const Greet for Wrapper<T> { fn hi(&self) {} }
//! ```
//!
//! becomes
//!
//! ```text
//! impl<T: Clone> Greet for Wrapper<T> { fn hi(&self) {} }
//! ```
//!
//! The work goes in four steps, each with its model:
//!
//! - [`token`] reads a `proc_macro2::TokenStream` into tokens; [`cursor`] says
//!   what the grammar asks of single tokens.
//! - [`item`], with [`generics`], [`bounds`] and [`predicates`], parses the
//!   tokens into the tree of [`syntax`]. Types, paths, attributes and
//!   associated items are left to `syn` ([`delegate`]) and kept as the
//!   tokens that print them.
//! - [`baseline`] lowers that tree to the tree of the baseline grammar, as
//!   [`lower`] says.
//! - [`render`] prints the lowered tree.
//!
//! Executable functions state what they compute over the models: a token is
//! a [`token::Tok`], a tree its `deep_view()`. What `syn` makes of given
//! tokens is known by name only (`delegate::syn_type` and the like); all that
//! this library does with it is stated and proved.

pub mod baseline;
pub mod bounds;
pub mod cursor;
pub mod delegate;
pub mod error;
pub mod generics;
pub mod item;
pub mod lower;
pub mod predicates;
pub mod render;
pub mod syntax;
pub mod token;

use crate::baseline::ItemImpl;
use crate::error::{Expected, ParseError};
use crate::item::{parse, parse_item};
use crate::lower::lower_item;
use crate::render::render_item;
use crate::token::{first_signed, lex, lexable, stream_toks, to_stream, Tok};
use proc_macro2::TokenStream;
use vstd::prelude::*;

verus! {

/// The rewrite on the model: the tokens of the lowered block, or why and
/// where the input was refused.
pub open spec fn unconst(input: Seq<Tok>) -> Result<Seq<Tok>, ParseError> {
    if !lexable(input) {
        Err(
            ParseError::UnexpectedToken {
                expected: Expected::UnsignedLiteral,
                position: first_signed(input) as usize,
            },
        )
    } else {
        match parse_item(input) {
            Ok(item) => Ok(render_item(lower_item(item))),
            Err(error) => Err(error),
        }
    }
}

/// Turns a `const` trait implementation into one that is not: parses
/// `item`, lowers it and prints it. Nothing is printed of an input that is
/// refused.
pub fn unconst_trait_impl(item: TokenStream) -> (r: Result<TokenStream, ParseError>)
    ensures
        match r {
            Ok(output) => unconst(stream_toks(item)) == Ok::<Seq<Tok>, ParseError>(
                stream_toks(output),
            ),
            Err(error) => unconst(stream_toks(item)) == Err::<Seq<Tok>, ParseError>(error),
        },
{
    let tokens = match lex(&item) {
        Ok(tokens) => tokens,
        Err(position) => return Err(
            ParseError::UnexpectedToken { expected: Expected::UnsignedLiteral, position },
        ),
    };
    let item_const_impl = match parse(tokens) {
        Ok(found) => found,
        Err(error) => return Err(error),
    };
    let item_impl = ItemImpl::from(item_const_impl);
    Ok(to_stream(&item_impl.render()))
}

} // verus!
