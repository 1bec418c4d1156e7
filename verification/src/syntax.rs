//! The parser that the text of a module must pass before it is written
//! out.

use crate::module::Module;
use vstd::prelude::*;

verus! {

/// A parsed source file of the `syn` crate. Opaque here: it is handed on to
/// whoever prints the module.
#[verifier::external_type_specification]
#[verifier::external_body]
pub struct ExSyntaxTree(syn::File);

/// The error with which the `syn` crate refuses a text.
#[verifier::external_type_specification]
#[verifier::external_body]
pub struct ExSyntaxFault(syn::Error);

/// Whether the `syn` crate accepts a text as a source file.
pub uninterp spec fn parses_as_file(text: Seq<char>) -> bool;

/// Parses a text as a source file.
///
/// Trusted: calls `syn::parse_file`, which lexes the text and parses the
/// tokens as a sequence of items, leaving nothing over. Whether it succeeds
/// depends on the characters of the text alone; the contract gives that the
/// name [`parses_as_file`], and says nothing of the tree.
#[verifier::external_body]
fn parse_file(text: &str) -> (parsed: Result<syn::File, syn::Error>)
    ensures
        parsed is Ok == parses_as_file(text@),
{
    syn::parse_file(text)
}

/// The message of a syntax error.
///
/// Trusted: prints the `syn::Error` through its `Display`, which writes the
/// first of its messages. Nothing is claimed of the message.
#[verifier::external_body]
fn fault_message(fault: &syn::Error) -> String {
    fault.to_string()
}

/// A module whose text is no valid source file.
#[derive(Clone, Debug, PartialEq, Eq)]
pub struct SyntaxError {
    /// What the parser said of the first place at which it stopped.
    pub message: String,
}

impl Module {
    /// Writes the module and parses what was written, so that no text is
    /// handed on that is not a source file.
    ///
    /// Succeeds exactly when the text of the module parses; the error holds
    /// the parser's message.
    pub fn parse(&self) -> (parsed: Result<syn::File, SyntaxError>)
        ensures
            parsed is Ok == parses_as_file(self@.text()),
    {
        let text = self.render();
        match parse_file(text.as_str()) {
            Ok(tree) => Ok(tree),
            Err(fault) => Err(SyntaxError { message: fault_message(&fault) }),
        }
    }
}

} // verus!
