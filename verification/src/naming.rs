//! Names of emitted items: case conversion and keyword avoidance.

use heck::ToSnekCase;
use heck::ToUpperCamelCase;
use vstd::prelude::*;
use vstd::string::*;

verus! {

/// Compares two string slices.
pub(crate) fn str_eq(a: &str, b: &str) -> (same: bool)
    ensures
        same == (a@ == b@),
{
    a.to_owned() == b.to_owned()
}

/// The snake-case form of a name, as the `heck` crate computes it.
pub uninterp spec fn snake_case(name: Seq<char>) -> Seq<char>;

/// The upper-camel-case form of a name, as the `heck` crate computes it.
pub uninterp spec fn upper_camel_case(name: Seq<char>) -> Seq<char>;

/// Converts a name to snake case.
///
/// Trusted: calls `heck::ToSnekCase::to_snek_case` on the slice. The crate
/// splits the input into words and joins their lower-case forms with
/// underscores; the result depends on the characters of the input alone, and
/// the contract gives it the name [`snake_case`].
#[verifier::external_body]
pub(crate) fn to_snek_case(name: &str) -> (converted: String)
    ensures
        converted@ == snake_case(name@),
{
    name.to_snek_case()
}

/// Converts a name to upper camel case.
///
/// Trusted: calls `heck::ToUpperCamelCase::to_upper_camel_case` on the slice.
/// The crate splits the input into words and joins their capitalised forms;
/// the result depends on the characters of the input alone, and the contract
/// gives it the name [`upper_camel_case`].
#[verifier::external_body]
pub(crate) fn to_upper_camel_case(name: &str) -> (converted: String)
    ensures
        converted@ == upper_camel_case(name@),
{
    name.to_upper_camel_case()
}

/// The identifier under which `name` can be declared: the name itself,
/// unless it is one of the reserved words listed here.
pub open spec fn safe_ident_text(name: Seq<char>) -> Seq<char> {
    if name == "fn"@ {
        "r#fn"@
    } else if name == "use"@ {
        "r#use"@
    } else if name == "move"@ {
        "r#move"@
    } else if name == "struct"@ {
        "r#struct"@
    } else if name == "enum"@ {
        "r#enum"@
    } else if name == "self"@ {
        "_self"@
    } else if name == "union"@ {
        "r#union"@
    } else if name == "trait"@ {
        "r#trait"@
    } else if name == "type"@ {
        "r#type"@
    } else if name == "match"@ {
        "r#match"@
    } else if name == "box"@ {
        "r#box"@
    } else if name == "impl"@ {
        "r#impl"@
    } else {
        name
    }
}

/// Maps a host name onto an identifier that can be declared: reserved words
/// become raw identifiers, and `self`, which has no raw form, gets a leading
/// underscore. Any other name is returned as it is.
pub fn safe_ident(inp: &str) -> (ident: String)
    ensures
        ident@ == safe_ident_text(inp@),
{
    let chosen = if str_eq(inp, "fn") {
        "r#fn"
    } else if str_eq(inp, "use") {
        "r#use"
    } else if str_eq(inp, "move") {
        "r#move"
    } else if str_eq(inp, "struct") {
        "r#struct"
    } else if str_eq(inp, "enum") {
        "r#enum"
    } else if str_eq(inp, "self") {
        "_self"
    } else if str_eq(inp, "union") {
        "r#union"
    } else if str_eq(inp, "trait") {
        "r#trait"
    } else if str_eq(inp, "type") {
        "r#type"
    } else if str_eq(inp, "match") {
        "r#match"
    } else if str_eq(inp, "box") {
        "r#box"
    } else if str_eq(inp, "impl") {
        "r#impl"
    } else {
        inp
    };
    String::from_str(chosen)
}

} // verus!
