use vstd::prelude::*;

verus! {

/// Whether the text parses as one identifier; names the outcome of
/// `syn::parse_str::<syn::Ident>`, which depends on the characters alone.
pub uninterp spec fn ident_ok(s: Seq<char>) -> bool;

/// Whether the text parses as a visibility qualifier; names the outcome of
/// `syn::parse_str::<syn::Visibility>`, which depends on the characters alone.
pub uninterp spec fn vis_ok(s: Seq<char>) -> bool;

/// Whether the text parses as a type expression; names the outcome of
/// `syn::parse_str::<syn::Type>`, which depends on the characters alone.
pub uninterp spec fn type_ok(s: Seq<char>) -> bool;

/// Relies on `syn::parse_str::<syn::Ident>`: accepts exactly the texts that
/// lex and parse as a single identifier (keywords and bare numerals are
/// refused by that parser).
#[verifier::external_body]
pub fn check_ident(s: &str) -> (r: bool)
    ensures
        r == ident_ok(s@),
{
    syn::parse_str::<syn::Ident>(s).is_ok()
}

/// Relies on `syn::parse_str::<syn::Visibility>`: accepts exactly the texts
/// that parse as a visibility qualifier.
#[verifier::external_body]
pub fn check_visibility(s: &str) -> (r: bool)
    ensures
        r == vis_ok(s@),
{
    syn::parse_str::<syn::Visibility>(s).is_ok()
}

/// Relies on `syn::parse_str::<syn::Type>`: accepts exactly the texts that
/// parse as a type expression.
#[verifier::external_body]
pub fn check_type(s: &str) -> (r: bool)
    ensures
        r == type_ok(s@),
{
    syn::parse_str::<syn::Type>(s).is_ok()
}

} // verus!
