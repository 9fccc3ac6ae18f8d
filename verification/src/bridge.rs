//! Bridge to the syn syntax tree.
//!
//! A parameter list that arrives as a `syn::Generics` is read through two
//! trusted accessors, and a finished marker is handed back to syn by parsing
//! its rendered text. Everything between those two edges is verified.

use vstd::prelude::*;

use crate::params::idents_view;
use crate::phantom::PhantomType;
use crate::phantom::ToPhantom;
use crate::render::rendered_marker;

verus! {

#[verifier::external_type_specification]
#[verifier::external_body]
pub struct ExGenerics(syn::Generics);

#[verifier::external_type_specification]
#[verifier::external_body]
pub struct ExType(syn::Type);

/// The lifetime identifiers a `syn::Generics` holds, without apostrophes,
/// in declaration order.
pub uninterp spec fn generics_lifetimes(g: syn::Generics) -> Seq<Seq<char>>;

/// The type-parameter identifiers a `syn::Generics` holds, in declaration
/// order.
pub uninterp spec fn generics_type_params(g: syn::Generics) -> Seq<Seq<char>>;

/// Relies on syn::Generics::lifetimes: it yields exactly the lifetime
/// parameters of the list, in declaration order, skipping type and const
/// parameters; each carries its identifier without the apostrophe.
#[verifier::external_body]
fn syn_lifetime_idents(g: &syn::Generics) -> (r: Vec<String>)
    ensures
        idents_view(r@) == generics_lifetimes(*g),
{
    g.lifetimes().map(|p| p.lifetime.ident.to_string()).collect()
}

/// Relies on syn::Generics::type_params: it yields exactly the type
/// parameters of the list, in declaration order, skipping lifetime and
/// const parameters; each carries its identifier.
#[verifier::external_body]
fn syn_type_param_idents(g: &syn::Generics) -> (r: Vec<String>)
    ensures
        idents_view(r@) == generics_type_params(*g),
{
    g.type_params().map(|p| p.ident.to_string()).collect()
}

/// What parsing source text as a type yields: the syntax-tree type, or
/// `None` where syn does not accept the text.
pub uninterp spec fn parsed_type_of(s: Seq<char>) -> Option<syn::Type>;

/// Relies on syn::parse_str: it parses source text into a syntax-tree type,
/// or fails; the outcome depends on the text alone.
#[verifier::external_body]
fn parse_type(s: &str) -> (r: Option<syn::Type>)
    ensures
        r == parsed_type_of(s@),
{
    syn::parse_str::<syn::Type>(s).ok()
}

impl ToPhantom for syn::Generics {
    open spec fn spec_lifetimes(&self) -> Seq<Seq<char>> {
        generics_lifetimes(*self)
    }

    open spec fn spec_type_params(&self) -> Seq<Seq<char>> {
        generics_type_params(*self)
    }

    fn to_phantom(&self) -> (r: PhantomType) {
        PhantomType {
            lifetimes: syn_lifetime_idents(self),
            type_params: syn_type_param_idents(self),
        }
    }
}

impl PhantomType {
    /// The marker as a syn syntax-tree type, parsed back from its rendered
    /// text. `None` only when syn does not accept that text.
    pub fn to_syn_type(&self) -> (r: Option<syn::Type>)
        ensures
            r == parsed_type_of(rendered_marker(self.lifetime_names(), self.type_names())),
    {
        let text = self.render();
        parse_type(text.as_str())
    }
}

} // verus!
