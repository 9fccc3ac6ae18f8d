//! The phantom marker expression and the conversion that builds it from a
//! generic parameter list.

use vstd::prelude::*;

use crate::params::GenericParam;
use crate::params::GenericParams;
use crate::params::idents_view;
use crate::params::lifetime_idents;
use crate::params::param_ident;
use crate::params::type_idents;

verus! {

/// The structure of a phantom marker type
/// `::core::marker::PhantomData<fn(&'a (), ...) -> (T, ...)>`.
///
/// It is determined by two identifier lists alone: the lifetimes that scope
/// the unit references of the inner function pointer's arguments, and the
/// type parameters that fill its returned tuple. Both keep declaration
/// order; const parameters of the source list leave no trace here.
pub struct PhantomType {
    /// Lifetime identifiers, without the apostrophe, in declaration order.
    pub lifetimes: Vec<String>,
    /// Type-parameter identifiers, in declaration order.
    pub type_params: Vec<String>,
}

impl PhantomType {
    /// The lifetime identifiers as character sequences.
    pub open spec fn lifetime_names(&self) -> Seq<Seq<char>> {
        idents_view(self.lifetimes@)
    }

    /// The type-parameter identifiers as character sequences.
    pub open spec fn type_names(&self) -> Seq<Seq<char>> {
        idents_view(self.type_params@)
    }
}

/// Conversion of a generic parameter list into its phantom marker.
pub trait ToPhantom {
    /// The lifetime identifiers of `Self`, in declaration order.
    spec fn spec_lifetimes(&self) -> Seq<Seq<char>>;

    /// The type-parameter identifiers of `Self`, in declaration order.
    spec fn spec_type_params(&self) -> Seq<Seq<char>>;

    /// Creates the phantom marker based on `Self`.
    ///
    /// The marker holds one unit reference per lifetime parameter and one
    /// tuple element per type parameter, each kind in declaration order,
    /// and nothing for const parameters. Wrapped in `PhantomData` it is
    /// zero-sized, `Send` and `Sync`.
    fn to_phantom(&self) -> (r: PhantomType)
        ensures
            r.lifetime_names() == self.spec_lifetimes(),
            r.type_names() == self.spec_type_params(),
    ;
}

/// How one more parameter extends the per-kind identifier projections.
proof fn lemma_idents_step(ps: Seq<GenericParam>, i: int)
    requires
        0 <= i < ps.len(),
    ensures
        lifetime_idents(ps.take(i + 1)) == (if ps[i] is Lifetime {
            lifetime_idents(ps.take(i)).push(param_ident(ps[i]))
        } else {
            lifetime_idents(ps.take(i))
        }),
        type_idents(ps.take(i + 1)) == (if ps[i] is Type {
            type_idents(ps.take(i)).push(param_ident(ps[i]))
        } else {
            type_idents(ps.take(i))
        }),
{
    reveal_with_fuel(Seq::<GenericParam>::filter, 2);
    let t = ps.take(i + 1);
    assert(t.drop_last() =~= ps.take(i));
    assert(t.last() == ps[i]);
    assert(crate::params::lifetime_params_of(t) == (if ps[i] is Lifetime {
        crate::params::lifetime_params_of(ps.take(i)).push(ps[i])
    } else {
        crate::params::lifetime_params_of(ps.take(i))
    }));
    assert(crate::params::type_params_of(t) == (if ps[i] is Type {
        crate::params::type_params_of(ps.take(i)).push(ps[i])
    } else {
        crate::params::type_params_of(ps.take(i))
    }));
    lemma_idents_of_push(crate::params::lifetime_params_of(ps.take(i)), ps[i]);
    lemma_idents_of_push(crate::params::type_params_of(ps.take(i)), ps[i]);
}

/// Mapping to identifiers distributes over appending one parameter.
proof fn lemma_idents_of_push(ps: Seq<GenericParam>, p: GenericParam)
    ensures
        crate::params::idents_of(ps.push(p)) == crate::params::idents_of(ps).push(param_ident(p)),
{
    assert(crate::params::idents_of(ps.push(p)) =~= crate::params::idents_of(ps).push(
        param_ident(p),
    ));
}

/// Pushing a string onto an identifier vector extends its view.
proof fn lemma_idents_view_push(v: Seq<String>, s: String)
    ensures
        idents_view(v.push(s)) == idents_view(v).push(s@),
{
    assert(idents_view(v.push(s)) =~= idents_view(v).push(s@));
}

impl ToPhantom for GenericParams {
    open spec fn spec_lifetimes(&self) -> Seq<Seq<char>> {
        lifetime_idents(self.params@)
    }

    open spec fn spec_type_params(&self) -> Seq<Seq<char>> {
        type_idents(self.params@)
    }

    fn to_phantom(&self) -> (r: PhantomType) {
        let mut lifetimes: Vec<String> = Vec::new();
        let mut type_params: Vec<String> = Vec::new();
        let n = self.params.len();
        let mut i: usize = 0;
        while i < n
            invariant
                n == self.params.len(),
                i <= n,
                idents_view(lifetimes@) == lifetime_idents(self.params@.take(i as int)),
                idents_view(type_params@) == type_idents(self.params@.take(i as int)),
            decreases n - i,
        {
            proof {
                lemma_idents_step(self.params@, i as int);
            }
            match &self.params[i] {
                GenericParam::Lifetime { ident } => {
                    proof {
                        lemma_idents_view_push(lifetimes@, *ident);
                    }
                    lifetimes.push(ident.clone());
                },
                GenericParam::Type { ident } => {
                    proof {
                        lemma_idents_view_push(type_params@, *ident);
                    }
                    type_params.push(ident.clone());
                },
                GenericParam::Const { .. } => {},
            }
            i = i + 1;
        }
        proof {
            assert(self.params@.take(n as int) =~= self.params@);
        }
        PhantomType { lifetimes, type_params }
    }
}

} // verus!
