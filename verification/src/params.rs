//! The model of a generic parameter list: an ordered sequence of lifetime,
//! type and const parameters, each carrying its identifier.

use vstd::prelude::*;

verus! {

/// One parameter of a generic parameter list.
///
/// Only the identifier is kept: bounds and defaults play no part in the
/// phantom marker, so they are dropped before a list reaches this crate's
/// types. A lifetime identifier is stored without its leading apostrophe.
pub enum GenericParam {
    /// A lifetime parameter such as `'a`.
    Lifetime { ident: String },
    /// A type parameter such as `T`.
    Type { ident: String },
    /// A const parameter such as `const N: usize`.
    Const { ident: String },
}

/// A generic parameter list, in declaration order, with the three kinds
/// freely interleaved.
pub struct GenericParams {
    pub params: Vec<GenericParam>,
}

/// The identifier a parameter carries, as a sequence of characters.
pub open spec fn param_ident(p: GenericParam) -> Seq<char> {
    match p {
        GenericParam::Lifetime { ident } => ident@,
        GenericParam::Type { ident } => ident@,
        GenericParam::Const { ident } => ident@,
    }
}

/// The subsequence of lifetime parameters, in declaration order.
pub open spec fn lifetime_params_of(ps: Seq<GenericParam>) -> Seq<GenericParam> {
    ps.filter(|p: GenericParam| p is Lifetime)
}

/// The subsequence of type parameters, in declaration order.
pub open spec fn type_params_of(ps: Seq<GenericParam>) -> Seq<GenericParam> {
    ps.filter(|p: GenericParam| p is Type)
}

/// The identifiers of a parameter sequence, element by element.
pub open spec fn idents_of(ps: Seq<GenericParam>) -> Seq<Seq<char>> {
    ps.map_values(|p: GenericParam| param_ident(p))
}

/// The lifetime identifiers of a parameter list, in declaration order.
pub open spec fn lifetime_idents(ps: Seq<GenericParam>) -> Seq<Seq<char>> {
    idents_of(lifetime_params_of(ps))
}

/// The type-parameter identifiers of a parameter list, in declaration order.
pub open spec fn type_idents(ps: Seq<GenericParam>) -> Seq<Seq<char>> {
    idents_of(type_params_of(ps))
}

/// The identifiers of a vector of strings, as character sequences.
pub open spec fn idents_view(v: Seq<String>) -> Seq<Seq<char>> {
    v.map_values(|s: String| s@)
}

/// A parameter list with no lifetime and no type parameters — in particular
/// one made of const parameters alone, or the empty list — projects to an
/// empty reference list and an empty tuple.
pub proof fn lemma_only_consts(ps: Seq<GenericParam>)
    requires
        forall|i: int| 0 <= i < ps.len() ==> !(ps[i] is Lifetime) && !(ps[i] is Type),
    ensures
        lifetime_idents(ps) == Seq::<Seq<char>>::empty(),
        type_idents(ps) == Seq::<Seq<char>>::empty(),
    decreases ps.len(),
{
    reveal_with_fuel(Seq::<GenericParam>::filter, 2);
    if ps.len() > 0 {
        lemma_only_consts(ps.drop_last());
    }
    assert(idents_of(Seq::<GenericParam>::empty()) =~= Seq::<Seq<char>>::empty());
}

/// A parameter list without type parameters projects to an empty tuple,
/// and its reference list carries exactly the identifier of each lifetime
/// parameter, in declaration order.
pub proof fn lemma_lifetimes_only(ps: Seq<GenericParam>)
    requires
        forall|i: int| 0 <= i < ps.len() ==> !(ps[i] is Type),
    ensures
        type_idents(ps) == Seq::<Seq<char>>::empty(),
        lifetime_idents(ps).len() == lifetime_params_of(ps).len(),
        forall|k: int|
            0 <= k < lifetime_params_of(ps).len() ==> lifetime_idents(ps)[k] == param_ident(
                lifetime_params_of(ps)[k],
            ),
    decreases ps.len(),
{
    reveal_with_fuel(Seq::<GenericParam>::filter, 2);
    if ps.len() > 0 {
        lemma_lifetimes_only(ps.drop_last());
    }
    assert(idents_of(Seq::<GenericParam>::empty()) =~= Seq::<Seq<char>>::empty());
}

/// A parameter list without lifetime parameters projects to an empty
/// reference list, and its tuple carries exactly the identifier of each
/// type parameter, in declaration order.
pub proof fn lemma_types_only(ps: Seq<GenericParam>)
    requires
        forall|i: int| 0 <= i < ps.len() ==> !(ps[i] is Lifetime),
    ensures
        lifetime_idents(ps) == Seq::<Seq<char>>::empty(),
        type_idents(ps).len() == type_params_of(ps).len(),
        forall|k: int|
            0 <= k < type_params_of(ps).len() ==> type_idents(ps)[k] == param_ident(
                type_params_of(ps)[k],
            ),
    decreases ps.len(),
{
    reveal_with_fuel(Seq::<GenericParam>::filter, 2);
    if ps.len() > 0 {
        lemma_types_only(ps.drop_last());
    }
    assert(idents_of(Seq::<GenericParam>::empty()) =~= Seq::<Seq<char>>::empty());
}

/// Inserting a const parameter anywhere in a list alters neither the
/// reference list nor the tuple.
pub proof fn lemma_const_insert(ps: Seq<GenericParam>, i: int, p: GenericParam)
    requires
        0 <= i <= ps.len(),
        p is Const,
    ensures
        lifetime_params_of(ps.insert(i, p)) == lifetime_params_of(ps),
        type_params_of(ps.insert(i, p)) == type_params_of(ps),
        lifetime_idents(ps.insert(i, p)) == lifetime_idents(ps),
        type_idents(ps.insert(i, p)) == type_idents(ps),
    decreases ps.len(),
{
    reveal_with_fuel(Seq::<GenericParam>::filter, 2);
    let q = ps.insert(i, p);
    if i == ps.len() {
        assert(q.drop_last() =~= ps);
        assert(q.last() == p);
        assert(lifetime_params_of(q) == lifetime_params_of(ps));
        assert(type_params_of(q) == type_params_of(ps));
    } else {
        assert(ps.len() > 0);
        let ps0 = ps.drop_last();
        let q0 = ps0.insert(i, p);
        assert(q.last() == ps.last());
        assert(q.drop_last() =~= q0);
        lemma_const_insert(ps0, i, p);
        assert(lifetime_params_of(q) == lifetime_params_of(ps));
        assert(type_params_of(q) == type_params_of(ps));
    }
}

/// Removing a const parameter from a list alters neither the reference
/// list nor the tuple.
pub proof fn lemma_const_remove(ps: Seq<GenericParam>, i: int)
    requires
        0 <= i < ps.len(),
        ps[i] is Const,
    ensures
        lifetime_idents(ps.remove(i)) == lifetime_idents(ps),
        type_idents(ps.remove(i)) == type_idents(ps),
{
    assert(ps.remove(i).insert(i, ps[i]) =~= ps);
    lemma_const_insert(ps.remove(i), i, ps[i]);
}

/// Each kind maps to its part of the output independently: two lists with
/// the same lifetime parameters in the same order get the same reference
/// list, however their other parameters differ, and two lists with the same
/// type parameters in the same order get the same tuple. Interleaving the
/// kinds differently therefore never changes either per-kind order.
pub proof fn lemma_per_kind_independence(ps1: Seq<GenericParam>, ps2: Seq<GenericParam>)
    ensures
        lifetime_params_of(ps1) == lifetime_params_of(ps2) ==> lifetime_idents(ps1)
            == lifetime_idents(ps2),
        type_params_of(ps1) == type_params_of(ps2) ==> type_idents(ps1) == type_idents(ps2),
{
}

impl GenericParams {
    /// An empty parameter list.
    pub fn new() -> (r: GenericParams)
        ensures
            r.params@ =~= Seq::<GenericParam>::empty(),
    {
        GenericParams { params: Vec::new() }
    }

    /// Appends one parameter at the end of the list.
    pub fn push(&mut self, p: GenericParam)
        ensures
            final(self).params@ == old(self).params@.push(p),
    {
        self.params.push(p);
    }
}

} // verus!
