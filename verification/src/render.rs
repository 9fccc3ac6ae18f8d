//! Rendering of a phantom marker into its source text.
//!
//! The text follows the token-by-token form of the marker, one space between
//! tokens, exactly as the expression
//! `::core::marker::PhantomData<fn(&'a (), &'b ()) -> (T, U)>` reads when
//! spelled out token for token.

use vstd::prelude::*;
use vstd::string::StringExecFns;

use crate::phantom::PhantomType;

verus! {

/// The text of one unit-reference argument, `& 'l ()`, for lifetime `l`.
pub open spec fn rendered_ref(l: Seq<char>) -> Seq<char> {
    "& '"@ + l + " ()"@
}

/// The argument list of the inner function pointer: one unit reference per
/// lifetime, in order, separated by ` , `.
pub open spec fn rendered_refs(lts: Seq<Seq<char>>) -> Seq<char>
    decreases lts.len(),
{
    if lts.len() == 0 {
        Seq::<char>::empty()
    } else if lts.len() == 1 {
        rendered_ref(lts[0])
    } else {
        rendered_refs(lts.drop_last()) + " , "@ + rendered_ref(lts.last())
    }
}

/// The body of the returned tuple: the type identifiers, in order,
/// separated by ` , `. A single identifier stands alone, so the surrounding
/// parentheses make a one-element tuple of it.
pub open spec fn rendered_tuple(tys: Seq<Seq<char>>) -> Seq<char>
    decreases tys.len(),
{
    if tys.len() == 0 {
        Seq::<char>::empty()
    } else if tys.len() == 1 {
        tys[0]
    } else {
        rendered_tuple(tys.drop_last()) + " , "@ + tys.last()
    }
}

/// The complete rendered marker for the given lifetime and type-parameter
/// identifiers.
pub open spec fn rendered_marker(lts: Seq<Seq<char>>, tys: Seq<Seq<char>>) -> Seq<char> {
    ":: core :: marker :: PhantomData < fn ("@ + rendered_refs(lts) + ") -> ("@ + rendered_tuple(
        tys,
    ) + ") >"@
}

/// A lone type parameter renders as a one-element tuple, never as a bare
/// identifier: the tuple body of a one-element list is just the identifier,
/// and the parentheses of the marker template always surround it.
pub proof fn lemma_single_type_tuple(t: Seq<char>)
    ensures
        rendered_tuple(seq![t]) == t,
{
}

impl PhantomType {
    /// Renders the marker as source text, token by token.
    pub fn render(&self) -> (r: String)
        ensures
            r@ == rendered_marker(self.lifetime_names(), self.type_names()),
    {
        let ghost lts = self.lifetime_names();
        let ghost tys = self.type_names();
        let mut out = String::new();
        out.append(":: core :: marker :: PhantomData < fn (");
        let n = self.lifetimes.len();
        let mut i: usize = 0;
        proof {
            assert(out@ =~= ":: core :: marker :: PhantomData < fn ("@ + rendered_refs(
                lts.take(0),
            ));
        }
        while i < n
            invariant
                n == self.lifetimes.len(),
                i <= n,
                lts == self.lifetime_names(),
                out@ == ":: core :: marker :: PhantomData < fn ("@ + rendered_refs(
                    lts.take(i as int),
                ),
            decreases n - i,
        {
            if i > 0 {
                out.append(" , ");
            }
            out.append("& '");
            out.append(self.lifetimes[i].as_str());
            out.append(" ()");
            proof {
                assert(lts.take(i + 1).drop_last() =~= lts.take(i as int));
                assert(lts.take(i + 1).last() == lts[i as int]);
                assert(out@ =~= ":: core :: marker :: PhantomData < fn ("@ + rendered_refs(
                    lts.take(i + 1),
                ));
            }
            i = i + 1;
        }
        proof {
            assert(lts.take(n as int) =~= lts);
        }
        out.append(") -> (");
        let m = self.type_params.len();
        let mut j: usize = 0;
        proof {
            assert(out@ =~= ":: core :: marker :: PhantomData < fn ("@ + rendered_refs(lts)
                + ") -> ("@ + rendered_tuple(tys.take(0)));
        }
        while j < m
            invariant
                m == self.type_params.len(),
                j <= m,
                lts == self.lifetime_names(),
                tys == self.type_names(),
                out@ == ":: core :: marker :: PhantomData < fn ("@ + rendered_refs(lts)
                    + ") -> ("@ + rendered_tuple(tys.take(j as int)),
            decreases m - j,
        {
            if j > 0 {
                out.append(" , ");
            }
            out.append(self.type_params[j].as_str());
            proof {
                assert(tys.take(j + 1).drop_last() =~= tys.take(j as int));
                assert(tys.take(j + 1).last() == tys[j as int]);
                assert(out@ =~= ":: core :: marker :: PhantomData < fn ("@ + rendered_refs(lts)
                    + ") -> ("@ + rendered_tuple(tys.take(j + 1)));
            }
            j = j + 1;
        }
        proof {
            assert(tys.take(m as int) =~= tys);
        }
        out.append(") >");
        proof {
            assert(out@ =~= rendered_marker(lts, tys));
        }
        out
    }
}

} // verus!
