//! Element-wise translation of vectors and options, and the relations that
//! describe it.

use vstd::prelude::*;

verus! {

/// `dst` holds, position by position, a translation of `src` under `rel`.
pub open spec fn seq_mapped<A, B>(src: Seq<A>, dst: Seq<B>, rel: spec_fn(A, B) -> bool) -> bool {
    &&& src.len() == dst.len()
    &&& forall|i: int| 0 <= i < src.len() ==> #[trigger] rel(src[i], dst[i])
}

/// Both absent, or both present with `dst` a translation of `src` under `rel`.
pub open spec fn option_mapped<A, B>(src: Option<A>, dst: Option<B>, rel: spec_fn(A, B) -> bool) -> bool {
    match (src, dst) {
        (None, None) => true,
        (Some(a), Some(b)) => rel(a, b),
        _ => false,
    }
}

/// Translates every element of `v` with `f`, keeping the order; `rel` is
/// what `f` guarantees of each input and output.
pub(crate) fn map_vec<A, B, F: Fn(A) -> B>(v: Vec<A>, f: F, Ghost(rel): Ghost<spec_fn(A, B) -> bool>) -> (r: Vec<B>)
    requires
        forall|a: A| #[trigger] f.requires((a,)),
        forall|a: A, b: B| #[trigger] f.ensures((a,), b) ==> rel(a, b),
    ensures
        seq_mapped(v@, r@, rel),
{
    let ghost src = v@;
    let mut r: Vec<B> = Vec::new();
    for a in iter: v
        invariant
            forall|a: A| #[trigger] f.requires((a,)),
            iter.seq() == src,
            r@.len() == iter.index(),
            forall|i: int| 0 <= i < iter.index() ==> #[trigger] f.ensures((src[i],), r@[i]),
    {
        let b = f(a);
        r.push(b);
    }
    assert forall|i: int| 0 <= i < src.len() implies #[trigger] rel(src[i], r@[i]) by {
        assert(f.ensures((src[i],), r@[i]));
    }
    r
}

/// Translates the value of `o`, if any, with `f`; `rel` is what `f`
/// guarantees of each input and output.
pub(crate) fn map_option<A, B, F: Fn(A) -> B>(o: Option<A>, f: F, Ghost(rel): Ghost<spec_fn(A, B) -> bool>) -> (r: Option<B>)
    requires
        forall|a: A| #[trigger] f.requires((a,)),
        forall|a: A, b: B| #[trigger] f.ensures((a,), b) ==> rel(a, b),
    ensures
        option_mapped(o, r, rel),
{
    match o {
        Some(a) => Some(f(a)),
        None => None,
    }
}

} // verus!
