//! Overlay geometry: the triangles and quads of an overlay laid out as the list of triangle
//! corners that the overlay draws.

use vstd::prelude::*;

verus! {

/// The corners of a triangle, in order.
pub open spec fn triangle_corners<V>(t: (V, V, V)) -> Seq<V> {
    seq![t.0, t.1, t.2]
}

/// The corners of a quad `a, b, c, d` as the two triangles `a, b, c` and `c, b, d`.
pub open spec fn quad_corners<V>(q: (V, V, V, V)) -> Seq<V> {
    seq![q.0, q.1, q.2, q.2, q.1, q.3]
}

/// The corners of triangles, one triangle after the other.
pub open spec fn triangles_corners<V>(ts: Seq<(V, V, V)>) -> Seq<V>
    decreases ts.len(),
{
    if ts.len() == 0 {
        Seq::empty()
    } else {
        triangles_corners(ts.drop_last()) + triangle_corners(ts.last())
    }
}

/// The corners of quads, one quad after the other.
pub open spec fn quads_corners<V>(qs: Seq<(V, V, V, V)>) -> Seq<V>
    decreases qs.len(),
{
    if qs.len() == 0 {
        Seq::empty()
    } else {
        quads_corners(qs.drop_last()) + quad_corners(qs.last())
    }
}

/// The corners that the overlay draws: those of the triangles, three each, then those of the
/// quads, six each, as two triangles sharing the diagonal from the second to the third corner.
pub fn dispatch_corners<V: Copy>(triangles: &[(V, V, V)], quads: &[(V, V, V, V)]) -> (res: Vec<V>)
    ensures
        res@ == triangles_corners(triangles@) + quads_corners(quads@),
{
    let mut res: Vec<V> = Vec::new();
    let mut i: usize = 0;
    assert(triangles@.take(0) =~= Seq::<(V, V, V)>::empty());
    while i < triangles.len()
        invariant
            i <= triangles@.len(),
            res@ == triangles_corners(triangles@.take(i as int)),
        decreases triangles@.len() - i,
    {
        let t = triangles[i];
        assert(triangles@.take(i + 1).drop_last() =~= triangles@.take(i as int));
        res.push(t.0);
        res.push(t.1);
        res.push(t.2);
        assert(res@ =~= triangles_corners(triangles@.take(i + 1)));
        i = i + 1;
    }
    assert(triangles@.take(triangles@.len() as int) =~= triangles@);
    let ghost tris = res@;
    let mut j: usize = 0;
    assert(quads@.take(0) =~= Seq::<(V, V, V, V)>::empty());
    assert(res@ =~= tris + quads_corners(quads@.take(0)));
    while j < quads.len()
        invariant
            j <= quads@.len(),
            res@ == tris + quads_corners(quads@.take(j as int)),
        decreases quads@.len() - j,
    {
        let q = quads[j];
        assert(quads@.take(j + 1).drop_last() =~= quads@.take(j as int));
        res.push(q.0);
        res.push(q.1);
        res.push(q.2);
        res.push(q.2);
        res.push(q.1);
        res.push(q.3);
        assert(res@ =~= tris + quads_corners(quads@.take(j + 1)));
        j = j + 1;
    }
    assert(quads@.take(quads@.len() as int) =~= quads@);
    res
}

} // verus!
