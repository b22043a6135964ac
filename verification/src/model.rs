//! Models: index building for wavefront obj geometries.
//!
//! A geometry is a list of shapes (points, lines and triangles) whose corners refer, by index,
//! to the positions, texture coordinates and normals of an object. Rendering wants a single index
//! per corner, into one buffer of interleaved vertices. This module regenerates such indices:
//! every distinct `(position, normal, texture)` triplet becomes one vertex, in the order in which
//! the triplets are first met, and every corner gets the index of its triplet's vertex.

use std::collections::BTreeMap;
use std::path::PathBuf;
use vstd::prelude::*;

pub use wavefront_obj::ParseError;

verus! {

#[verifier::external_type_specification]
#[verifier::external_body]
pub struct ExParseError(wavefront_obj::ParseError);

/// An index into the vertex array, with optional indices into the texture and normal arrays.
pub type VTNIndex = (usize, Option<usize>, Option<usize>);

/// A vertex triplet: position, normal and optional texture coordinates indices.
pub type Key = (usize, usize, Option<usize>);

/// A primitive of a geometry, given by the indices of its corners.
#[derive(Clone, Copy, Debug, PartialEq)]
pub enum Primitive {
    /// A point specified by its position.
    Point(VTNIndex),
    /// A line specified by its endpoints.
    Line(VTNIndex, VTNIndex),
    /// A triangle specified by its three vertices.
    Triangle(VTNIndex, VTNIndex, VTNIndex),
}

/// A shape of a geometry.
#[derive(Clone, Copy, Debug, PartialEq)]
pub struct Shape {
    /// The primitive of the shape.
    pub primitive: Primitive,
}

/// A geometry: the shapes it is composed of.
#[derive(Debug, PartialEq)]
pub struct Geometry {
    pub shapes: Vec<Shape>,
}

/// How the vertices of a tessellation are connected.
#[derive(Clone, Copy, Debug, PartialEq, Eq, Structural)]
pub enum Mode {
    Point,
    Line,
    Triangle,
}

/// Errors that might occur while loading a model.
#[derive(Debug, PartialEq)]
pub enum ModelError {
    FileNotFound(PathBuf, String),
    ParseFailed(ParseError),
    MultiObjects,
    UnsupportedVertex,
    NoShape,
}

/// The triplet of a corner; none if the corner has no normal.
pub open spec fn spec_key(i: VTNIndex) -> Option<Key> {
    match i {
        (pi, ti, Some(ni)) => Some((pi, ni, ti)),
        _ => None,
    }
}

/// Convert from a wavefront obj corner index into our triplet, raising error if not possible.
pub fn vtnindex_to_key(i: VTNIndex) -> (res: Result<Key, ModelError>)
    ensures
        match res {
            Ok(k) => spec_key(i) == Some(k),
            Err(e) => spec_key(i) is None && e is UnsupportedVertex,
        },
{
    match i {
        (pi, ti, Some(ni)) => Ok((pi, ni, ti)),
        _ => Err(ModelError::UnsupportedVertex),
    }
}

/// The corners of a primitive, in order.
pub open spec fn corners(p: Primitive) -> Seq<VTNIndex> {
    match p {
        Primitive::Point(a) => seq![a],
        Primitive::Line(a, b) => seq![a, b],
        Primitive::Triangle(a, b, c) => seq![a, b, c],
    }
}

/// The triplets of the corners of `c`; none if a corner has no normal.
pub open spec fn corner_keys(c: Seq<VTNIndex>) -> Option<Seq<Key>>
    decreases c.len(),
{
    if c.len() == 0 {
        Some(Seq::empty())
    } else {
        match (corner_keys(c.drop_last()), spec_key(c.last())) {
            (Some(ks), Some(k)) => Some(ks.push(k)),
            _ => None,
        }
    }
}

/// The triplets of the corners of a primitive; none if a corner has no normal.
pub open spec fn prim_keys(p: Primitive) -> Option<Seq<Key>> {
    corner_keys(corners(p))
}

proof fn lemma_corner_keys_push(c: Seq<VTNIndex>, x: VTNIndex)
    ensures
        corner_keys(c.push(x)) == match (corner_keys(c), spec_key(x)) {
            (Some(ks), Some(k)) => Some(ks.push(k)),
            _ => None::<Seq<Key>>,
        },
{
    assert(c.push(x).drop_last() =~= c);
}

/// Create triplet keys from a primitive. If any corner doesn’t have all the triplet information
/// (position, normal), a [`ModelError::UnsupportedVertex`] error is returned instead.
pub fn create_keys_from_primitive(prim: Primitive) -> (res: Result<Vec<Key>, ModelError>)
    ensures
        match res {
            Ok(v) => prim_keys(prim) == Some(v@),
            Err(e) => prim_keys(prim) is None && e is UnsupportedVertex,
        },
{
    let ghost e = Seq::<VTNIndex>::empty();
    assert(corner_keys(e) == Some(Seq::<Key>::empty()));
    match prim {
        Primitive::Point(i) => {
            proof {
                lemma_corner_keys_push(e, i);
                assert(corners(prim) =~= e.push(i));
            }
            let a = vtnindex_to_key(i)?;
            let v = vec![a];
            assert(v@ =~= Seq::<Key>::empty().push(a));
            Ok(v)
        },
        Primitive::Line(i, j) => {
            proof {
                lemma_corner_keys_push(e, i);
                lemma_corner_keys_push(e.push(i), j);
                assert(corners(prim) =~= e.push(i).push(j));
            }
            let a = vtnindex_to_key(i)?;
            let b = vtnindex_to_key(j)?;
            let v = vec![a, b];
            assert(v@ =~= Seq::<Key>::empty().push(a).push(b));
            Ok(v)
        },
        Primitive::Triangle(i, j, k) => {
            proof {
                lemma_corner_keys_push(e, i);
                lemma_corner_keys_push(e.push(i), j);
                lemma_corner_keys_push(e.push(i).push(j), k);
                assert(corners(prim) =~= e.push(i).push(j).push(k));
            }
            let a = vtnindex_to_key(i)?;
            let b = vtnindex_to_key(j)?;
            let c = vtnindex_to_key(k)?;
            let v = vec![a, b, c];
            assert(v@ =~= Seq::<Key>::empty().push(a).push(b).push(c));
            Ok(v)
        },
    }
}

/// The tessellation mode of a primitive.
pub open spec fn spec_mode(p: Primitive) -> Mode {
    match p {
        Primitive::Point(_) => Mode::Point,
        Primitive::Line(_, _) => Mode::Line,
        Primitive::Triangle(_, _, _) => Mode::Triangle,
    }
}

/// Guess the tessellation mode of a primitive.
pub fn guess_mode(prim: Primitive) -> (res: Mode)
    ensures
        res == spec_mode(prim),
{
    match prim {
        Primitive::Point(_) => Mode::Point,
        Primitive::Line(_, _) => Mode::Line,
        Primitive::Triangle(_, _, _) => Mode::Triangle,
    }
}

/// The triplets of all the corners of the primitives `ps`, in order; none if a corner has no
/// normal.
pub open spec fn geometry_keys(ps: Seq<Primitive>) -> Option<Seq<Key>>
    decreases ps.len(),
{
    if ps.len() == 0 {
        Some(Seq::empty())
    } else {
        match (geometry_keys(ps.drop_last()), prim_keys(ps.last())) {
            (Some(a), Some(b)) => Some(a + b),
            _ => None,
        }
    }
}

/// The vertex triplets and the indices regenerated from a list of corner triplets: a triplet
/// met for the first time is appended to the vertices, and every corner gets the position of its
/// triplet among the vertices.
pub open spec fn index_keys(keys: Seq<Key>) -> (Seq<Key>, Seq<u32>)
    decreases keys.len(),
{
    if keys.len() == 0 {
        (Seq::empty(), Seq::empty())
    } else {
        let (unique, indices) = index_keys(keys.drop_last());
        let k = keys.last();
        if unique.contains(k) {
            (unique, indices.push(unique.index_of(k) as u32))
        } else {
            (unique.push(k), indices.push(unique.len() as u32))
        }
    }
}

/// The primitives of a list of shapes.
pub open spec fn primitives(shapes: Seq<Shape>) -> Seq<Primitive> {
    shapes.map_values(|s: Shape| s.primitive)
}

/// The triplets of a geometry and the indices regenerated from them, with the tessellation mode
/// of its first shape; or, for a geometry without shape or with a corner without normal, the
/// error that loading it gives.
pub open spec fn converted_geometry(ps: Seq<Primitive>) -> Result<(Seq<Key>, Seq<u32>, Mode), ModelFailure> {
    if ps.len() == 0 {
        Err(ModelFailure::NoShape)
    } else {
        match geometry_keys(ps) {
            Some(keys) => {
                let (unique, indices) = index_keys(keys);
                Ok((unique, indices, spec_mode(ps[0])))
            },
            None => Err(ModelFailure::UnsupportedVertex),
        }
    }
}

/// The errors that converting a geometry can give.
pub enum ModelFailure {
    UnsupportedVertex,
    NoShape,
}

/// The failure an error stands for, if it is one that converting a geometry gives.
pub open spec fn failure_of(e: ModelError) -> Option<ModelFailure> {
    match e {
        ModelError::UnsupportedVertex => Some(ModelFailure::UnsupportedVertex),
        ModelError::NoShape => Some(ModelFailure::NoShape),
        _ => None,
    }
}

/// The index map of a list of distinct vertex triplets: each triplet maps to its position.
pub open spec fn indexes(m: Map<Key, u32>, unique: Seq<Key>) -> bool {
    &&& unique.no_duplicates()
    &&& forall|k: Key| #[trigger] m.contains_key(k) <==> unique.contains(k)
    &&& forall|p: int| 0 <= p < unique.len() ==> m[#[trigger] unique[p]] == p as u32
}

/// Vertex triplets compare as a total order, as the ordered map that indexes them needs.
pub open spec fn keys_ordered() -> bool {
    vstd::laws_cmp::obeys_cmp::<Key>()
}

proof fn lemma_key_order()
    ensures
        keys_ordered(),
{
    broadcast use vstd::laws_cmp::group_laws_cmp;

}

proof fn lemma_index_of_distinct(u: Seq<Key>, p: int)
    requires
        u.no_duplicates(),
        0 <= p < u.len(),
    ensures
        u.index_of(u[p]) == p,
{
    assert(u.contains(u[p]));
    let i = u.index_of(u[p]);
    assert(0 <= i < u.len() && u[i] == u[p]);
}

proof fn lemma_geometry_keys_none(ps: Seq<Primitive>, n: int)
    requires
        0 <= n <= ps.len(),
        geometry_keys(ps.take(n)) is None,
    ensures
        geometry_keys(ps) is None,
    decreases ps.len() - n,
{
    if n < ps.len() {
        assert(ps.take(n + 1).drop_last() =~= ps.take(n));
        lemma_geometry_keys_none(ps, n + 1);
    } else {
        assert(ps.take(n) =~= ps);
    }
}

/// Convert a geometry into its vertex triplets, the indices of its corners into them and its
/// tessellation mode.
///
/// This function regenerates the indices on the fly based on which triplets are used in the
/// shapes of the geometry: every distinct triplet becomes one vertex, in the order of first
/// use. It’s used to create independent tessellations.
pub fn convert_geometry(geo: &Geometry) -> (res: Result<(Vec<Key>, Vec<u32>, Mode), ModelError>)
    ensures
        match res {
            Ok((unique, indices, mode)) => converted_geometry(primitives(geo.shapes@)) == Ok::<
                (Seq<Key>, Seq<u32>, Mode),
                ModelFailure,
            >((unique@, indices@, mode)),
            Err(e) => failure_of(e) matches Some(f) && converted_geometry(primitives(geo.shapes@))
                == Err::<(Seq<Key>, Seq<u32>, Mode), ModelFailure>(f),
        },
{
    broadcast use vstd::std_specs::btree::group_btree_axioms;

    let ghost ps = primitives(geo.shapes@);
    if geo.shapes.len() == 0 {
        return Err(ModelError::NoShape);
    }
    proof {
        lemma_key_order();
    }
    let mut vertices: Vec<Key> = Vec::new();
    let mut indices: Vec<u32> = Vec::new();
    let mut index_map: BTreeMap<Key, u32> = BTreeMap::new();
    let mode = guess_mode(geo.shapes[0].primitive);
    let ghost mut ks: Seq<Key> = Seq::empty();
    let mut j: usize = 0;
    assert(ps.take(0) =~= Seq::<Primitive>::empty());
    assert(index_keys(ks) == (vertices@, indices@));
    while j < geo.shapes.len()
        invariant
            0 < geo.shapes@.len(),
            j <= geo.shapes@.len(),
            ps == primitives(geo.shapes@),
            keys_ordered(),
            mode == spec_mode(ps[0]),
            geometry_keys(ps.take(j as int)) == Some(ks),
            index_keys(ks) == (vertices@, indices@),
            indexes(index_map@, vertices@),
        decreases geo.shapes@.len() - j,
    {
        let prim = geo.shapes[j].primitive;
        assert(ps.take(j + 1).drop_last() =~= ps.take(j as int));
        assert(ps.take(j + 1).last() == prim);
        let keys = match create_keys_from_primitive(prim) {
            Ok(keys) => keys,
            Err(e) => {
                proof {
                    lemma_geometry_keys_none(ps, j + 1);
                }
                return Err(e);
            },
        };
        let ghost base = ks;
        let mut m: usize = 0;
        assert(base + keys@.take(0) =~= base);
        while m < keys.len()
            invariant
                m <= keys@.len(),
                keys_ordered(),
                index_keys(base + keys@.take(m as int)) == (vertices@, indices@),
                indexes(index_map@, vertices@),
            decreases keys@.len() - m,
        {
            let key = keys[m];
            let ghost cur = base + keys@.take(m as int);
            assert(base + keys@.take(m + 1) =~= cur.push(key));
            assert(cur.push(key).drop_last() =~= cur);
            let ghost u = vertices@;
            match index_map.get(&key) {
                Some(index) => {
                    let index = *index;
                    proof {
                        let p = choose|p: int| 0 <= p < u.len() && u[p] == key;
                        lemma_index_of_distinct(u, p);
                    }
                    indices.push(index);
                },
                None => {
                    let index = vertices.len() as u32;
                    vertices.push(key);
                    indices.push(index);
                    index_map.insert(key, index);
                    proof {
                        assert forall|k: Key| #[trigger] index_map@.contains_key(k) <==> vertices@.contains(
                            k,
                        ) by {
                            if k == key {
                                assert(vertices@[u.len() as int] == key);
                            } else if u.contains(k) {
                                let p = choose|p: int| 0 <= p < u.len() && u[p] == k;
                                assert(vertices@[p] == k);
                            } else if vertices@.contains(k) {
                                let p = choose|p: int| 0 <= p < vertices@.len() && vertices@[p] == k;
                                assert(u[p] == k);
                            }
                        }
                        assert forall|p: int| 0 <= p < vertices@.len() implies index_map@[
                            #[trigger] vertices@[p]] == p as u32 by {
                            if p < u.len() {
                                assert(u[p] != key);
                            }
                        }
                        assert(vertices@.no_duplicates()) by {
                            assert forall|a: int, b: int|
                                0 <= a < vertices@.len() && 0 <= b < vertices@.len() && a != b
                                implies vertices@[a] != vertices@[b] by {
                                if a == u.len() {
                                    assert(!u.contains(vertices@[b]) ==> vertices@[b] != key || b == u.len());
                                } else if b == u.len() {
                                    assert(u[a] != key);
                                }
                            }
                        }
                    }
                },
            }
            m = m + 1;
        }
        assert(base + keys@.take(keys@.len() as int) =~= base + keys@);
        proof {
            ks = base + keys@;
        }
        j = j + 1;
    }
    assert(ps.take(geo.shapes@.len() as int) =~= ps);
    Ok((vertices, indices, mode))
}

/// Regenerated indices address the right vertices: the vertices are distinct, they are exactly
/// the triplets that some corner uses, there is one index per corner and, as long as the number
/// of vertices fits the 32-bit indices, the index of each corner designates the vertex of its
/// own triplet.
pub proof fn lemma_index_keys_addresses(keys: Seq<Key>)
    ensures
        index_keys(keys).0.no_duplicates(),
        index_keys(keys).1.len() == keys.len(),
        index_keys(keys).0.len() <= keys.len(),
        forall|k: Key| index_keys(keys).0.contains(k) <==> keys.contains(k),
        index_keys(keys).0.len() <= 0x1_0000_0000 ==> forall|i: int|
            0 <= i < keys.len() ==> (#[trigger] index_keys(keys).1[i] as int) < index_keys(
                keys,
            ).0.len() && index_keys(keys).0[index_keys(keys).1[i] as int] == keys[i],
    decreases keys.len(),
{
    if keys.len() > 0 {
        let prev = keys.drop_last();
        lemma_index_keys_addresses(prev);
        let (u0, ix0) = index_keys(prev);
        let (u, ix) = index_keys(keys);
        let k = keys.last();
        assert forall|x: Key| keys.contains(x) <==> (prev.contains(x) || x == k) by {
            if keys.contains(x) {
                let i = choose|i: int| 0 <= i < keys.len() && keys[i] == x;
                if i < keys.len() - 1 {
                    assert(prev[i] == x);
                }
            }
            if prev.contains(x) {
                let i = choose|i: int| 0 <= i < prev.len() && prev[i] == x;
                assert(keys[i] == x);
            }
            if x == k {
                assert(keys[keys.len() - 1] == x);
            }
        }
        if u0.contains(k) {
            let p = u0.index_of(k);
            assert(0 <= p < u0.len() && u0[p] == k);
            if u.len() <= 0x1_0000_0000 {
                assert forall|i: int| 0 <= i < keys.len() implies (ix[i] as int) < u.len()
                    && u[ix[i] as int] == keys[i] by {
                    if i < keys.len() - 1 {
                        assert(prev[i] == keys[i]);
                        assert(ix[i] == ix0[i]);
                    } else {
                        assert(ix[i] == p as u32);
                    }
                }
            }
        } else {
            assert forall|x: Key| u.contains(x) <==> (u0.contains(x) || x == k) by {
                if u.contains(x) {
                    let i = choose|i: int| 0 <= i < u.len() && u[i] == x;
                    if i < u0.len() {
                        assert(u0[i] == x);
                    }
                }
                if u0.contains(x) {
                    let i = choose|i: int| 0 <= i < u0.len() && u0[i] == x;
                    assert(u[i] == x);
                }
                if x == k {
                    assert(u[u0.len() as int] == x);
                }
            }
            assert forall|a: int, b: int| 0 <= a < u.len() && 0 <= b < u.len() && a != b implies u[a]
                != u[b] by {
                if a == u0.len() {
                    assert(u0[b] != k);
                } else if b == u0.len() {
                    assert(u0[a] != k);
                } else {
                    assert(u0[a] != u0[b]);
                }
            }
            if u.len() <= 0x1_0000_0000 {
                assert forall|i: int| 0 <= i < keys.len() implies (ix[i] as int) < u.len()
                    && u[ix[i] as int] == keys[i] by {
                    if i < keys.len() - 1 {
                        assert(prev[i] == keys[i]);
                        assert(ix[i] == ix0[i]);
                        assert(u[ix0[i] as int] == u0[ix0[i] as int]);
                    } else {
                        assert(ix[i] == u0.len() as u32);
                    }
                }
            }
        }
    }
}

} // verus!
