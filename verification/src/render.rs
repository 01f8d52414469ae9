//! The wireframe renderer.
//!
//! The cube topology is fixed: vertices 0 to 3 form the front face, 4 to 7
//! the back face, and vertex `i` connects to vertex `i + 4`. Edge `3*i + j`
//! for `i` in 0..4 is the front-face edge, the back-face edge, and the
//! connecting edge at corner `i`, in that order — twelve edges in all,
//! derived from indices, never stored.

use vstd::prelude::*;
use vstd::multiset::Multiset;
use vstd::seq_lib::{to_multiset_build, to_multiset_len};
use vstd::assert_multisets_equal;
use crate::color::COLOR_WHITE;

verus! {

/// The pair of vertex indices joined by edge `k`, for `k` in 0..12.
pub open spec fn edge_at(k: int) -> (int, int) {
    let i = k / 3;
    let j = k % 3;
    if j == 0 {
        (i, (i + 1) % 4)
    } else if j == 1 {
        (i + 4, (i + 1) % 4 + 4)
    } else {
        (i, i + 4)
    }
}

/// The twelve edges in enumeration order.
pub open spec fn enumerated_edges() -> Seq<(int, int)> {
    Seq::new(12, |k: int| edge_at(k))
}

/// The twelve edges of a box, listed face by face.
pub open spec fn cube_edge_list() -> Seq<(int, int)> {
    seq![
        (0, 1), (1, 2), (2, 3), (3, 0),
        (4, 5), (5, 6), (6, 7), (7, 4),
        (0, 4), (1, 5), (2, 6), (3, 7),
    ]
}

/// The enumeration covers exactly the twelve edges of the box: as a
/// multiset, the emitted index pairs are the face-by-face edge list.
pub proof fn lemma_edge_multiset()
    ensures
        enumerated_edges().len() == 12,
        enumerated_edges().to_multiset() == cube_edge_list().to_multiset(),
{
    broadcast use vstd::multiset::group_multiset_axioms;

    let e = seq![
        (0int, 1int), (4int, 5int), (0int, 4int),
        (1int, 2int), (5int, 6int), (1int, 5int),
        (2int, 3int), (6int, 7int), (2int, 6int),
        (3int, 0int), (7int, 4int), (3int, 7int),
    ];
    assert(enumerated_edges() =~= e);
    assert(Seq::<(int, int)>::empty().to_multiset().len() == 0) by {
        to_multiset_len(Seq::<(int, int)>::empty());
    }
    assert(Seq::<(int, int)>::empty().to_multiset() =~= Multiset::<(int, int)>::empty());
    lemma_multiset_of_push_chain(e);
    lemma_multiset_of_push_chain(cube_edge_list());
    assert_multisets_equal!(e.to_multiset(), cube_edge_list().to_multiset());
}

/// The multiset of a twelve-element sequence, written out as the twelve
/// single insertions.
proof fn lemma_multiset_of_push_chain(s: Seq<(int, int)>)
    requires
        s.len() == 12,
    ensures
        s.to_multiset() == Multiset::<(int, int)>::empty()
            .insert(s[0]).insert(s[1]).insert(s[2]).insert(s[3])
            .insert(s[4]).insert(s[5]).insert(s[6]).insert(s[7])
            .insert(s[8]).insert(s[9]).insert(s[10]).insert(s[11]),
{
    broadcast use vstd::multiset::group_multiset_axioms;

    let p0 = Seq::<(int, int)>::empty();
    let p1 = p0.push(s[0]);
    let p2 = p1.push(s[1]);
    let p3 = p2.push(s[2]);
    let p4 = p3.push(s[3]);
    let p5 = p4.push(s[4]);
    let p6 = p5.push(s[5]);
    let p7 = p6.push(s[6]);
    let p8 = p7.push(s[7]);
    let p9 = p8.push(s[8]);
    let p10 = p9.push(s[9]);
    let p11 = p10.push(s[10]);
    let p12 = p11.push(s[11]);
    assert(s =~= p12);
    assert(p0.to_multiset().len() == 0) by {
        to_multiset_len(p0);
    }
    assert(p0.to_multiset() =~= Multiset::<(int, int)>::empty());
    to_multiset_build(p0, s[0]);
    to_multiset_build(p1, s[1]);
    to_multiset_build(p2, s[2]);
    to_multiset_build(p3, s[3]);
    to_multiset_build(p4, s[4]);
    to_multiset_build(p5, s[5]);
    to_multiset_build(p6, s[6]);
    to_multiset_build(p7, s[7]);
    to_multiset_build(p8, s[8]);
    to_multiset_build(p9, s[9]);
    to_multiset_build(p10, s[10]);
    to_multiset_build(p11, s[11]);
}

/// Every enumerated edge stays inside the eight vertex indices.
pub proof fn lemma_edge_indices_in_range()
    ensures
        forall|k: int|
            0 <= k < 12 ==> 0 <= #[trigger] edge_at(k).0 < 8 && 0 <= edge_at(k).1 < 8,
{
}

/// The twelve index pairs, in enumeration order.
pub fn cube_edges() -> (r: Vec<(usize, usize)>)
    ensures
        r@.len() == 12,
        forall|k: int|
            0 <= k < 12 ==> (#[trigger] r@[k].0 as int, r@[k].1 as int) == edge_at(k),
{
    let mut r: Vec<(usize, usize)> = Vec::new();
    let mut i: usize = 0;
    while i < 4
        invariant
            i <= 4,
            r@.len() == 3 * i,
            forall|k: int|
                0 <= k < 3 * i ==> (#[trigger] r@[k].0 as int, r@[k].1 as int) == edge_at(k),
        decreases 4 - i,
    {
        let i1: usize = (i + 1) % 4;
        r.push((i, i1));
        r.push((i + 4, i1 + 4));
        r.push((i, i + 4));
        i = i + 1;
    }
    r
}

/// A drawable line segment between two screen points, stroked one pixel
/// wide in the edge color.
#[derive(Clone, Copy, PartialEq, Eq, Debug)]
pub struct Segment {
    pub start: (i32, i32),
    pub end: (i32, i32),
}

/// The segment drawn for edge `k` of the given screen vertices.
pub open spec fn segment_at(v: Seq<(i32, i32)>, k: int) -> Segment {
    Segment { start: v[edge_at(k).0], end: v[edge_at(k).1] }
}

/// All twelve segments of a frame, in enumeration order.
pub open spec fn segments_spec(v: Seq<(i32, i32)>) -> Seq<Segment> {
    Seq::new(12, |k: int| segment_at(v, k))
}

/// Enumerate the twelve wireframe segments of the cube whose screen
/// vertices are given. Only the first eight vertices are read.
pub fn segments(v: &Vec<(i32, i32)>) -> (r: Vec<Segment>)
    requires
        v@.len() >= 8,
    ensures
        r@.len() == 12,
        r@ == segments_spec(v@),
{
    let mut r: Vec<Segment> = Vec::new();
    let mut i: usize = 0;
    while i < 4
        invariant
            i <= 4,
            v@.len() >= 8,
            r@.len() == 3 * i,
            forall|k: int| 0 <= k < 3 * i ==> #[trigger] r@[k] == segment_at(v@, k),
        decreases 4 - i,
    {
        let i1: usize = (i + 1) % 4;
        r.push(Segment { start: v[i], end: v[i1] });
        r.push(Segment { start: v[i + 4], end: v[i1 + 4] });
        r.push(Segment { start: v[i], end: v[i + 4] });
        i = i + 1;
    }
    assert(r@ =~= segments_spec(v@));
    r
}

/// Like `segments`, for callers that have not established the vertex
/// count: a sequence with fewer than eight vertices is rejected.
pub fn segments_checked(v: &Vec<(i32, i32)>) -> (r: Option<Vec<Segment>>)
    ensures
        (r is Some) <==> v@.len() >= 8,
        r matches Some(s) ==> s@ == segments_spec(v@),
{
    if v.len() >= 8 {
        Some(segments(v))
    } else {
        None
    }
}

/// One vertex-highlight pixel per screen vertex, each in the highlight
/// color, in vertex order.
pub fn highlights(v: &Vec<(i32, i32)>) -> (r: Vec<((i32, i32), u16)>)
    ensures
        r@.len() == v@.len(),
        forall|k: int|
            0 <= k < v@.len() ==> #[trigger] r@[k] == (v@[k], COLOR_WHITE),
{
    let mut r: Vec<((i32, i32), u16)> = Vec::new();
    let mut i: usize = 0;
    while i < v.len()
        invariant
            i <= v@.len(),
            r@.len() == i,
            forall|k: int| 0 <= k < i ==> #[trigger] r@[k] == (v@[k], COLOR_WHITE),
        decreases v@.len() - i,
    {
        r.push((v[i], COLOR_WHITE));
        i = i + 1;
    }
    r
}

} // verus!
