//! The renderer's draw-order policy: opaque objects are drawn first,
//! then translucent objects back to front, so that alpha blending
//! composites correctly.
//!
//! The renderer measures each object's distance from the camera as an
//! `f32` and hands its bit pattern in as the sort key: for nonnegative
//! IEEE-754 values, bit-pattern order is numeric order, and a NaN
//! distance sorts above every number, so such an object is drawn first
//! among the translucent ones — a deterministic reading of a comparison
//! that floating-point order leaves undecided.

use vstd::prelude::*;
use vstd::seq_lib::lemma_multiset_commutative;

verus! {

/// The sort key of one draw batch: whether its shader is translucent,
/// its distance from the camera (an `f32` bit pattern), and its position
/// in the original draw list, which breaks ties so that the sort is
/// stable.
#[derive(Clone, Copy, Debug, PartialEq, Eq, Structural)]
pub struct DrawKey {
    pub translucent: bool,
    pub distance_bits: u32,
    pub index: usize,
}

/// The draw order: `a` is drawn no later than `b` when `a` is opaque and
/// `b` translucent, or both are alike and `a` is farther from the
/// camera, or equally far and listed no later. A total order: reflexive,
/// antisymmetric in all three fields, transitive.
pub open spec fn spec_draw_le(a: DrawKey, b: DrawKey) -> bool {
    if a.translucent != b.translucent {
        !a.translucent
    } else if a.distance_bits != b.distance_bits {
        a.distance_bits > b.distance_bits
    } else {
        a.index <= b.index
    }
}

/// The executable comparison, equal to `spec_draw_le`.
fn draw_le(a: &DrawKey, b: &DrawKey) -> (r: bool)
    ensures
        r == spec_draw_le(*a, *b),
{
    if a.translucent != b.translucent {
        !a.translucent
    } else if a.distance_bits != b.distance_bits {
        a.distance_bits > b.distance_bits
    } else {
        a.index <= b.index
    }
}

/// Inserting an element anywhere in a sequence adds exactly that element
/// to its multiset.
proof fn lemma_insert_to_multiset<A>(s: Seq<A>, pos: int, x: A)
    requires
        0 <= pos <= s.len(),
    ensures
        s.insert(pos, x).to_multiset() == s.to_multiset().insert(x),
{
    broadcast use vstd::seq_lib::group_to_multiset_ensures;

    let left = s.subrange(0, pos);
    let right = s.subrange(pos, s.len() as int);
    assert(s.insert(pos, x) == left.push(x) + right);
    lemma_multiset_commutative(left.push(x), right);
    lemma_multiset_commutative(left, right);
    assert(s =~= left + right);
    assert(left.push(x).to_multiset() =~= left.to_multiset().insert(x));
    assert(s.insert(pos, x).to_multiset() =~= s.to_multiset().insert(x));
}

/// Sorts draw batches into the order they must be issued in: opaque
/// batches first, then translucent batches by decreasing distance from
/// the camera, ties in the original order. The result holds exactly the
/// input batches.
pub fn sort_draw_order(keys: Vec<DrawKey>) -> (r: Vec<DrawKey>)
    ensures
        r@.len() == keys@.len(),
        r@.to_multiset() == keys@.to_multiset(),
        forall|i: int, j: int| 0 <= i < j < r@.len() ==> spec_draw_le(#[trigger] r@[i], #[trigger] r@[j]),
{
    let mut out: Vec<DrawKey> = Vec::new();
    let n = keys.len();
    proof {
        broadcast use vstd::seq_lib::group_to_multiset_ensures;

        assert(keys@.subrange(0, 0) =~= Seq::<DrawKey>::empty());
        assert(out@.to_multiset() =~= keys@.subrange(0, 0).to_multiset());
    }
    for idx in 0..n
        invariant
            n == keys@.len(),
            out@.len() == idx,
            out@.to_multiset() == keys@.subrange(0, idx as int).to_multiset(),
            forall|i: int, j: int|
                0 <= i < j < out@.len() ==> spec_draw_le(#[trigger] out@[i], #[trigger] out@[j]),
    {
        let x = keys[idx];
        let mut pos: usize = 0;
        while pos < out.len() && draw_le(&out[pos], &x)
            invariant
                pos <= out@.len(),
                forall|i: int| 0 <= i < pos ==> spec_draw_le(#[trigger] out@[i], x),
            decreases out@.len() - pos,
        {
            pos = pos + 1;
        }
        let ghost pre = out@;
        out.insert(pos, x);
        proof {
            broadcast use vstd::seq_lib::group_to_multiset_ensures;

            lemma_insert_to_multiset(pre, pos as int, x);
            assert(keys@.subrange(0, idx as int).push(keys@[idx as int]) =~= keys@.subrange(
                0,
                idx as int + 1,
            ));
            assert(out@.to_multiset() =~= keys@.subrange(0, idx as int + 1).to_multiset());
            pre.insert_ensures(pos as int, x);
            assert forall|i: int, j: int|
                0 <= i < j < out@.len() implies spec_draw_le(#[trigger] out@[i], #[trigger] out@[j]) by {
                if j < pos {
                    assert(out@[i] == pre[i] && out@[j] == pre[j]);
                } else if i < pos && j == pos {
                    assert(out@[i] == pre[i] && out@[j] == x);
                } else if i < pos && j > pos {
                    assert(out@[i] == pre[i] && out@[j] == pre[j - 1]);
                } else if i == pos {
                    // x goes before every element it was not preceded by:
                    // the scan stopped there, so the order is total.
                    assert(out@[j] == pre[j - 1]);
                    if pos < pre.len() {
                        assert(!spec_draw_le(pre[pos as int], x));
                        assert(spec_draw_le(x, pre[pos as int]));
                        if j - 1 > pos {
                            assert(spec_draw_le(pre[pos as int], pre[j - 1]));
                        }
                    }
                } else {
                    assert(out@[i] == pre[i - 1] && out@[j] == pre[j - 1]);
                }
            }
        }
    }
    proof {
        assert(keys@.subrange(0, n as int) =~= keys@);
    }
    out
}

} // verus!
