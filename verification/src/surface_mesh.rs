//! The lookup table of decorative surface shapes: each known shape id
//! maps to the outline polygon (three or four corners) drawn on a block
//! face, with coordinates in sixteenths of a unit. Unknown ids produce no
//! geometry — the viewer silently skips shapes it does not know.
//!
//! The host turns an outline into a filled mesh (computing face normals)
//! and an edge line, and places it with the surface's orientation and
//! rotation; the outline data and the known-id set live here.

use crate::mesh::Vec3;
use vstd::prelude::*;

verus! {

/// The `f32` bit pattern of `u` sixteenths, for `u` in `-2..=2`: the only
/// coordinates the shape table uses.
pub open spec fn spec_sixteenth_bits(u: int) -> u32 {
    if u == -2 {
        0xBE00_0000
    } else if u == -1 {
        0xBD80_0000
    } else if u == 0 {
        0
    } else if u == 1 {
        0x3D80_0000
    } else {
        0x3E00_0000
    }
}

/// The vector whose components are `x`, `y`, `z` sixteenths.
pub open spec fn spec_sv(x: int, y: int, z: int) -> Vec3 {
    Vec3 {
        x: spec_sixteenth_bits(x),
        y: spec_sixteenth_bits(y),
        z: spec_sixteenth_bits(z),
    }
}

/// The outline polygon of shape `shape`, or `None` for an id the table
/// does not know.
pub open spec fn spec_surface_shape(shape: int) -> Option<Seq<Vec3>> {
    if shape == 1 {
        Some(seq![spec_sv(2, 2, 2), spec_sv(2, 2, -2), spec_sv(2, -2, -2), spec_sv(2, -2, 2)])
    } else if shape == 2 {
        Some(seq![spec_sv(2, 2, 2), spec_sv(2, 2, -2), spec_sv(2, -2, -2)])
    } else if shape == 6 {
        Some(seq![spec_sv(-2, 2, 2), spec_sv(2, 2, -2), spec_sv(2, -2, -2), spec_sv(-2, -2, 2)])
    } else if shape == 7 {
        Some(seq![spec_sv(-2, 2, -2), spec_sv(2, -2, -2), spec_sv(-2, -2, 2)])
    } else if shape == 8 {
        Some(seq![spec_sv(-2, 2, 2), spec_sv(2, 2, -2), spec_sv(2, -2, 2)])
    } else if shape == 9 {
        Some(seq![spec_sv(2, 2, 2), spec_sv(2, 2, -2), spec_sv(2, -2, -2), spec_sv(2, -2, 0)])
    } else if shape == 10 {
        Some(seq![spec_sv(2, 2, 0), spec_sv(2, 2, -2), spec_sv(2, -2, -2)])
    } else if shape == 11 {
        Some(seq![spec_sv(2, 2, 0), spec_sv(2, 2, -2), spec_sv(2, -2, -2), spec_sv(2, -2, 2)])
    } else if shape == 12 {
        Some(seq![spec_sv(2, 2, -2), spec_sv(2, -2, -2), spec_sv(2, -2, 0)])
    } else if shape == 13 {
        Some(seq![spec_sv(2, 2, 2), spec_sv(2, 2, -2), spec_sv(2, -2, -2), spec_sv(2, -2, 1)])
    } else if shape == 14 {
        Some(seq![spec_sv(2, 2, 1), spec_sv(2, 2, -2), spec_sv(2, -2, -2), spec_sv(2, -2, 0)])
    } else if shape == 15 {
        Some(seq![spec_sv(2, 2, 0), spec_sv(2, 2, -2), spec_sv(2, -2, -2), spec_sv(2, -2, -1)])
    } else if shape == 16 {
        Some(seq![spec_sv(2, 2, -1), spec_sv(2, 2, -2), spec_sv(2, -2, -2)])
    } else if shape == 17 {
        Some(seq![spec_sv(2, 2, 1), spec_sv(2, 2, -2), spec_sv(2, -2, -2), spec_sv(2, -2, 2)])
    } else if shape == 18 {
        Some(seq![spec_sv(2, 2, 0), spec_sv(2, 2, -2), spec_sv(2, -2, -2), spec_sv(2, -2, 1)])
    } else if shape == 19 {
        Some(seq![spec_sv(2, 2, -1), spec_sv(2, 2, -2), spec_sv(2, -2, -2), spec_sv(2, -2, 0)])
    } else if shape == 20 {
        Some(seq![spec_sv(2, 2, -2), spec_sv(2, -2, -2), spec_sv(2, -2, -1)])
    } else if shape == 21 {
        Some(seq![spec_sv(-2, 2, 2), spec_sv(2, 2, 0), spec_sv(2, -2, 0), spec_sv(-2, -2, 2)])
    } else if shape == 22 {
        Some(seq![spec_sv(-2, 2, 0), spec_sv(2, 2, -2), spec_sv(2, -2, -2), spec_sv(-2, -2, 0)])
    } else if shape == 23 {
        Some(seq![spec_sv(-2, 2, 2), spec_sv(2, 2, 1), spec_sv(2, -2, 1), spec_sv(-2, -2, 2)])
    } else if shape == 24 {
        Some(seq![spec_sv(-2, 2, 1), spec_sv(2, 2, 0), spec_sv(2, -2, 0), spec_sv(-2, -2, 1)])
    } else if shape == 25 {
        Some(seq![spec_sv(-2, 2, 0), spec_sv(2, 2, -1), spec_sv(2, -2, -1), spec_sv(-2, -2, 0)])
    } else if shape == 26 {
        Some(seq![spec_sv(-2, 2, -1), spec_sv(2, 2, -2), spec_sv(2, -2, -2), spec_sv(-2, -2, -1)])
    } else if shape == 27 {
        Some(seq![spec_sv(-2, 2, -2), spec_sv(2, 0, -2), spec_sv(2, -2, 0), spec_sv(-2, -2, 2)])
    } else if shape == 28 {
        Some(seq![spec_sv(-2, 0, -2), spec_sv(2, -2, -2), spec_sv(-2, -2, 0)])
    } else if shape == 29 {
        Some(seq![spec_sv(-2, 2, -2), spec_sv(2, 1, -2), spec_sv(2, -2, 1), spec_sv(-2, -2, 2)])
    } else if shape == 30 {
        Some(seq![spec_sv(-2, 1, -2), spec_sv(2, 0, -2), spec_sv(2, -2, 0), spec_sv(-2, -2, 1)])
    } else if shape == 31 {
        Some(seq![spec_sv(-2, 0, -2), spec_sv(2, -1, -2), spec_sv(2, -2, -1), spec_sv(-2, -2, 0)])
    } else if shape == 32 {
        Some(seq![spec_sv(-2, -1, -2), spec_sv(2, -2, -2), spec_sv(-2, -2, -1)])
    } else if shape == 33 {
        Some(seq![spec_sv(0, 2, 2), spec_sv(-2, 2, -2), spec_sv(0, -2, -2), spec_sv(2, -2, 2)])
    } else if shape == 34 {
        Some(seq![spec_sv(-2, 2, 2), spec_sv(-2, -2, -2), spec_sv(0, -2, 2)])
    } else if shape == 35 {
        Some(seq![spec_sv(0, 2, 2), spec_sv(-1, 2, -2), spec_sv(1, -2, -2), spec_sv(2, -2, 2)])
    } else if shape == 36 {
        Some(seq![spec_sv(-1, 2, 2), spec_sv(-2, 2, -2), spec_sv(0, -2, -2), spec_sv(1, -2, 2)])
    } else if shape == 37 {
        Some(seq![spec_sv(-2, 2, 2), spec_sv(-2, 0, -2), spec_sv(-1, -2, -2), spec_sv(0, -2, 2)])
    } else if shape == 38 {
        Some(seq![spec_sv(-2, 0, 2), spec_sv(-2, -2, -2), spec_sv(-1, -2, 2)])
    } else if shape == 39 {
        Some(seq![spec_sv(2, 2, 2), spec_sv(1, 2, -2), spec_sv(-1, -2, -2), spec_sv(0, -2, 2)])
    } else if shape == 40 {
        Some(seq![spec_sv(1, 2, 2), spec_sv(0, 2, -2), spec_sv(-2, -2, -2), spec_sv(-1, -2, 2)])
    } else if shape == 41 {
        Some(seq![spec_sv(0, 2, 2), spec_sv(-1, 2, -2), spec_sv(-2, 0, -2), spec_sv(-2, -2, 2)])
    } else if shape == 42 {
        Some(seq![spec_sv(-1, 2, 2), spec_sv(-2, 2, -2), spec_sv(-2, 0, 2)])
    } else if shape == 43 {
        Some(seq![spec_sv(1, 2, 2), spec_sv(0, 2, -2), spec_sv(1, -2, -2), spec_sv(2, -2, 2)])
    } else if shape == 44 {
        Some(seq![spec_sv(0, 2, 2), spec_sv(-1, 2, -2), spec_sv(0, -2, -2), spec_sv(1, -2, 2)])
    } else if shape == 45 {
        Some(seq![spec_sv(-1, 2, 2), spec_sv(-2, 2, -2), spec_sv(-1, -2, -2), spec_sv(0, -2, 2)])
    } else if shape == 46 {
        Some(seq![spec_sv(-2, 2, 2), spec_sv(-2, -2, -2), spec_sv(-1, -2, 2)])
    } else if shape == 47 {
        Some(seq![spec_sv(-2, 2, 2), spec_sv(2, 2, 0), spec_sv(2, 0, 2)])
    } else if shape == 48 {
        Some(seq![spec_sv(-2, 2, 0), spec_sv(2, 2, -2), spec_sv(2, -2, 2), spec_sv(-2, 0, 2)])
    } else if shape == 49 {
        Some(seq![spec_sv(-2, 2, 2), spec_sv(2, 2, 1), spec_sv(2, 1, 2)])
    } else if shape == 50 {
        Some(seq![spec_sv(-2, 2, 1), spec_sv(2, 2, 0), spec_sv(2, 0, 2), spec_sv(-2, 1, 2)])
    } else if shape == 51 {
        Some(seq![spec_sv(-2, 2, 0), spec_sv(2, 2, -1), spec_sv(2, -1, 2), spec_sv(-2, 0, 2)])
    } else if shape == 52 {
        Some(seq![spec_sv(-2, 2, -1), spec_sv(2, 2, -2), spec_sv(2, -2, 2), spec_sv(-2, -1, 2)])
    } else if shape == 53 {
        Some(seq![spec_sv(0, 2, 2), spec_sv(-2, 2, -2), spec_sv(0, -2, -2), spec_sv(2, -2, 2)])
    } else if shape == 54 {
        Some(seq![spec_sv(2, 2, 2), spec_sv(0, 2, -2), spec_sv(2, -2, -2)])
    } else if shape == 55 {
        Some(seq![spec_sv(-1, 2, 2), spec_sv(-2, 2, -2), spec_sv(0, -2, -2), spec_sv(1, -2, 2)])
    } else if shape == 56 {
        Some(seq![spec_sv(0, 2, 2), spec_sv(-1, 2, -2), spec_sv(1, -2, -2), spec_sv(2, -2, 2)])
    } else if shape == 57 {
        Some(seq![spec_sv(1, 2, 2), spec_sv(0, 2, -2), spec_sv(2, -2, -2), spec_sv(2, 0, 2)])
    } else if shape == 58 {
        Some(seq![spec_sv(2, 2, 2), spec_sv(1, 2, -2), spec_sv(2, 0, -2)])
    } else if shape == 59 {
        Some(seq![spec_sv(1, 2, 2), spec_sv(0, 2, -2), spec_sv(-2, -2, -2), spec_sv(-1, -2, 2)])
    } else if shape == 60 {
        Some(seq![spec_sv(2, 2, 2), spec_sv(1, 2, -2), spec_sv(-1, -2, -2), spec_sv(0, -2, 2)])
    } else if shape == 61 {
        Some(seq![spec_sv(2, 0, 2), spec_sv(2, 2, -2), spec_sv(0, -2, -2), spec_sv(1, -2, 2)])
    } else if shape == 62 {
        Some(seq![spec_sv(2, 0, -2), spec_sv(1, -2, -2), spec_sv(2, -2, 2)])
    } else if shape == 63 {
        Some(seq![spec_sv(-1, 2, 2), spec_sv(-2, 2, -2), spec_sv(-1, -2, -2), spec_sv(0, -2, 2)])
    } else if shape == 64 {
        Some(seq![spec_sv(0, 2, 2), spec_sv(-1, 2, -2), spec_sv(0, -2, -2), spec_sv(1, -2, 2)])
    } else if shape == 65 {
        Some(seq![spec_sv(1, 2, 2), spec_sv(0, 2, -2), spec_sv(1, -2, -2), spec_sv(2, -2, 2)])
    } else if shape == 66 {
        Some(seq![spec_sv(2, 2, 2), spec_sv(1, 2, -2), spec_sv(2, -2, -2)])
    } else {
        None
    }
}

/// The `f32` bit pattern of `u` sixteenths.
fn sixteenth_bits(u: i32) -> (r: u32)
    requires
        -2 <= u <= 2,
    ensures
        r == spec_sixteenth_bits(u as int),
{
    if u == -2 {
        0xBE00_0000
    } else if u == -1 {
        0xBD80_0000
    } else if u == 0 {
        0
    } else if u == 1 {
        0x3D80_0000
    } else {
        0x3E00_0000
    }
}

/// The vector whose components are `x`, `y`, `z` sixteenths.
fn sv(x: i32, y: i32, z: i32) -> (r: Vec3)
    requires
        -2 <= x <= 2,
        -2 <= y <= 2,
        -2 <= z <= 2,
    ensures
        r == spec_sv(x as int, y as int, z as int),
{
    Vec3 { x: sixteenth_bits(x), y: sixteenth_bits(y), z: sixteenth_bits(z) }
}

/// A three-corner outline.
fn tri(a: Vec3, b: Vec3, c: Vec3) -> (r: Vec<Vec3>)
    ensures
        r@ == seq![a, b, c],
{
    let mut v: Vec<Vec3> = Vec::new();
    v.push(a);
    v.push(b);
    v.push(c);
    proof {
        assert(v@ =~= seq![a, b, c]);
    }
    v
}

/// A four-corner outline.
fn quad(a: Vec3, b: Vec3, c: Vec3, d: Vec3) -> (r: Vec<Vec3>)
    ensures
        r@ == seq![a, b, c, d],
{
    let mut v: Vec<Vec3> = Vec::new();
    v.push(a);
    v.push(b);
    v.push(c);
    v.push(d);
    proof {
        assert(v@ =~= seq![a, b, c, d]);
    }
    v
}

/// The outline polygon of a decorative surface shape, or `None` for an
/// unknown id: unknown shapes produce no geometry rather than an error.
pub fn surface_shape(shape: i32) -> (r: Option<Vec<Vec3>>)
    ensures
        match r {
            Some(v) => spec_surface_shape(shape as int) == Some(v@),
            None => spec_surface_shape(shape as int) is None,
        },
{
    match shape {
        1 => Some(quad(sv(2, 2, 2), sv(2, 2, -2), sv(2, -2, -2), sv(2, -2, 2))),
        2 => Some(tri(sv(2, 2, 2), sv(2, 2, -2), sv(2, -2, -2))),
        6 => Some(quad(sv(-2, 2, 2), sv(2, 2, -2), sv(2, -2, -2), sv(-2, -2, 2))),
        7 => Some(tri(sv(-2, 2, -2), sv(2, -2, -2), sv(-2, -2, 2))),
        8 => Some(tri(sv(-2, 2, 2), sv(2, 2, -2), sv(2, -2, 2))),
        9 => Some(quad(sv(2, 2, 2), sv(2, 2, -2), sv(2, -2, -2), sv(2, -2, 0))),
        10 => Some(tri(sv(2, 2, 0), sv(2, 2, -2), sv(2, -2, -2))),
        11 => Some(quad(sv(2, 2, 0), sv(2, 2, -2), sv(2, -2, -2), sv(2, -2, 2))),
        12 => Some(tri(sv(2, 2, -2), sv(2, -2, -2), sv(2, -2, 0))),
        13 => Some(quad(sv(2, 2, 2), sv(2, 2, -2), sv(2, -2, -2), sv(2, -2, 1))),
        14 => Some(quad(sv(2, 2, 1), sv(2, 2, -2), sv(2, -2, -2), sv(2, -2, 0))),
        15 => Some(quad(sv(2, 2, 0), sv(2, 2, -2), sv(2, -2, -2), sv(2, -2, -1))),
        16 => Some(tri(sv(2, 2, -1), sv(2, 2, -2), sv(2, -2, -2))),
        17 => Some(quad(sv(2, 2, 1), sv(2, 2, -2), sv(2, -2, -2), sv(2, -2, 2))),
        18 => Some(quad(sv(2, 2, 0), sv(2, 2, -2), sv(2, -2, -2), sv(2, -2, 1))),
        19 => Some(quad(sv(2, 2, -1), sv(2, 2, -2), sv(2, -2, -2), sv(2, -2, 0))),
        20 => Some(tri(sv(2, 2, -2), sv(2, -2, -2), sv(2, -2, -1))),
        21 => Some(quad(sv(-2, 2, 2), sv(2, 2, 0), sv(2, -2, 0), sv(-2, -2, 2))),
        22 => Some(quad(sv(-2, 2, 0), sv(2, 2, -2), sv(2, -2, -2), sv(-2, -2, 0))),
        23 => Some(quad(sv(-2, 2, 2), sv(2, 2, 1), sv(2, -2, 1), sv(-2, -2, 2))),
        24 => Some(quad(sv(-2, 2, 1), sv(2, 2, 0), sv(2, -2, 0), sv(-2, -2, 1))),
        25 => Some(quad(sv(-2, 2, 0), sv(2, 2, -1), sv(2, -2, -1), sv(-2, -2, 0))),
        26 => Some(quad(sv(-2, 2, -1), sv(2, 2, -2), sv(2, -2, -2), sv(-2, -2, -1))),
        27 => Some(quad(sv(-2, 2, -2), sv(2, 0, -2), sv(2, -2, 0), sv(-2, -2, 2))),
        28 => Some(tri(sv(-2, 0, -2), sv(2, -2, -2), sv(-2, -2, 0))),
        29 => Some(quad(sv(-2, 2, -2), sv(2, 1, -2), sv(2, -2, 1), sv(-2, -2, 2))),
        30 => Some(quad(sv(-2, 1, -2), sv(2, 0, -2), sv(2, -2, 0), sv(-2, -2, 1))),
        31 => Some(quad(sv(-2, 0, -2), sv(2, -1, -2), sv(2, -2, -1), sv(-2, -2, 0))),
        32 => Some(tri(sv(-2, -1, -2), sv(2, -2, -2), sv(-2, -2, -1))),
        33 => Some(quad(sv(0, 2, 2), sv(-2, 2, -2), sv(0, -2, -2), sv(2, -2, 2))),
        34 => Some(tri(sv(-2, 2, 2), sv(-2, -2, -2), sv(0, -2, 2))),
        35 => Some(quad(sv(0, 2, 2), sv(-1, 2, -2), sv(1, -2, -2), sv(2, -2, 2))),
        36 => Some(quad(sv(-1, 2, 2), sv(-2, 2, -2), sv(0, -2, -2), sv(1, -2, 2))),
        37 => Some(quad(sv(-2, 2, 2), sv(-2, 0, -2), sv(-1, -2, -2), sv(0, -2, 2))),
        38 => Some(tri(sv(-2, 0, 2), sv(-2, -2, -2), sv(-1, -2, 2))),
        39 => Some(quad(sv(2, 2, 2), sv(1, 2, -2), sv(-1, -2, -2), sv(0, -2, 2))),
        40 => Some(quad(sv(1, 2, 2), sv(0, 2, -2), sv(-2, -2, -2), sv(-1, -2, 2))),
        41 => Some(quad(sv(0, 2, 2), sv(-1, 2, -2), sv(-2, 0, -2), sv(-2, -2, 2))),
        42 => Some(tri(sv(-1, 2, 2), sv(-2, 2, -2), sv(-2, 0, 2))),
        43 => Some(quad(sv(1, 2, 2), sv(0, 2, -2), sv(1, -2, -2), sv(2, -2, 2))),
        44 => Some(quad(sv(0, 2, 2), sv(-1, 2, -2), sv(0, -2, -2), sv(1, -2, 2))),
        45 => Some(quad(sv(-1, 2, 2), sv(-2, 2, -2), sv(-1, -2, -2), sv(0, -2, 2))),
        46 => Some(tri(sv(-2, 2, 2), sv(-2, -2, -2), sv(-1, -2, 2))),
        47 => Some(tri(sv(-2, 2, 2), sv(2, 2, 0), sv(2, 0, 2))),
        48 => Some(quad(sv(-2, 2, 0), sv(2, 2, -2), sv(2, -2, 2), sv(-2, 0, 2))),
        49 => Some(tri(sv(-2, 2, 2), sv(2, 2, 1), sv(2, 1, 2))),
        50 => Some(quad(sv(-2, 2, 1), sv(2, 2, 0), sv(2, 0, 2), sv(-2, 1, 2))),
        51 => Some(quad(sv(-2, 2, 0), sv(2, 2, -1), sv(2, -1, 2), sv(-2, 0, 2))),
        52 => Some(quad(sv(-2, 2, -1), sv(2, 2, -2), sv(2, -2, 2), sv(-2, -1, 2))),
        53 => Some(quad(sv(0, 2, 2), sv(-2, 2, -2), sv(0, -2, -2), sv(2, -2, 2))),
        54 => Some(tri(sv(2, 2, 2), sv(0, 2, -2), sv(2, -2, -2))),
        55 => Some(quad(sv(-1, 2, 2), sv(-2, 2, -2), sv(0, -2, -2), sv(1, -2, 2))),
        56 => Some(quad(sv(0, 2, 2), sv(-1, 2, -2), sv(1, -2, -2), sv(2, -2, 2))),
        57 => Some(quad(sv(1, 2, 2), sv(0, 2, -2), sv(2, -2, -2), sv(2, 0, 2))),
        58 => Some(tri(sv(2, 2, 2), sv(1, 2, -2), sv(2, 0, -2))),
        59 => Some(quad(sv(1, 2, 2), sv(0, 2, -2), sv(-2, -2, -2), sv(-1, -2, 2))),
        60 => Some(quad(sv(2, 2, 2), sv(1, 2, -2), sv(-1, -2, -2), sv(0, -2, 2))),
        61 => Some(quad(sv(2, 0, 2), sv(2, 2, -2), sv(0, -2, -2), sv(1, -2, 2))),
        62 => Some(tri(sv(2, 0, -2), sv(1, -2, -2), sv(2, -2, 2))),
        63 => Some(quad(sv(-1, 2, 2), sv(-2, 2, -2), sv(-1, -2, -2), sv(0, -2, 2))),
        64 => Some(quad(sv(0, 2, 2), sv(-1, 2, -2), sv(0, -2, -2), sv(1, -2, 2))),
        65 => Some(quad(sv(1, 2, 2), sv(0, 2, -2), sv(1, -2, -2), sv(2, -2, 2))),
        66 => Some(tri(sv(2, 2, 2), sv(1, 2, -2), sv(2, -2, -2))),
        _ => None,
    }
}


/// The outer or inner ring slot that follows slot `i` of `n` vertex
/// pairs: two further, wrapping to the start after the last pair.
pub open spec fn spec_ring_next(i: int, n: int) -> int {
    if i + 1 == n {
        0
    } else {
        2 * i + 2
    }
}

/// Whether slots `2i` and `2i + 1` of `rs` hold the two triangles that
/// close pair `i` of a ring of `n` vertex pairs against the next pair.
pub open spec fn spec_ring_tris_at(rs: Seq<[usize; 3]>, n: int, i: int) -> bool {
    &&& rs[2 * i]@ == seq![
        (2 * i) as usize,
        spec_ring_next(i, n) as usize,
        (spec_ring_next(i, n) + 1) as usize,
    ]
    &&& rs[2 * i + 1]@ == seq![
        (2 * i) as usize,
        (spec_ring_next(i, n) + 1) as usize,
        (2 * i + 1) as usize,
    ]
}

/// The triangle fan that fills a convex outline of `n` corners: one
/// triangle per corner beyond the first two, all anchored at corner 0.
/// An outline needs at least one corner.
pub fn fan_triangles(n: usize) -> (r: Vec<[usize; 3]>)
    requires
        n >= 1,
    ensures
        r@.len() == (if n >= 2 {
            (n - 2) as int
        } else {
            0
        }),
        forall|i: int|
            0 <= i < r@.len() ==> (#[trigger] r@[i])@ == seq![
                0usize,
                (i + 1) as usize,
                (i + 2) as usize,
            ],
{
    let mut r: Vec<[usize; 3]> = Vec::new();
    if n < 2 {
        return r;
    }
    for i in 1..(n - 1)
        invariant
            n >= 2,
            r@.len() == i - 1,
            forall|q: int|
                0 <= q < r@.len() ==> (#[trigger] r@[q])@ == seq![
                    0usize,
                    (q + 1) as usize,
                    (q + 2) as usize,
                ],
    {
        let t = [0, i, i + 1];
        proof {
            assert(t@ == seq![0usize, i, (i + 1) as usize]);
        }
        r.push(t);
    }
    r
}

/// The triangle strip that fills a ring of `n` outer/inner vertex pairs
/// (outer vertices at even slots, inner at odd): two triangles per pair,
/// wrapping around to close the ring.
pub fn ring_triangles(n: usize) -> (r: Vec<[usize; 3]>)
    requires
        2 * n + 1 <= usize::MAX,
    ensures
        r@.len() == 2 * n,
        forall|i: int| 0 <= i < n ==> #[trigger] spec_ring_tris_at(r@, n as int, i),
{
    let mut r: Vec<[usize; 3]> = Vec::new();
    for i in 0..n
        invariant
            2 * n + 1 <= usize::MAX,
            r@.len() == 2 * i,
            forall|q: int| 0 <= q < i ==> #[trigger] spec_ring_tris_at(r@, n as int, q),
    {
        let i0 = 2 * i;
        let i1 = i0 + 1;
        let i2 = if i + 1 == n {
            0
        } else {
            i0 + 2
        };
        let i3 = i2 + 1;
        assert(i2 as int == spec_ring_next(i as int, n as int));
        let ta = [i0, i2, i3];
        let tb = [i0, i3, i1];
        proof {
            assert(ta@ == seq![i0, i2, i3]);
            assert(tb@ == seq![i0, i3, i1]);
        }
        let ghost pre = r@;
        r.push(ta);
        r.push(tb);
        proof {
            assert forall|q: int| 0 <= q < i + 1 implies #[trigger] spec_ring_tris_at(
                r@,
                n as int,
                q,
            ) by {
                if q < i {
                    assert(spec_ring_tris_at(pre, n as int, q));
                    assert(r@[2 * q] == pre[2 * q]);
                    assert(r@[2 * q + 1] == pre[2 * q + 1]);
                } else {
                    assert(r@[2 * i] == ta);
                    assert(r@[2 * i + 1] == tb);
                }
            }
        }
    }
    r
}

} // verus!
