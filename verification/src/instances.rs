//! Layout of the instanced copies of the model: a square grid on the
//! `y = 0` plane, centred on the origin, each copy tilted away from the
//! centre except the one that sits exactly on it.
//!
//! Positions are whole multiples of the spacing, so the layout is held in
//! integers: with an even number of instances per row, every coordinate
//! `spacing * (index - per_row / 2)` is an integer, and the renderer turns
//! it into floating point without loss.
use vstd::prelude::*;
use vstd::arithmetic::div_mod::{lemma_fundamental_div_mod, lemma_fundamental_div_mod_converse};

verus! {

/// Number of instances along each side of the grid.
pub const NUM_INSTANCES_PER_ROW: u32 = 10;

/// Distance between neighbouring instances, in world units.
pub const SPACE_BETWEEN: i32 = 3;

/// Angle, in degrees, by which every instance off the centre is tilted.
pub const TILT_DEGREES: u32 = 45;

/// A point or direction in world space, in whole world units.
#[derive(Clone, Copy, Debug, PartialEq, Eq, Structural)]
pub struct Position {
    pub x: i32,
    pub y: i32,
    pub z: i32,
}

/// A rotation by `degrees` about the direction `axis` (the renderer
/// normalises the axis before building the quaternion).
#[derive(Clone, Copy, Debug, PartialEq, Eq, Structural)]
pub struct Rotation {
    pub axis: Position,
    pub degrees: u32,
}

/// Where one instance stands and how it is turned.
#[derive(Clone, Copy, Debug, PartialEq, Eq, Structural)]
pub struct Placement {
    pub position: Position,
    pub rotation: Rotation,
}

pub open spec fn is_origin(p: Position) -> bool {
    p.x == 0 && p.y == 0 && p.z == 0
}

/// The unit z axis.
pub open spec fn unit_z() -> Position {
    Position { x: 0, y: 0, z: 1 }
}

/// The rotation an instance at `p` gets: none (zero degrees about z) at the
/// origin, where the position cannot serve as an axis, and a tilt about the
/// direction of `p` everywhere else.
pub open spec fn spec_rotation_for(p: Position) -> Rotation {
    if is_origin(p) {
        Rotation { axis: unit_z(), degrees: 0 }
    } else {
        Rotation { axis: p, degrees: TILT_DEGREES as u32 }
    }
}

/// Offset along one axis of grid index `index`: the grid is centred so
/// that index `per_row / 2` sits at zero.
pub open spec fn grid_offset(index: int, per_row: int, spacing: int) -> int {
    spacing * (index - per_row / 2)
}

/// The limits under which a grid can be built: an even row (so that every
/// offset is whole), an instance count that fits the `u32` instance range
/// of a draw call, and offsets that fit an `i32`.
pub open spec fn grid_fits(per_row: u32, spacing: i32) -> bool {
    &&& per_row % 2 == 0
    &&& per_row <= 65535
    &&& i32::MIN <= spacing * (0 - per_row / 2) <= i32::MAX
}

/// The placement of the instance in row `row` (along z) and column `col`
/// (along x).
pub open spec fn spec_placement(row: int, col: int, per_row: int, spacing: int) -> Placement {
    let position = Position {
        x: grid_offset(col, per_row, spacing) as i32,
        y: 0,
        z: grid_offset(row, per_row, spacing) as i32,
    };
    Placement { position, rotation: spec_rotation_for(position) }
}

/// The `i`-th instance of the grid: rows follow one another, and within a
/// row the columns come in order.
pub open spec fn spec_grid_placement(i: int, per_row: int, spacing: int) -> Placement {
    spec_placement(i / per_row, i % per_row, per_row, spacing)
}

/// The whole grid, in drawing order.
pub open spec fn spec_grid(per_row: int, spacing: int) -> Seq<Placement> {
    Seq::new((per_row * per_row) as nat, |i: int| spec_grid_placement(i, per_row, spacing))
}

/// The grid the scene is drawn with.
pub open spec fn spec_scene_grid() -> Seq<Placement> {
    spec_grid(NUM_INSTANCES_PER_ROW as int, SPACE_BETWEEN as int)
}

/// Chooses the rotation of an instance from its position.
pub fn rotation_for(position: Position) -> (r: Rotation)
    ensures
        r == spec_rotation_for(position),
        !is_origin(r.axis),
        position.x == 0 && position.y == 0 && position.z == 0 ==> r == (Rotation {
            axis: Position { x: 0, y: 0, z: 1 },
            degrees: 0,
        }),
        !(position.x == 0 && position.y == 0 && position.z == 0) ==> r == (Rotation {
            axis: position,
            degrees: 45,
        }),
{
    if position.x == 0 && position.y == 0 && position.z == 0 {
        Rotation { axis: Position { x: 0, y: 0, z: 1 }, degrees: 0 }
    } else {
        Rotation { axis: position, degrees: TILT_DEGREES }
    }
}

/// Every offset of a grid that fits lies in `i32`.
proof fn lemma_offset_fits(index: int, per_row: u32, spacing: i32)
    requires
        grid_fits(per_row, spacing),
        0 <= index < per_row,
    ensures
        i32::MIN <= grid_offset(index, per_row as int, spacing as int) <= i32::MAX,
{
    let h = (per_row / 2) as int;
    let d = index - h;
    let s = spacing as int;
    assert(-h <= d <= h - 1);
    assert(i32::MIN <= s * (0 - h) <= i32::MAX);
    assert(i32::MIN <= s * d <= i32::MAX) by (nonlinear_arith)
        requires
            -h <= d <= h - 1,
            i32::MIN <= s * (0 - h) <= i32::MAX,
    {
        if s >= 0 {
            assert(s * (0 - h) <= s * d);
            assert(s * d <= s * (h - 1));
        } else {
            assert(s * (h - 1) <= s * d);
            assert(s * d <= s * (0 - h));
        }
    }
}

/// The offset along one axis of grid index `index`.
fn offset(index: u32, per_row: u32, spacing: i32) -> (r: i32)
    requires
        grid_fits(per_row, spacing),
        index < per_row,
    ensures
        r == grid_offset(index as int, per_row as int, spacing as int),
{
    proof {
        lemma_offset_fits(index as int, per_row, spacing);
    }
    let d: i64 = index as i64 - (per_row / 2) as i64;
    let s: i64 = spacing as i64;
    assert(-65536 <= d <= 65536);
    assert(-2147483648 <= s <= 2147483647);
    assert(-0x1_0000_0000_0000 <= s * d <= 0x1_0000_0000_0000) by (nonlinear_arith)
        requires -65536 <= d <= 65536, -2147483648 <= s <= 2147483647;
    let product: i64 = s * d;
    product as i32
}

/// The placement of the instance in row `row` and column `col`.
pub fn placement_at(row: u32, col: u32, per_row: u32, spacing: i32) -> (p: Placement)
    requires
        grid_fits(per_row, spacing),
        row < per_row,
        col < per_row,
    ensures
        p == spec_placement(row as int, col as int, per_row as int, spacing as int),
{
    let position = Position { x: offset(col, per_row, spacing), y: 0, z: offset(row, per_row, spacing) };
    Placement { position, rotation: rotation_for(position) }
}

/// Builds the grid of `per_row * per_row` instances spaced `spacing`
/// apart, row after row.
pub fn instance_grid(per_row: u32, spacing: i32) -> (v: Vec<Placement>)
    requires
        grid_fits(per_row, spacing),
    ensures
        v@ == spec_grid(per_row as int, spacing as int),
        v.len() == per_row * per_row,
{
    assert(per_row * per_row <= 65535 * 65535) by (nonlinear_arith)
        requires per_row <= 65535;
    let n: u32 = per_row * per_row;
    let mut v: Vec<Placement> = Vec::new();
    let mut i: u32 = 0;
    while i < n
        invariant
            grid_fits(per_row, spacing),
            n == per_row * per_row,
            i <= n,
            v.len() == i,
            forall|k: int| 0 <= k < i ==> v@[k] == #[trigger] spec_grid_placement(k, per_row as int, spacing as int),
        decreases n - i,
    {
        assert(per_row > 0) by (nonlinear_arith)
            requires i < n, n == per_row * per_row;
        let row: u32 = i / per_row;
        let col: u32 = i % per_row;
        assert(row < per_row) by (nonlinear_arith)
            requires i < per_row * per_row, row == i / per_row, per_row > 0;
        v.push(placement_at(row, col, per_row, spacing));
        i = i + 1;
    }
    assert(v@ =~= spec_grid(per_row as int, spacing as int));
    v
}

/// The instances the scene is drawn with: a ten by ten grid, three units
/// apart.
pub fn scene_instances() -> (v: Vec<Placement>)
    ensures
        v@ == spec_scene_grid(),
        v.len() == 100,
{
    instance_grid(NUM_INSTANCES_PER_ROW, SPACE_BETWEEN)
}

/// The centre of the grid in index units: `per_row / 2` along x and z.
pub fn instance_displacement(per_row: u32) -> (d: Position)
    ensures
        d == (Position { x: (per_row / 2) as i32, y: 0, z: (per_row / 2) as i32 }),
{
    let h: i32 = (per_row / 2) as i32;
    Position { x: h, y: 0, z: h }
}

/// Law: the grid holds `per_row * per_row` instances, all on the `y = 0`
/// plane, the `i`-th in row `i / per_row` and column `i % per_row`.
pub proof fn lemma_grid_shape(per_row: u32, spacing: i32, i: int)
    requires
        grid_fits(per_row, spacing),
        0 <= i < per_row * per_row,
    ensures
        spec_grid(per_row as int, spacing as int).len() == per_row * per_row,
        spec_grid(per_row as int, spacing as int)[i].position.y == 0,
        spec_grid(per_row as int, spacing as int)[i]
            == spec_placement(i / per_row as int, i % per_row as int, per_row as int, spacing as int),
        spec_grid(per_row as int, spacing as int)[i].position.x == spacing * (i % per_row as int
            - per_row / 2),
        spec_grid(per_row as int, spacing as int)[i].position.z == spacing * (i / per_row as int
            - per_row / 2),
{
    let p = per_row as int;
    assert(p > 0) by (nonlinear_arith)
        requires 0 <= i < p * p, p >= 0;
    lemma_fundamental_div_mod(i, p);
    assert(0 <= i % p < p) by (nonlinear_arith)
        requires p > 0, i >= 0;
    assert(0 <= i / p < p) by (nonlinear_arith)
        requires p > 0, 0 <= i < p * p;
    lemma_offset_fits(i % p, per_row, spacing);
    lemma_offset_fits(i / p, per_row, spacing);
}

/// Law: an instance off the origin is tilted by 45 degrees about the
/// direction of its own position; the instance at the origin is turned by
/// zero degrees about the z axis.
pub proof fn lemma_rotation_about_position(p: Position)
    ensures
        !(p.x == 0 && p.y == 0 && p.z == 0) ==> spec_rotation_for(p).axis == p
            && spec_rotation_for(p).degrees == 45,
        (p.x == 0 && p.y == 0 && p.z == 0) ==> spec_rotation_for(p).axis == (Position {
            x: 0,
            y: 0,
            z: 1,
        }) && spec_rotation_for(p).degrees == 0,
{
}

/// Law: every instance of the grid is turned about its own position (or,
/// at the origin, not at all): its placement's rotation is the one its
/// position calls for.
pub proof fn lemma_grid_tilt_follows_position(per_row: u32, spacing: i32, i: int)
    requires
        grid_fits(per_row, spacing),
        0 <= i < per_row * per_row,
    ensures
        ({
            let pl = spec_grid(per_row as int, spacing as int)[i];
            &&& pl.position != (Position { x: 0, y: 0, z: 0 }) ==> pl.rotation.axis == pl.position
                && pl.rotation.degrees == 45
            &&& pl.position == (Position { x: 0, y: 0, z: 0 }) ==> pl.rotation.axis == (Position {
                x: 0,
                y: 0,
                z: 1,
            }) && pl.rotation.degrees == 0
        }),
{
}

/// Law: with a non-zero spacing, no two instances of the grid stand on the
/// same spot.
pub proof fn lemma_grid_positions_distinct(per_row: u32, spacing: i32, i: int, j: int)
    requires
        grid_fits(per_row, spacing),
        spacing != 0,
        0 <= i < per_row * per_row,
        0 <= j < per_row * per_row,
        i != j,
    ensures
        spec_grid(per_row as int, spacing as int)[i].position
            != spec_grid(per_row as int, spacing as int)[j].position,
{
    let p = per_row as int;
    let s = spacing as int;
    assert(p > 0) by (nonlinear_arith)
        requires 0 <= i < p * p, p >= 0;
    let (ri, ci) = (i / p, i % p);
    let (rj, cj) = (j / p, j % p);
    lemma_fundamental_div_mod(i, p);
    lemma_fundamental_div_mod(j, p);
    assert(0 <= ci < p && 0 <= cj < p) by (nonlinear_arith)
        requires p > 0, ci == i % p, cj == j % p, i >= 0, j >= 0;
    assert(0 <= ri < p && 0 <= rj < p) by (nonlinear_arith)
        requires p > 0, ri == i / p, rj == j / p, 0 <= i < p * p, 0 <= j < p * p;
    lemma_offset_fits(ri, per_row, spacing);
    lemma_offset_fits(rj, per_row, spacing);
    lemma_offset_fits(ci, per_row, spacing);
    lemma_offset_fits(cj, per_row, spacing);
    if ri != rj {
        assert(s * (ri - p / 2) != s * (rj - p / 2)) by (nonlinear_arith)
            requires s != 0, ri != rj;
    } else {
        assert(ci != cj);
        assert(s * (ci - p / 2) != s * (cj - p / 2)) by (nonlinear_arith)
            requires s != 0, ci != cj;
    }
}

/// Law: with a non-zero spacing, exactly one instance of the grid is left
/// unturned — the one in the middle row and middle column, at the origin —
/// and every other one is tilted about a non-zero axis.
pub proof fn lemma_only_centre_unturned(per_row: u32, spacing: i32, i: int)
    requires
        grid_fits(per_row, spacing),
        spacing != 0,
        0 <= i < per_row * per_row,
    ensures
        (spec_grid(per_row as int, spacing as int)[i].rotation.degrees == 0)
            <==> i == (per_row / 2) * per_row + per_row / 2,
        !is_origin(spec_grid(per_row as int, spacing as int)[i].rotation.axis),
{
    let p = per_row as int;
    let s = spacing as int;
    let h = p / 2;
    assert(p > 0) by (nonlinear_arith)
        requires 0 <= i < p * p, p >= 0;
    let (r, c) = (i / p, i % p);
    lemma_fundamental_div_mod(i, p);
    assert(0 <= c < p) by (nonlinear_arith)
        requires p > 0, c == i % p, i >= 0;
    assert(0 <= r < p) by (nonlinear_arith)
        requires p > 0, r == i / p, 0 <= i < p * p;
    lemma_offset_fits(r, per_row, spacing);
    lemma_offset_fits(c, per_row, spacing);
    assert((s * (r - h) == 0) <==> r == h) by (nonlinear_arith)
        requires s != 0;
    assert((s * (c - h) == 0) <==> c == h) by (nonlinear_arith)
        requires s != 0;
    if i == h * p + h {
        assert(0 <= h < p);
        lemma_fundamental_div_mod_converse(i, p, h, h);
    }
    if r == h && c == h {
        assert(i == p * h + h);
        assert(i == h * p + h) by (nonlinear_arith)
            requires i == p * h + h;
    }
}

} // verus!
