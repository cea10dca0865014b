//! Admission control for tile placement, and hit-testing for deletion.
//!
//! The collection of placed footprints belongs to the caller; every function
//! here only reads it.
use vstd::prelude::*;

use crate::grid::{snap_with_offset, GridPosition, WorldPos};
use crate::tile::{GridExtent, Tile};

verus! {

/// Some footprint of `existing` overlaps `candidate`.
pub open spec fn overlaps_any(candidate: GridExtent, existing: Seq<GridExtent>) -> bool {
    exists|i: int| 0 <= i < existing.len() && #[trigger] existing[i].spec_intersects(candidate)
}

/// The footprint that a click at `p` would give a tile of kind `tile`, if the
/// point lies in the grid's range.
pub open spec fn footprint_at(tile: Tile, p: WorldPos) -> Option<GridExtent> {
    match snap_with_offset(p, tile.spec_offset()) {
        Some(g) => Some(GridExtent { origin: g, width: tile.spec_grid_width() as i32 }),
        None => None,
    }
}

/// Decide whether `candidate` may be placed among the `existing` footprints:
/// it may unless it overlaps one of them.
pub fn validate_placement(candidate: &GridExtent, existing: &[GridExtent]) -> (r: bool)
    ensures
        r == !overlaps_any(*candidate, existing@),
{
    let mut i: usize = 0;
    while i < existing.len()
        invariant
            0 <= i <= existing@.len(),
            forall|j: int| 0 <= j < i ==> !(#[trigger] existing@[j].spec_intersects(*candidate)),
        decreases existing@.len() - i,
    {
        if existing[i].intersects(candidate) {
            return false;
        }
        i = i + 1;
    }
    true
}

/// The index of the first footprint of `existing` that holds the world point
/// `world_pos`, or `None` where no tile is.
pub fn find_at(world_pos: WorldPos, existing: &[GridExtent]) -> (r: Option<usize>)
    ensures
        match r {
            Some(i) => {
                &&& i < existing@.len()
                &&& existing@[i as int].spec_contains(world_pos)
                &&& forall|j: int| 0 <= j < i ==> !(#[trigger] existing@[j].spec_contains(world_pos))
            },
            None => forall|j: int|
                0 <= j < existing@.len() ==> !(#[trigger] existing@[j].spec_contains(world_pos)),
        },
{
    let mut i: usize = 0;
    while i < existing.len()
        invariant
            0 <= i <= existing@.len(),
            forall|j: int| 0 <= j < i ==> !(#[trigger] existing@[j].spec_contains(world_pos)),
        decreases existing@.len() - i,
    {
        if existing[i].contains(world_pos) {
            return Some(i);
        }
        i = i + 1;
    }
    None
}

/// The footprint to commit for a click at `world_pos` while placing a tile of
/// kind `tile`: the tile anchors at the legal position under the pointer, and
/// is placed only if it overlaps none of the `existing` footprints.
///
/// Returns `None` when the placement is refused, or the point lies outside
/// the grid's range.
pub fn place_tile_at(tile: Tile, world_pos: WorldPos, existing: &[GridExtent]) -> (r: Option<
    GridExtent,
>)
    ensures
        r == match footprint_at(tile, world_pos) {
            Some(e) => if overlaps_any(e, existing@) {
                None
            } else {
                Some(e)
            },
            None => None,
        },
{
    let origin = match GridPosition::from_world_with_offset(world_pos, tile.offset()) {
        Some(g) => g,
        None => {
            return None;
        },
    };
    let extent = tile.extent(origin);
    if validate_placement(&extent, existing) {
        Some(extent)
    } else {
        None
    }
}

} // verus!
