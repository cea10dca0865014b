//! Where marbles may be placed.
use vstd::prelude::*;

use crate::grid::WorldPos;
use crate::tile::{socket_world, GridExtent, Tile};

verus! {

/// The world positions of the output sockets of a tile of kind `tile` with
/// footprint `extent`, drawn mirrored as `flip_x` and `flip_y` say: one
/// position per output, in the order of `Tile::outputs`.
///
/// Marble sockets mark the places where it is legal to place marbles.
pub fn marble_socket_positions(tile: Tile, extent: GridExtent, flip_x: bool, flip_y: bool) -> (r:
    Vec<WorldPos>)
    ensures
        r@.len() == tile.spec_outputs().len(),
        forall|i: int|
            0 <= i < r@.len() ==> #[trigger] r@[i] == socket_world(
                tile.spec_outputs()[i],
                extent,
                flip_x,
                flip_y,
            ),
{
    let outputs = tile.outputs();
    let mut r: Vec<WorldPos> = Vec::new();
    let mut i: usize = 0;
    while i < outputs.len()
        invariant
            0 <= i <= outputs@.len(),
            outputs@ == tile.spec_outputs(),
            r@.len() == i,
            forall|j: int|
                0 <= j < i ==> #[trigger] r@[j] == socket_world(outputs@[j], extent, flip_x, flip_y),
        decreases outputs@.len() - i,
    {
        r.push(outputs[i].to_world(extent, flip_x, flip_y));
        i = i + 1;
    }
    r
}

} // verus!
