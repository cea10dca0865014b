use roonsim::grid::{GridPosition, WorldPos};
use roonsim::tile::{all_tiles, GridExtent, IoCoord, Marble, MarbleY, Offset, Tile};

fn extent(x: i32, y: i32, width: i32) -> GridExtent {
    GridExtent { origin: GridPosition { x, y }, width }
}

#[test]
fn grid_widths_by_kind() {
    assert_eq!(Tile::Path.grid_width(), 4);
    assert_eq!(Tile::Shimmy.grid_width(), 4);
    for t in [Tile::Canute, Tile::Switch, Tile::Turn, Tile::Swap, Tile::Xor] {
        assert_eq!(t.grid_width(), 8);
    }
    for t in [Tile::Distributor, Tile::LongTurn, Tile::Trap] {
        assert_eq!(t.grid_width(), 12);
    }
}

#[test]
fn only_shimmy_is_odd() {
    for t in all_tiles() {
        let expected = if t == Tile::Shimmy { Offset::Odd } else { Offset::Even };
        assert_eq!(t.offset(), expected);
    }
}

#[test]
fn two_square_tile_footprint_at_origin() {
    let e = Tile::Canute.extent(GridPosition { x: 0, y: 0 });
    assert_eq!(e, extent(0, 0, 8));
    assert_eq!(e.origin, GridPosition { x: 0, y: 0 });
    assert_eq!(e.width, 8);
}

#[test]
fn next_cycles_through_every_kind() {
    let order = all_tiles();
    assert_eq!(order.len(), 10);
    for i in 0..order.len() {
        assert_eq!(order[i].next(), order[(i + 1) % order.len()]);
    }
    assert_eq!(Tile::Xor.next(), Tile::Canute);
    assert_eq!(Tile::LongTurn.next(), Tile::Path);
}

#[test]
fn default_tile_is_path() {
    assert_eq!(Tile::default(), Tile::Path);
}

#[test]
fn names_and_sprite_files() {
    assert_eq!(Tile::LongTurn.name(), "long_turn");
    assert_eq!(Tile::Distributor.name(), "distributor");
    assert_eq!(Tile::LongTurn.sprite_filename(), "long_turn.png");
    assert_eq!(Tile::Xor.sprite_filename(), "xor.png");
    assert_eq!(Marble::sprite_filename(), "marble.png");
}

#[test]
fn outputs_table() {
    assert_eq!(
        Tile::Canute.outputs(),
        vec![IoCoord::bottom(2), IoCoord::top(4), IoCoord::top(6)]
    );
    assert_eq!(Tile::Shimmy.outputs(), vec![IoCoord::top(3)]);
    assert_eq!(
        Tile::LongTurn.outputs(),
        vec![IoCoord::bottom(2), IoCoord::bottom(6), IoCoord::bottom(10)]
    );
    assert_eq!(Tile::Trap.outputs().len(), 3);
}

#[test]
fn io_table_shape() {
    let path = Tile::Path.io();
    assert_eq!(path.inputs, vec![IoCoord::bottom(2)]);
    assert_eq!(path.outputs, vec![IoCoord::top(2)]);
    assert!(path.sticky.is_empty());
    let swap = Tile::Swap.io();
    assert!(swap.inputs.is_empty());
    assert_eq!(swap.outputs, Tile::Swap.outputs());
}

#[test]
fn marble_levels() {
    assert_eq!(MarbleY::Bottom.to_grid(), 1);
    assert_eq!(MarbleY::Middle.to_grid(), 2);
    assert_eq!(MarbleY::Top.to_grid(), 3);
    assert_eq!(IoCoord::top(5), IoCoord { x: 5, y: MarbleY::Top });
}

#[test]
fn socket_positions_under_flips() {
    let e = extent(8, 4, 8);
    let c = IoCoord::bottom(2);
    assert_eq!(c.to_world(e, false, false), WorldPos { x: 10 * 1024, y: 5 * 1024 });
    assert_eq!(c.to_world(e, true, false), WorldPos { x: 14 * 1024, y: 5 * 1024 });
    assert_eq!(c.to_world(e, false, true), WorldPos { x: 10 * 1024, y: 4 * 1024 });
    assert_eq!(c.to_world(e, true, true), WorldPos { x: 14 * 1024, y: 4 * 1024 });
    let t = IoCoord::top(6);
    assert_eq!(t.to_world(e, false, true), WorldPos { x: 14 * 1024, y: 2 * 1024 });
}

#[test]
fn horizontal_flip_mirrors_about_footprint_middle() {
    let e = extent(-6, 8, 12);
    let middle_twice = 2 * (-6 * 1024) + 12 * 1024;
    for c in [IoCoord::bottom(2), IoCoord::top(6), IoCoord::top(10), IoCoord { x: 1, y: MarbleY::Middle }] {
        let plain = c.to_world(e, false, false);
        let flipped = c.to_world(e, true, false);
        assert_eq!(plain.x + flipped.x, middle_twice);
        assert_eq!(plain.y, flipped.y);
    }
}

#[test]
fn intersects_is_symmetric_and_reflexive() {
    let a = extent(0, 0, 8);
    let b = extent(4, 0, 4);
    let c = extent(20, 0, 4);
    assert!(a.intersects(&a));
    assert!(c.intersects(&c));
    assert!(a.intersects(&b));
    assert!(b.intersects(&a));
    assert!(!a.intersects(&c));
    assert!(!c.intersects(&a));
}

#[test]
fn different_rows_never_intersect() {
    let a = extent(0, 0, 8);
    let b = extent(0, 4, 8);
    assert!(!a.intersects(&b));
    assert!(!b.intersects(&a));
}

#[test]
fn touching_extents_do_not_intersect() {
    let a = extent(-3, 4, 12);
    let b = extent(9, 4, 4);
    assert!(!a.intersects(&b));
    assert!(!b.intersects(&a));
    let overlapping = extent(8, 4, 4);
    assert!(a.intersects(&overlapping));
}

#[test]
fn intersects_near_range_edge() {
    let a = extent(i32::MAX - 4, 0, 8);
    let b = extent(i32::MAX, 0, 4);
    assert!(a.intersects(&b));
    let c = extent(i32::MIN, 0, 4);
    assert!(!a.intersects(&c));
}

#[test]
fn contains_by_row_snapped_position() {
    let e = extent(4, 4, 8);
    // columns 4..12 of the row 4..8
    assert!(e.contains(WorldPos { x: 4 * 1024, y: 4 * 1024 }));
    assert!(e.contains(WorldPos { x: 12 * 1024 - 1, y: 8 * 1024 - 1 }));
    assert!(e.contains(WorldPos { x: 7 * 1024 + 500, y: 6 * 1024 }));
    assert!(!e.contains(WorldPos { x: 4 * 1024 - 1, y: 4 * 1024 }));
    assert!(!e.contains(WorldPos { x: 12 * 1024, y: 4 * 1024 }));
    assert!(!e.contains(WorldPos { x: 5 * 1024, y: 4 * 1024 - 1 }));
    assert!(!e.contains(WorldPos { x: 5 * 1024, y: 8 * 1024 }));
    assert!(!e.contains(WorldPos { x: i64::MAX, y: 4 * 1024 }));
}

#[test]
fn contains_on_negative_row() {
    let e = extent(-8, -4, 4);
    assert!(e.contains(WorldPos { x: -8 * 1024, y: -1 }));
    assert!(e.contains(WorldPos { x: -4 * 1024 - 1, y: -4 * 1024 }));
    assert!(!e.contains(WorldPos { x: -4 * 1024, y: -1 }));
    assert!(!e.contains(WorldPos { x: -8 * 1024, y: 0 }));
}
