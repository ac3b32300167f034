use layout_system::block::{Block, BlockConstraint, BlockLayer};
use layout_system::grid::{
    HorizontalGridLine, HorizontalGridLineType, VerticalGridLine, VerticalGridLineConstraint,
    VerticalGridLineType,
};
use layout_system::layout::{LayoutSystem, SystemJustification};
use layout_system::resolution::MINIMUM_COLLISION_GAP;
use layout_system::units::{BlockIndex, StaveSpaces, STAVE_SPACE};

fn collidable(spine_item: Option<u64>) -> Block {
    let mut block = Block::new(BlockLayer::Foreground);
    block.collidable = true;
    block.source.moment_spine_item = spine_item;
    block
}

/// Detects collisions among blocks given as (block, top, bottom, start, end).
fn detect(
    placed: &[(Block, StaveSpaces, StaveSpaces, StaveSpaces, StaveSpaces)],
    horizontal_grid_lines_count: usize,
    vertical_grid_lines_count: usize,
) -> Vec<(BlockIndex, BlockIndex)> {
    let blocks: Vec<Block> = placed.iter().map(|entry| entry.0.clone()).collect();
    let tops: Vec<StaveSpaces> = placed.iter().map(|entry| entry.1).collect();
    let bottoms: Vec<StaveSpaces> = placed.iter().map(|entry| entry.2).collect();
    let starts: Vec<StaveSpaces> = placed.iter().map(|entry| entry.3).collect();
    let ends: Vec<StaveSpaces> = placed.iter().map(|entry| entry.4).collect();
    LayoutSystem::detect_colliding_blocks(
        &blocks,
        horizontal_grid_lines_count,
        vertical_grid_lines_count,
        &tops,
        &bottoms,
        &starts,
        &ends,
    )
}

#[test]
fn overlapping_blocks_collide_both_ways() {
    let placed = [
        (collidable(Some(1)), 0, 1000, 0, 2000),
        (collidable(Some(2)), 500, 1500, 1000, 3000),
    ];
    assert_eq!(detect(&placed, 0, 0), vec![(0, 1), (1, 0)]);
    assert_eq!(detect(&placed, 1, 0), vec![(0, 1), (1, 0)]);
}

#[test]
fn blocks_of_the_same_spine_item_never_collide() {
    let placed = [
        (collidable(Some(1)), 0, 1000, 0, 2000),
        (collidable(Some(1)), 500, 1500, 1000, 3000),
    ];
    assert_eq!(detect(&placed, 0, 0), vec![]);
    assert_eq!(detect(&placed, 1, 0), vec![]);

    // Blocks without a spine item count as one origin.
    let placed = [
        (collidable(None), 0, 1000, 0, 2000),
        (collidable(None), 500, 1500, 1000, 3000),
    ];
    assert_eq!(detect(&placed, 0, 0), vec![]);

    let placed = [
        (collidable(None), 0, 1000, 0, 2000),
        (collidable(Some(0)), 500, 1500, 1000, 3000),
    ];
    assert_eq!(detect(&placed, 0, 0), vec![(0, 1), (1, 0)]);
}

#[test]
fn only_collidable_blocks_collide() {
    let mut passive = collidable(Some(2));
    passive.collidable = false;
    let placed = [
        (collidable(Some(1)), 0, 1000, 0, 2000),
        (passive, 500, 1500, 1000, 3000),
    ];
    assert_eq!(detect(&placed, 0, 0), vec![]);
    assert_eq!(detect(&placed, 1, 0), vec![]);
}

#[test]
fn blocks_must_overlap_in_both_axes() {
    // Side by side in x only.
    let placed = [
        (collidable(Some(1)), 0, 1000, 0, 2000),
        (collidable(Some(2)), 2000, 3000, 1000, 3000),
    ];
    assert_eq!(detect(&placed, 0, 0), vec![]);
    assert_eq!(detect(&placed, 1, 0), vec![]);

    // Touching edges do not overlap: extents are half open.
    let placed = [
        (collidable(Some(1)), 0, 1000, 0, 2000),
        (collidable(Some(2)), 0, 1000, 2000, 3000),
    ];
    assert_eq!(detect(&placed, 0, 0), vec![]);
    assert_eq!(detect(&placed, 1, 0), vec![]);

    // One unit of overlap is enough.
    let placed = [
        (collidable(Some(1)), 0, 1000, 0, 2000),
        (collidable(Some(2)), 999, 1200, 1999, 3000),
    ];
    assert_eq!(detect(&placed, 0, 0), vec![(0, 1), (1, 0)]);
}

#[test]
fn empty_and_reversed_extents_are_left_out() {
    // No width.
    let placed = [
        (collidable(Some(1)), 0, 1000, 500, 500),
        (collidable(Some(2)), 0, 1000, 0, 2000),
    ];
    assert_eq!(detect(&placed, 0, 0), vec![]);
    assert_eq!(detect(&placed, 1, 0), vec![]);

    // No height.
    let placed = [
        (collidable(Some(1)), 500, 500, 0, 2000),
        (collidable(Some(2)), 0, 1000, 0, 2000),
    ];
    assert_eq!(detect(&placed, 0, 0), vec![]);
    assert_eq!(detect(&placed, 1, 0), vec![]);

    // End before start.
    let placed = [
        (collidable(Some(1)), 0, 1000, 2000, 0),
        (collidable(Some(2)), 0, 1000, 0, 2000),
    ];
    assert_eq!(detect(&placed, 0, 0), vec![]);
    assert_eq!(detect(&placed, 1, 0), vec![]);
}

#[test]
fn the_scanned_axis_changes_the_order_not_the_pairs() {
    // Block 0 covers everything. Block 1 lies to the right and at the top,
    // block 2 to the left and at the bottom.
    let placed = [
        (collidable(Some(0)), 0, 10000, 0, 10000),
        (collidable(Some(1)), 1000, 2000, 7000, 8000),
        (collidable(Some(2)), 5000, 6000, 3000, 4000),
    ];

    // Scanned across, the pairs of block 0 come by start position; block 0
    // finds itself first and passes over that.
    let across = detect(&placed, 2, 1);
    assert_eq!(across, vec![(0, 2), (0, 1), (1, 0), (2, 0)]);

    // Scanned down, they come by top position.
    let down = detect(&placed, 1, 1);
    assert_eq!(down, vec![(0, 1), (0, 2), (1, 0), (2, 0)]);

    let mut sorted_across = across.clone();
    sorted_across.sort();
    let mut sorted_down = down.clone();
    sorted_down.sort();
    assert_eq!(sorted_across, sorted_down);
}

fn sorted(mut pairs: Vec<(BlockIndex, BlockIndex)>) -> Vec<(BlockIndex, BlockIndex)> {
    pairs.sort();
    pairs
}

#[test]
fn blocks_with_the_same_extent_are_all_found() {
    // Blocks 1 and 2 have the same extent across. Both collide with block
    // 0 and with each other; in which order the two are found from block 0
    // is left open where the scan goes across.
    let placed = [
        (collidable(Some(0)), 0, 10000, 0, 10000),
        (collidable(Some(1)), 1000, 2000, 3000, 4000),
        (collidable(Some(2)), 1500, 2500, 3000, 4000),
    ];
    let all = vec![(0, 1), (0, 2), (1, 0), (1, 2), (2, 0), (2, 1)];
    let across = detect(&placed, 2, 1);
    assert_eq!(across.len(), 6);
    assert_eq!(sorted(across.clone()), all);
    assert_eq!(across[2..], [(1, 0), (1, 2), (2, 0), (2, 1)]);
    assert_eq!(detect(&placed, 1, 1), all);

    // The same extent in both axes.
    let placed = [
        (collidable(Some(0)), 0, 1000, 0, 1000),
        (collidable(Some(1)), 0, 1000, 0, 1000),
        (collidable(Some(2)), 0, 1000, 0, 1000),
    ];
    assert_eq!(sorted(detect(&placed, 2, 1)), all);
    assert_eq!(sorted(detect(&placed, 1, 1)), all);
}

#[test]
fn a_block_is_not_hidden_by_a_later_one_of_the_same_extent() {
    // Blocks 1 and 2 have the same extent across; only block 1 overlaps
    // block 0 down.
    let placed = [
        (collidable(Some(0)), 0, 10, 0, 10),
        (collidable(Some(1)), 5, 15, 5, 15),
        (collidable(Some(2)), 20, 30, 5, 15),
    ];
    assert_eq!(detect(&placed, 2, 1), vec![(0, 1), (1, 0)]);
    assert_eq!(detect(&placed, 1, 1), vec![(0, 1), (1, 0)]);
}

#[test]
fn equal_low_ends_come_in_the_order_of_their_high_ends() {
    let placed = [
        (collidable(Some(0)), 0, 10000, 0, 10000),
        (collidable(Some(1)), 0, 1000, 5000, 9000),
        (collidable(Some(2)), 2000, 3000, 5000, 6000),
    ];
    assert_eq!(detect(&placed, 2, 1)[..2], [(0, 2), (0, 1)]);
    assert_eq!(detect(&placed, 1, 1)[..2], [(0, 1), (0, 2)]);
}

fn two_blocks_on_one_line(second: Block) -> LayoutSystem {
    let h0 = HorizontalGridLine::new(HorizontalGridLineType::SystemTop);
    let v0 = VerticalGridLine::new(VerticalGridLineType::SystemStart);
    let mut v1 = VerticalGridLine::new(VerticalGridLineType::SystemEnd);
    v1.add_constraint(VerticalGridLineConstraint::LockAfterVerticalGridLineByDistance(0, STAVE_SPACE));

    let mut first = Block::new_fixed(BlockLayer::Foreground, 2000, 1000);
    first.collidable = true;
    first.source.moment_spine_item = Some(1);
    first.add_constraint(BlockConstraint::LockTopToHorizontalGridLine(0));
    first.add_constraint(BlockConstraint::LockStartToVerticalGridLine(0));

    LayoutSystem::new(
        0,
        0,
        0,
        SystemJustification::AlignStart,
        0,
        vec![h0],
        vec![v0, v1],
        0,
        0,
        vec![first, second],
        false,
        false,
        false,
        false,
    )
}

#[test]
fn a_colliding_block_is_moved_behind_the_other() {
    // The second block floats after the line at 1, which lies within the
    // first block; nothing else holds it there.
    let mut second = Block::new_fixed(BlockLayer::Foreground, 1500, 1000);
    second.collidable = true;
    second.source.moment_spine_item = Some(2);
    second.add_constraint(BlockConstraint::LockTopToHorizontalGridLine(0));
    second.add_constraint(BlockConstraint::FloatStartAfterVerticalGridLine(1));

    let engraved = two_blocks_on_one_line(second).engrave().unwrap();
    let first = engraved.get_foreground()[0];
    let second = engraved.get_foreground()[1];
    assert_eq!(first.get_x(), 0);
    assert_eq!(second.get_x(), 2000 + MINIMUM_COLLISION_GAP);
    assert_eq!(MINIMUM_COLLISION_GAP, 250);
    assert!(engraved.get_unresolved_collisions().is_empty());
    assert_eq!(engraved.get_width(), 3750);
}

#[test]
fn blocks_of_one_origin_are_left_where_they_overlap() {
    let mut second = Block::new_fixed(BlockLayer::Foreground, 1500, 1000);
    second.collidable = true;
    second.source.moment_spine_item = Some(1);
    second.add_constraint(BlockConstraint::LockTopToHorizontalGridLine(0));
    second.add_constraint(BlockConstraint::FloatStartAfterVerticalGridLine(1));

    let engraved = two_blocks_on_one_line(second).engrave().unwrap();
    assert_eq!(engraved.get_foreground()[0].get_x(), 0);
    assert_eq!(engraved.get_foreground()[1].get_x(), 1000);
    assert!(engraved.get_unresolved_collisions().is_empty());
}

#[test]
fn a_collision_that_needs_a_vertical_move_is_reported() {
    let mut second = Block::new_fixed(BlockLayer::Foreground, 1500, 1000);
    second.collidable = true;
    second.can_move_down_to_avoid_vertical_collision = true;
    second.source.moment_spine_item = Some(2);
    second.add_constraint(BlockConstraint::LockTopToHorizontalGridLine(0));
    second.add_constraint(BlockConstraint::FloatStartAfterVerticalGridLine(1));

    let engraved = two_blocks_on_one_line(second).engrave().unwrap();
    assert_eq!(engraved.get_foreground()[0].get_x(), 0);
    assert_eq!(engraved.get_foreground()[1].get_x(), 1000);
    assert_eq!(engraved.get_unresolved_collisions(), &[(0, 1), (1, 0)]);
}

#[test]
fn resolve_colliding_blocks_vertically_hands_the_pair_back() {
    assert!(matches!(LayoutSystem::resolve_colliding_blocks_vertically(3, 8), Ok((3, 8))));
}
