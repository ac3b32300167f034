use layout_system::block::{Block, BlockConstraint, BlockLayer, Source};
use layout_system::engraving::{
    largest, Color, Engravable, EngravedBlock, EngravedLine, EngravedSystem, StavePoint, StrokeStyle,
    GUIDE_THICKNESS,
};
use layout_system::grid::{
    HorizontalGridLine, HorizontalGridLineConstraint, HorizontalGridLineType, VerticalGridLine,
    VerticalGridLineConstraint, VerticalGridLineType,
};
use layout_system::layout::{LayoutSystem, SystemJustification};
use layout_system::solver::Positions;
use layout_system::units::{STAVE_SPACE, STAVE_SPACES_ZERO};

fn line(source: Source, from: (i32, i32), to: (i32, i32), color: Color, stroke_style: StrokeStyle) -> Engravable {
    Engravable::Line(EngravedLine {
        source,
        from: StavePoint { x: from.0, y: from.1 },
        to: StavePoint { x: to.0, y: to.1 },
        thickness: GUIDE_THICKNESS,
        color,
        stroke_style,
    })
}

#[test]
fn units() {
    assert_eq!(STAVE_SPACE, 1000);
    assert_eq!(STAVE_SPACES_ZERO, 0);
    assert_eq!(GUIDE_THICKNESS, 100);
}

#[test]
fn the_largest_value_or_zero() {
    assert_eq!(largest(&[]), 0);
    assert_eq!(largest(&[-5]), -5);
    assert_eq!(largest(&[3, 9, 2]), 9);
    assert_eq!(largest(&[-3, -9, -2]), -2);
    assert_eq!(largest(&[7, 7]), 7);
    assert_eq!(largest(&[i32::MIN, i32::MAX, 0]), i32::MAX);
}

#[test]
fn guides_for_horizontal_grid_lines() {
    let lines = vec![
        HorizontalGridLine::new(HorizontalGridLineType::SystemTop),
        HorizontalGridLine::new(HorizontalGridLineType::Staveline3),
        HorizontalGridLine::new(HorizontalGridLineType::SystemBottom),
        HorizontalGridLine::new(HorizontalGridLineType::LyricBelowStaveLine1Top),
    ];
    let guides =
        LayoutSystem::create_debug_engravables_for_horizontal_grid_lines(&lines, &[0, 2000, 4000], 9000);
    // One for each line that has a position.
    assert_eq!(
        guides,
        vec![
            line(Source::none(), (0, 0), (9000, 0), Color::Red, StrokeStyle::Dashed),
            line(Source::none(), (0, 2000), (9000, 2000), Color::Blue, StrokeStyle::Dashed),
            line(Source::none(), (0, 4000), (9000, 4000), Color::Red, StrokeStyle::Dashed),
        ]
    );
    assert!(LayoutSystem::create_debug_engravables_for_horizontal_grid_lines(&lines, &[], 9000).is_empty());
    assert_eq!(
        LayoutSystem::create_debug_engravables_for_horizontal_grid_lines(&lines[..1], &[5, 6, 7], 1).len(),
        1
    );
}

#[test]
fn guides_for_vertical_grid_lines() {
    let colors = [
        (VerticalGridLineType::SystemStart, Color::Red),
        (VerticalGridLineType::PartGroupNameStart, Color::GreenYellow),
        (VerticalGridLineType::PartGroupNameEnd, Color::GreenYellow),
        (VerticalGridLineType::PartNameStart, Color::GreenYellow),
        (VerticalGridLineType::PartNameEnd, Color::GreenYellow),
        (VerticalGridLineType::PartStaveBraceStart, Color::Chocolate),
        (VerticalGridLineType::PartStaveBraceEnd, Color::Chocolate),
        (VerticalGridLineType::PartGroupLine, Color::CadetBlue),
        (VerticalGridLineType::PartGroupBracketStart, Color::Chocolate),
        (VerticalGridLineType::PartGroupBracketEnd, Color::Chocolate),
        (VerticalGridLineType::SystemicLine, Color::Aqua),
        (VerticalGridLineType::InstrumentLayoutStart, Color::CornflowerBlue),
        (VerticalGridLineType::AnteriorStart, Color::Red),
        (VerticalGridLineType::AnteriorEnd, Color::Red),
        (VerticalGridLineType::InteriorStart, Color::Red),
        (VerticalGridLineType::ClefColumnStart, Color::Firebrick),
        (VerticalGridLineType::ClefColumnEnd, Color::Firebrick),
        (VerticalGridLineType::KeySignatureColumnStart, Color::LawnGreen),
        (VerticalGridLineType::KeySignatureColumnEnd, Color::LawnGreen),
        (VerticalGridLineType::TimeSignatureColumnStart, Color::SandyBrown),
        (VerticalGridLineType::TimeSignatureColumnEnd, Color::SandyBrown),
        (VerticalGridLineType::StemColumnStart, Color::Orange),
        (VerticalGridLineType::NoteheadLine0AccidentalStackStart, Color::DeepPink),
        (VerticalGridLineType::NoteheadLine0AccidentalStackEnd, Color::DeepPink),
        (VerticalGridLineType::NoteheadLine0NoteheadStackStart, Color::Cyan),
        (VerticalGridLineType::RhythmicSpacingStart, Color::Green),
        (VerticalGridLineType::RhythmicSpacingEnd, Color::Green),
        (VerticalGridLineType::LyricSyllableEnd, Color::Blue),
        (VerticalGridLineType::StemColumnEnd, Color::Orange),
        (VerticalGridLineType::BarlineStart, Color::BlueViolet),
        (VerticalGridLineType::BarlineEnd, Color::BlueViolet),
        (VerticalGridLineType::InteriorEnd, Color::Red),
        (VerticalGridLineType::PosteriorStart, Color::Red),
        (VerticalGridLineType::PosteriorEnd, Color::Red),
        (VerticalGridLineType::InstrumentLayoutEnd, Color::CornflowerBlue),
        (VerticalGridLineType::SystemEnd, Color::Red),
    ];
    let lines: Vec<VerticalGridLine> = colors.iter().map(|entry| VerticalGridLine::new(entry.0)).collect();
    let positions: Vec<i32> = (0..colors.len() as i32).map(|i| i * 100).collect();
    let guides = LayoutSystem::create_debug_engravables_for_vertical_grid_lines(&lines, &positions, 7000);
    assert_eq!(guides.len(), colors.len());
    for (i, guide) in guides.iter().enumerate() {
        let x = i as i32 * 100;
        assert_eq!(*guide, line(Source::none(), (x, 0), (x, 7000), colors[i].1, StrokeStyle::Dashed));
    }
    assert_eq!(
        LayoutSystem::create_debug_engravables_for_vertical_grid_lines(&lines, &positions[..2], 7000).len(),
        2
    );
}

#[test]
fn the_outline_of_a_block() {
    let mut block = Block::new(BlockLayer::Foreground);
    block.source = Source { moment_spine_item: Some(9), part_index: Some(1), voice_index: None, onset: Some(480) };
    let sides = LayoutSystem::create_debug_engravable_for_block_bounding_box(
        &block,
        &10,
        &20,
        &30,
        &40,
        Color::DarkViolet,
    );
    assert_eq!(
        sides,
        vec![
            line(block.source, (30, 10), (40, 10), Color::DarkViolet, StrokeStyle::Solid),
            line(block.source, (40, 10), (40, 20), Color::DarkViolet, StrokeStyle::Solid),
            line(block.source, (40, 20), (30, 20), Color::DarkViolet, StrokeStyle::Solid),
            line(block.source, (30, 20), (30, 10), Color::DarkViolet, StrokeStyle::Solid),
        ]
    );
    assert_eq!(sides[0].get_x(), 30);
    assert_eq!(sides[0].get_y(), 10);
    assert_eq!(sides[0].get_width(), 10);
    assert_eq!(sides[0].get_height(), 0);
    assert_eq!(sides[2].get_width(), -10);
    assert_eq!(sides[1].get_height(), 10);

    let all = LayoutSystem::create_debug_engravables_for_block_bounding_boxes(
        &[block.clone(), Block::new(BlockLayer::Background)],
        &[10, 1],
        &[20, 2],
        &[30, 3],
        &[40, 4],
    );
    assert_eq!(all.len(), 8);
    assert_eq!(all[..4], sides[..]);
    assert_eq!(all[4], line(Source::none(), (3, 1), (4, 1), Color::DarkViolet, StrokeStyle::Solid));
    // Only blocks with all four edges get an outline.
    let some = LayoutSystem::create_debug_engravables_for_block_bounding_boxes(
        &[block.clone(), Block::new(BlockLayer::Background)],
        &[10, 1],
        &[20],
        &[30, 3],
        &[40, 4],
    );
    assert_eq!(some, sides);
}

#[test]
fn layers_hold_their_visible_blocks_in_order() {
    let mut hidden = Block::new(BlockLayer::Foreground);
    hidden.visible = false;
    let mut fixed = Block::new_fixed(BlockLayer::Foreground, 700, 300);
    fixed.end_padding = 50;
    fixed.source.part_index = Some(2);
    let blocks = vec![
        Block::new(BlockLayer::Foreground),
        Block::new(BlockLayer::Midground),
        hidden,
        Block::new_spacing(500),
        fixed.clone(),
        Block::new(BlockLayer::Background),
    ];
    let tops = [0, 1, 2, 3, 4, 5];
    let bottoms = [10, 11, 12, 13, 14, 15];
    let starts = [20, 21, 22, 23, 24, 25];
    let ends = [30, 31, 32, 33, 34, 35];
    let layer = |layer: BlockLayer, show: bool| {
        LayoutSystem::create_engravables_from_blocks_in_layer(&blocks, layer, &tops, &bottoms, &starts, &ends, show)
    };
    let variable = |i: i32| {
        Engravable::Block(EngravedBlock {
            source: Source::none(),
            top: i,
            bottom: 10 + i,
            start: 20 + i,
            end: 30 + i,
            fixed_width: None,
            fixed_height: None,
        })
    };
    let drawn_fixed = Engravable::Block(EngravedBlock {
        source: fixed.source,
        top: 4,
        bottom: 14,
        start: 24,
        end: 34,
        fixed_width: Some(700),
        fixed_height: Some(300),
    });
    assert_eq!(layer(BlockLayer::Foreground, false), vec![variable(0), drawn_fixed]);
    assert_eq!(layer(BlockLayer::Midground, false), vec![variable(1)]);
    assert_eq!(layer(BlockLayer::Background, false), vec![variable(5)]);
    let spacing = Engravable::Block(EngravedBlock {
        source: Source::none(),
        top: 3,
        bottom: 13,
        start: 23,
        end: 33,
        fixed_width: Some(500),
        fixed_height: Some(0),
    });
    assert_eq!(layer(BlockLayer::Background, true), vec![spacing, variable(5)]);
    assert_eq!(layer(BlockLayer::Foreground, true), vec![variable(0), drawn_fixed]);

    // What is drawn of a fixed block has its own size, of another the
    // distance between its edges.
    assert_eq!(drawn_fixed.get_x(), 24);
    assert_eq!(drawn_fixed.get_y(), 4);
    assert_eq!(drawn_fixed.get_width(), 700);
    assert_eq!(drawn_fixed.get_height(), 300);
    assert_eq!(variable(0).get_width(), 10);
    assert_eq!(variable(0).get_height(), 10);
    assert_eq!(Engravable::new_from_block(&fixed, 4, 14, 24, 34), drawn_fixed);

    // Blocks without all four edges are left out.
    let short = LayoutSystem::create_engravables_from_blocks_in_layer(
        &blocks,
        BlockLayer::Foreground,
        &tops,
        &bottoms,
        &starts[..4],
        &ends,
        false,
    );
    assert_eq!(short, vec![variable(0)]);
}

fn small_system(draw_horizontal: bool, draw_vertical: bool, show_spacing: bool, draw_outlines: bool) -> LayoutSystem {
    let mut h1 = HorizontalGridLine::new(HorizontalGridLineType::Staveline1);
    h1.add_constraint(HorizontalGridLineConstraint::LockBelowHorizontalGridLineByDistance(0, 1000));
    let mut v1 = VerticalGridLine::new(VerticalGridLineType::BarlineStart);
    v1.add_constraint(VerticalGridLineConstraint::LockAfterVerticalGridLineByDistance(0, 2000));
    let mut spacing = Block::new_spacing(500);
    spacing.add_constraint(BlockConstraint::LockTopToHorizontalGridLine(0));
    spacing.add_constraint(BlockConstraint::LockStartToVerticalGridLine(0));
    let mut marker = Block::new(BlockLayer::Background);
    marker.add_constraint(BlockConstraint::LockTopToHorizontalGridLine(0));
    marker.add_constraint(BlockConstraint::LockBottomToHorizontalGridLine(1));
    marker.add_constraint(BlockConstraint::LockStartToVerticalGridLine(1));
    marker.add_constraint(BlockConstraint::LockEndToVerticalGridLine(1));
    LayoutSystem::new(
        2,
        100,
        200,
        SystemJustification::Justified,
        8000,
        vec![HorizontalGridLine::new(HorizontalGridLineType::SystemTop), h1],
        vec![VerticalGridLine::new(VerticalGridLineType::SystemStart), v1],
        0,
        0,
        vec![spacing, marker],
        draw_horizontal,
        draw_vertical,
        show_spacing,
        draw_outlines,
    )
}

fn solved() -> Positions {
    Positions {
        horizontal_grid_lines: vec![0, 1000],
        vertical_grid_lines: vec![0, 2000],
        block_tops: vec![0, 100],
        block_bottoms: vec![0, 900],
        block_starts: vec![0, 500],
        block_ends: vec![500, 1500],
    }
}

#[test]
fn an_engraved_system_is_put_together_from_positions() {
    let plain: EngravedSystem = small_system(false, false, false, false).assemble(solved(), vec![(1, 0)]);
    assert_eq!(plain.get_index_in_movement(), 2);
    assert_eq!(plain.get_start_ticks(), 100);
    assert_eq!(plain.get_end_ticks(), 200);
    assert_eq!(plain.get_horizontal_grid_line_positions(), &[0, 1000]);
    assert_eq!(plain.get_vertical_grid_line_positions(), &[0, 2000]);
    assert_eq!(plain.get_width(), 1500);
    assert_eq!(plain.get_height(), 900);
    assert_eq!(plain.get_unresolved_collisions(), &[(1, 0)]);
    assert!(plain.get_foreground().is_empty());
    assert!(plain.get_midground().is_empty());
    let block = Engravable::Block(EngravedBlock {
        source: Source::none(),
        top: 100,
        bottom: 900,
        start: 500,
        end: 1500,
        fixed_width: None,
        fixed_height: None,
    });
    assert_eq!(plain.get_background(), &[block]);

    // Guides follow the blocks of the background: horizontal grid lines,
    // vertical grid lines, then outlines.
    let full = small_system(true, true, true, true).assemble(solved(), vec![]);
    let background = full.get_background();
    assert_eq!(background.len(), 2 + 2 + 2 + 8);
    assert_eq!(background[1], block);
    assert_eq!(background[0].get_width(), 500);
    assert_eq!(background[2], line(Source::none(), (0, 0), (1500, 0), Color::Red, StrokeStyle::Dashed));
    assert_eq!(background[3], line(Source::none(), (0, 1000), (1500, 1000), Color::Blue, StrokeStyle::Dashed));
    assert_eq!(background[4], line(Source::none(), (0, 0), (0, 900), Color::Red, StrokeStyle::Dashed));
    assert_eq!(
        background[5],
        line(Source::none(), (2000, 0), (2000, 900), Color::BlueViolet, StrokeStyle::Dashed)
    );
    assert_eq!(background[6], line(Source::none(), (0, 0), (500, 0), Color::DarkViolet, StrokeStyle::Solid));
    assert_eq!(
        background[13],
        line(Source::none(), (500, 900), (500, 100), Color::DarkViolet, StrokeStyle::Solid)
    );

    let only_vertical = small_system(false, true, false, false).assemble(solved(), vec![]);
    assert_eq!(only_vertical.get_background().len(), 1 + 2);
    let only_outlines = small_system(false, false, false, true).assemble(solved(), vec![]);
    assert_eq!(only_outlines.get_background().len(), 1 + 8);
}

#[test]
fn guides_do_not_move_anything() {
    let plain = small_system(false, false, false, false).engrave().unwrap();
    let full = small_system(true, true, true, true).engrave().unwrap();
    assert_eq!(plain.get_horizontal_grid_line_positions(), full.get_horizontal_grid_line_positions());
    assert_eq!(plain.get_vertical_grid_line_positions(), full.get_vertical_grid_line_positions());
    assert_eq!(plain.get_width(), full.get_width());
    assert_eq!(plain.get_height(), full.get_height());
    assert_eq!(plain.get_background()[0], full.get_background()[1]);
    assert_eq!(plain.get_horizontal_grid_line_positions(), &[0, 1000]);
    assert_eq!(plain.get_vertical_grid_line_positions(), &[0, 2000]);
    // The system is 2 wide before it is justified; the spacing block of
    // half a stave space is stretched by (0.5 + 8 - 2) / 0.5 = 13.
    assert_eq!(plain.get_width(), 6500);
    assert_eq!(plain.get_height(), 1000);
    assert_eq!(full.get_background()[0].get_x(), 0);
    assert_eq!(full.get_background()[0].get_width(), 500);
}

#[test]
fn a_system_keeps_what_it_was_made_from() {
    let system = small_system(true, false, true, false);
    assert_eq!(system.get_justification(), SystemJustification::Justified);
    assert_eq!(system.get_target_system_width(), 8000);
    assert_eq!(system.get_horizontal_grid_lines().len(), 2);
    assert_eq!(
        system.get_horizontal_grid_lines()[1].get_grid_line_type(),
        HorizontalGridLineType::Staveline1
    );
    assert_eq!(
        system.get_horizontal_grid_lines()[1].get_constraints(),
        &[HorizontalGridLineConstraint::LockBelowHorizontalGridLineByDistance(0, 1000)]
    );
    assert_eq!(system.get_vertical_grid_lines().len(), 2);
    assert_eq!(
        system.get_vertical_grid_lines()[1].get_grid_line_type(),
        VerticalGridLineType::BarlineStart
    );
    assert_eq!(
        system.get_vertical_grid_lines()[1].get_constraints(),
        &[VerticalGridLineConstraint::LockAfterVerticalGridLineByDistance(0, 2000)]
    );
    assert_eq!(system.get_top_edge(), 0);
    assert_eq!(system.get_leading_edge(), 0);
    assert_eq!(system.get_blocks().len(), 2);
    assert!(system.get_blocks()[0].is_spacing_block());
    assert_eq!(system.get_blocks()[0].get_fixed_width(), 500);
    assert_eq!(
        system.get_blocks()[0].get_constraints(),
        &[
            BlockConstraint::LockTopToHorizontalGridLine(0),
            BlockConstraint::LockStartToVerticalGridLine(0)
        ]
    );
    assert_eq!(system.get_index_in_movement(), 2);
    assert_eq!(system.get_start_ticks(), 100);
    assert_eq!(system.get_end_ticks(), 200);
    assert!(system.get_debug_do_draw_horizontal_grid_lines());
    assert!(!system.get_debug_do_draw_vertical_grid_lines());
    assert!(system.get_debug_do_show_rhythmic_spacing());
    assert!(!system.get_debug_do_draw_block_outlines());
}

#[test]
fn blocks_are_made_with_plain_defaults() {
    let block = Block::new(BlockLayer::Midground);
    assert_eq!(block.get_layer(), BlockLayer::Midground);
    assert!(block.is_visible());
    assert!(!block.is_fixed_width());
    assert!(!block.is_fixed_height());
    assert_eq!(block.get_fixed_width(), 0);
    assert_eq!(block.get_fixed_height(), 0);
    assert_eq!(block.get_descent(), 0);
    assert_eq!(block.get_top_padding(), 0);
    assert_eq!(block.get_bottom_padding(), 0);
    assert_eq!(block.get_start_padding(), 0);
    assert_eq!(block.get_end_padding(), 0);
    assert!(block.get_constraints().is_empty());
    assert!(!block.is_collidable());
    assert!(!block.is_spacing_block());
    assert!(!block.get_can_move_up_to_avoid_vertical_collision());
    assert!(!block.get_can_move_down_to_avoid_vertical_collision());
    assert_eq!(block.get_source(), Source::none());

    let fixed = Block::new_fixed(BlockLayer::Foreground, 12, 34);
    assert!(fixed.is_fixed_width() && fixed.is_fixed_height());
    assert_eq!((fixed.get_fixed_width(), fixed.get_fixed_height()), (12, 34));

    let spacing = Block::new_spacing(56);
    assert!(spacing.is_spacing_block());
    assert!(spacing.is_fixed_width());
    assert_eq!(spacing.get_fixed_width(), 56);
    assert_eq!(spacing.get_layer(), BlockLayer::Background);

    let one = Source { moment_spine_item: Some(1), part_index: None, voice_index: None, onset: None };
    let other = Source { moment_spine_item: Some(1), part_index: Some(3), voice_index: None, onset: Some(9) };
    let third = Source { moment_spine_item: Some(2), part_index: None, voice_index: None, onset: None };
    assert!(one.same_spine_item(&other));
    assert!(!one.same_spine_item(&third));
    assert!(!one.same_spine_item(&Source::none()));
    assert!(Source::none().same_spine_item(&Source::none()));
}
