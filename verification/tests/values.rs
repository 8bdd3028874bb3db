use puzzle_core::values::{Block, Color, Dimension, Direction, GridPosition, Piece, PixelPosition, PositionedBlock};

#[test]
fn rotations_are_inverse() {
    for d in Direction::all() {
        assert_eq!(d.clockwise().anti_clockwise(), d);
        assert_eq!(d.anti_clockwise().clockwise(), d);
    }
}

#[test]
fn clockwise_cycles_in_four() {
    for d in Direction::all() {
        assert_eq!(d.clockwise().clockwise().clockwise().clockwise(), d);
    }
}

#[test]
fn clockwise_order() {
    assert_eq!(Direction::Up.clockwise(), Direction::Right);
    assert_eq!(Direction::Right.clockwise(), Direction::Down);
    assert_eq!(Direction::Down.clockwise(), Direction::Left);
    assert_eq!(Direction::Left.clockwise(), Direction::Up);
}

#[test]
fn all_directions_in_fixed_order() {
    let all = Direction::all();
    assert_eq!(
        all,
        vec![Direction::Up, Direction::Right, Direction::Down, Direction::Left]
    );
}

#[test]
fn offset_applies_unit_steps() {
    let p = GridPosition::new(3, 4);
    assert_eq!(p.offset(Direction::Up), GridPosition::new(3, 5));
    assert_eq!(p.offset(Direction::Down), GridPosition::new(3, 3));
    assert_eq!(p.offset(Direction::Left), GridPosition::new(2, 4));
    assert_eq!(p.offset(Direction::Right), GridPosition::new(4, 4));
}

#[test]
fn offset_round_trips_through_opposites() {
    let p = GridPosition::new(-2, 7);
    assert_eq!(p.offset(Direction::Up).offset(Direction::Down), p);
    assert_eq!(p.offset(Direction::Down).offset(Direction::Up), p);
    assert_eq!(p.offset(Direction::Left).offset(Direction::Right), p);
    assert_eq!(p.offset(Direction::Right).offset(Direction::Left), p);
}

#[test]
fn grid_position_accessors() {
    let p = GridPosition::new(-128, 127);
    assert_eq!(p.x(), -128);
    assert_eq!(p.y(), 127);
}

#[test]
fn pixel_position_adds_componentwise() {
    let a = PixelPosition::new(10, 20);
    let b = PixelPosition::new(5, 7);
    let c = a.add(b);
    assert_eq!(c.x(), 15);
    assert_eq!(c.y(), 27);
}

#[test]
fn dimension_accessors() {
    let d = Dimension::new(640, 480);
    assert_eq!(d.w(), 640);
    assert_eq!(d.h(), 480);
    let e = Dimension::from_tuple((32, 64));
    assert_eq!(e.w(), 32);
    assert_eq!(e.h(), 64);
}

#[test]
fn fresh_blocks_are_distinct() {
    let a = Block::new(Color::Red, false);
    let b = Block::new(Color::Red, false);
    assert_ne!(a, b);
}

#[test]
fn block_equals_its_copy() {
    let a = Block::new(Color::Green, true);
    let copy = a;
    assert_eq!(a, copy);
    assert_eq!(a, a);
}

#[test]
fn block_carries_color_and_breaker() {
    let a = Block::new(Color::Yellow, true);
    assert_eq!(a.color, Color::Yellow);
    assert!(a.breaker());
    let b = Block::new(Color::Blue, false);
    assert_eq!(b.color, Color::Blue);
    assert!(!b.breaker());
}

#[test]
fn texture_names_cover_all_eight() {
    let cases = [
        (Color::Blue, true, "element_blue_polygon.png"),
        (Color::Red, true, "element_red_polygon.png"),
        (Color::Green, true, "element_green_polygon.png"),
        (Color::Yellow, true, "element_yellow_polygon.png"),
        (Color::Blue, false, "element_blue_square.png"),
        (Color::Red, false, "element_red_square.png"),
        (Color::Green, false, "element_green_square.png"),
        (Color::Yellow, false, "element_yellow_square.png"),
    ];
    for (color, breaker, name) in cases {
        assert_eq!(Block::new(color, breaker).to_texture_name(), name);
    }
}

#[test]
fn color_from_index_order() {
    assert_eq!(Color::from_index(0), Color::Blue);
    assert_eq!(Color::from_index(1), Color::Red);
    assert_eq!(Color::from_index(2), Color::Green);
    assert_eq!(Color::from_index(3), Color::Yellow);
}

#[test]
fn random_colors_roughly_uniform() {
    let mut counts = [0u32; 4];
    for _ in 0..4000 {
        match Color::rand() {
            Color::Blue => counts[0] += 1,
            Color::Red => counts[1] += 1,
            Color::Green => counts[2] += 1,
            Color::Yellow => counts[3] += 1,
        }
    }
    for count in counts {
        assert!(count >= 500, "expected roughly 1000 of each color, got {count}");
    }
}

#[test]
fn rand_piece_starts_at_anchor_facing_up() {
    let piece = Piece::rand(2, 3);
    let blocks = piece.blocks();
    assert_eq!(blocks[0].position(), GridPosition::new(2, 3));
    assert_eq!(blocks[1].position(), GridPosition::new(2, 3).offset(Direction::Up));
}

#[test]
fn blocks_ordered_bottom_to_top() {
    let piece = Piece::rand(4, 4);
    let anchor = piece.blocks()[0].block();
    let orbit = piece.blocks()[1].block();

    let down = piece.dup_to(GridPosition::new(4, 4), Direction::Down);
    let down_blocks = down.blocks();
    assert_eq!(down_blocks[0].block(), orbit);
    assert_eq!(down_blocks[0].position(), GridPosition::new(4, 3));
    assert_eq!(down_blocks[1].block(), anchor);
    assert_eq!(down_blocks[1].position(), GridPosition::new(4, 4));
    assert!(down_blocks[0].y() < down_blocks[1].y());

    for direction in [Direction::Up, Direction::Left, Direction::Right] {
        let turned = piece.dup_to(GridPosition::new(4, 4), direction);
        let blocks = turned.blocks();
        assert_eq!(blocks[0].block(), anchor);
        assert_eq!(blocks[0].position(), GridPosition::new(4, 4));
        assert_eq!(blocks[1].block(), orbit);
        assert_eq!(blocks[1].position(), GridPosition::new(4, 4).offset(direction));
    }
}

#[test]
fn dup_to_preserves_identities() {
    let piece = Piece::rand(1, 1);
    let moved = piece.dup_to(GridPosition::new(5, 9), Direction::Left);
    assert_eq!(moved.blocks()[0].block(), piece.blocks()[0].block());
    assert_eq!(moved.blocks()[1].block(), piece.blocks()[1].block());
    assert_eq!(moved.blocks()[0].position(), GridPosition::new(5, 9));
}

#[test]
fn piece_offset_moves_anchor_only() {
    let piece = Piece::rand(3, 3);
    let moved = piece.offset(Direction::Right);
    assert_eq!(moved.blocks()[0].position(), GridPosition::new(4, 3));
    assert_eq!(moved.blocks()[0].block(), piece.blocks()[0].block());
    assert_eq!(moved.blocks()[1].block(), piece.blocks()[1].block());
}

#[test]
fn piece_rotations_keep_anchor() {
    let piece = Piece::rand(6, 6);
    let cw = piece.clockwise();
    assert_eq!(cw.blocks()[0].position(), GridPosition::new(6, 6));
    assert_eq!(cw.blocks()[1].position(), GridPosition::new(7, 6));
    let back = cw.anti_clockwise();
    assert_eq!(back.blocks()[1].position(), GridPosition::new(6, 7));
    assert_eq!(back.blocks()[0].block(), piece.blocks()[0].block());
}

#[test]
fn positioned_block_offset_keeps_identity() {
    let block = Block::new(Color::Blue, false);
    let placed = PositionedBlock::new(block, GridPosition::new(2, 2));
    let moved = placed.offset(Direction::Down);
    assert_eq!(moved.block(), block);
    assert_eq!(moved.position(), GridPosition::new(2, 1));
    assert_eq!(moved.x(), 2);
    assert_eq!(moved.y(), 1);
    assert_eq!(moved.color(), Color::Blue);
    assert!(!moved.breaker());
}

#[test]
fn positioned_block_equality_is_structural() {
    let block = Block::new(Color::Red, true);
    let here = PositionedBlock::new(block, GridPosition::new(0, 0));
    let same = PositionedBlock::new(block, GridPosition::new(0, 0));
    let there = PositionedBlock::new(block, GridPosition::new(0, 1));
    let other = PositionedBlock::new(Block::new(Color::Red, true), GridPosition::new(0, 0));
    assert_eq!(here, same);
    assert_ne!(here, there);
    assert_ne!(here, other);
}
