//! The value types of the model: positions, dimensions, directions,
//! colors, blocks, positioned blocks, and the two-block piece.

use vstd::prelude::*;
use vstd::std_specs::cmp::PartialEqSpec;

verus! {

/// The four cardinal directions, ordered clockwise: Up, Right, Down, Left.
///
/// A direction serves two roles: a unit step on the grid, and the facing
/// of a piece's orbiting block relative to its anchor.
#[derive(Clone, Copy, Debug, PartialEq, Eq, Structural)]
pub enum Direction {
    Up,
    Right,
    Down,
    Left,
}

impl Direction {
    /// The next direction a quarter turn clockwise.
    pub open spec fn clockwise_spec(self) -> Direction {
        match self {
            Direction::Up => Direction::Right,
            Direction::Right => Direction::Down,
            Direction::Down => Direction::Left,
            Direction::Left => Direction::Up,
        }
    }

    /// The next direction a quarter turn anti-clockwise.
    pub open spec fn anti_clockwise_spec(self) -> Direction {
        match self {
            Direction::Up => Direction::Left,
            Direction::Right => Direction::Up,
            Direction::Down => Direction::Right,
            Direction::Left => Direction::Down,
        }
    }

    /// The direction pointing the opposite way.
    pub open spec fn opposite_spec(self) -> Direction {
        match self {
            Direction::Up => Direction::Down,
            Direction::Right => Direction::Left,
            Direction::Down => Direction::Up,
            Direction::Left => Direction::Right,
        }
    }

    /// The horizontal component of this direction's unit step.
    pub open spec fn step_x(self) -> int {
        match self {
            Direction::Left => -1,
            Direction::Right => 1,
            _ => 0,
        }
    }

    /// The vertical component of this direction's unit step.
    pub open spec fn step_y(self) -> int {
        match self {
            Direction::Up => 1,
            Direction::Down => -1,
            _ => 0,
        }
    }

    /// All four directions in their fixed enumeration order.
    pub fn all() -> (r: Vec<Direction>)
        ensures
            r@.len() == 4,
            r@[0] == Direction::Up,
            r@[1] == Direction::Right,
            r@[2] == Direction::Down,
            r@[3] == Direction::Left,
    {
        vec![Direction::Up, Direction::Right, Direction::Down, Direction::Left]
    }

    pub fn clockwise(&self) -> (r: Self)
        ensures
            r == self.clockwise_spec(),
    {
        match *self {
            Direction::Up => Direction::Right,
            Direction::Right => Direction::Down,
            Direction::Down => Direction::Left,
            Direction::Left => Direction::Up,
        }
    }

    pub fn anti_clockwise(&self) -> (r: Self)
        ensures
            r == self.anti_clockwise_spec(),
    {
        match *self {
            Direction::Up => Direction::Left,
            Direction::Right => Direction::Up,
            Direction::Down => Direction::Right,
            Direction::Left => Direction::Down,
        }
    }
}

/// The two rotations are inverse to each other: a clockwise quarter turn
/// followed by an anti-clockwise one (or the other way round) is the
/// identity on directions.
pub proof fn lemma_rotations_inverse(d: Direction)
    ensures
        d.clockwise_spec().anti_clockwise_spec() == d,
        d.anti_clockwise_spec().clockwise_spec() == d,
{
}

/// Four clockwise quarter turns return every direction to itself.
pub proof fn lemma_clockwise_cycle(d: Direction)
    ensures
        d.clockwise_spec().clockwise_spec().clockwise_spec().clockwise_spec() == d,
{
}

/// A signed coordinate pair on the discrete board grid. The grid's bounds
/// are the caller's concern; this type only does the arithmetic.
#[derive(Clone, Copy, Debug, PartialEq, Eq, Hash, Structural)]
pub struct GridPosition {
    pub x: i8,
    pub y: i8,
}

impl GridPosition {
    pub fn new(x: i8, y: i8) -> (r: Self)
        ensures
            r.x == x,
            r.y == y,
    {
        GridPosition { x, y }
    }

    /// Whether the unit step in `d` stays within the coordinate type.
    pub open spec fn can_offset_spec(self, d: Direction) -> bool {
        &&& i8::MIN <= self.x + d.step_x() <= i8::MAX
        &&& i8::MIN <= self.y + d.step_y() <= i8::MAX
    }

    /// The position one unit step away in `d`.
    pub open spec fn offset_spec(self, d: Direction) -> GridPosition {
        GridPosition { x: (self.x + d.step_x()) as i8, y: (self.y + d.step_y()) as i8 }
    }

    pub fn offset(&self, direction: Direction) -> (r: Self)
        requires
            self.can_offset_spec(direction),
        ensures
            r == self.offset_spec(direction),
            r.x as int == self.x + direction.step_x(),
            r.y as int == self.y + direction.step_y(),
    {
        match direction {
            Direction::Up => GridPosition { x: self.x, y: self.y + 1 },
            Direction::Down => GridPosition { x: self.x, y: self.y - 1 },
            Direction::Left => GridPosition { x: self.x - 1, y: self.y },
            Direction::Right => GridPosition { x: self.x + 1, y: self.y },
        }
    }

    pub fn x(&self) -> (r: i8)
        ensures
            r == self.x,
    {
        self.x
    }

    pub fn y(&self) -> (r: i8)
        ensures
            r == self.y,
    {
        self.y
    }
}

/// Stepping one unit in a direction and then one unit back in the
/// opposite direction returns to the starting position; the step back
/// can never leave the coordinate type.
pub proof fn lemma_offset_round_trip(p: GridPosition, d: Direction)
    requires
        p.can_offset_spec(d),
    ensures
        p.offset_spec(d).can_offset_spec(d.opposite_spec()),
        p.offset_spec(d).offset_spec(d.opposite_spec()) == p,
{
}

/// An unsigned coordinate pair in screen space. Independent of
/// `GridPosition`: no conversion between the two is defined here.
#[derive(Clone, Copy, Debug, PartialEq, Eq, Hash, Structural)]
pub struct PixelPosition {
    pub x: u32,
    pub y: u32,
}

impl PixelPosition {
    pub fn new(x: u32, y: u32) -> (r: Self)
        ensures
            r.x == x,
            r.y == y,
    {
        PixelPosition { x, y }
    }

    pub fn x(&self) -> (r: u32)
        ensures
            r == self.x,
    {
        self.x
    }

    pub fn y(&self) -> (r: u32)
        ensures
            r == self.y,
    {
        self.y
    }

    /// Component-wise vector addition; the caller keeps both sums in range.
    pub fn add(&self, rhs: Self) -> (r: Self)
        requires
            self.x + rhs.x <= u32::MAX,
            self.y + rhs.y <= u32::MAX,
        ensures
            r.x == self.x + rhs.x,
            r.y == self.y + rhs.y,
    {
        PixelPosition::new(self.x + rhs.x, self.y + rhs.y)
    }
}

/// A rectangular extent in unsigned units: a sprite or board size.
#[derive(Clone, Copy, Debug, PartialEq, Eq, Hash, Structural)]
pub struct Dimension {
    pub w: u32,
    pub h: u32,
}

impl Dimension {
    pub fn new(w: u32, h: u32) -> (r: Self)
        ensures
            r.w == w,
            r.h == h,
    {
        Dimension { w, h }
    }

    pub fn from_tuple(tuple: (u32, u32)) -> (r: Self)
        ensures
            r.w == tuple.0,
            r.h == tuple.1,
    {
        Dimension::new(tuple.0, tuple.1)
    }

    pub fn w(&self) -> (r: u32)
        ensures
            r == self.w,
    {
        self.w
    }

    pub fn h(&self) -> (r: u32)
        ensures
            r == self.h,
    {
        self.h
    }
}

/// The four block colors.
#[derive(Clone, Copy, Debug, PartialEq, Eq, Structural)]
pub enum Color {
    Blue,
    Red,
    Green,
    Yellow,
}

/// Relies on rand::random_range over `0..n`: a value drawn from that
/// range by the thread-local generator; the range is non-empty when
/// `n >= 1`, so the call does not panic and the result is below `n`.
#[verifier::external_body]
fn random_index(n: u32) -> (r: u32)
    requires
        1 <= n,
    ensures
        r < n,
{
    rand::random_range(0..n)
}

/// Relies on rand::random_ratio: a bool that is true with probability
/// `1/n`; it panics only for a zero denominator or a numerator above the
/// denominator, both ruled out here, and is always true when `n == 1`.
#[verifier::external_body]
fn random_one_in(n: u32) -> (r: bool)
    requires
        1 <= n,
    ensures
        n == 1 ==> r,
{
    rand::random_ratio(1, n)
}

impl Color {
    /// The color at `i` in the fixed enumeration order
    /// Blue, Red, Green, Yellow; indices past the end map to Yellow.
    pub open spec fn index_spec(i: u32) -> Color {
        if i == 0 {
            Color::Blue
        } else if i == 1 {
            Color::Red
        } else if i == 2 {
            Color::Green
        } else {
            Color::Yellow
        }
    }

    /// The color at `i` in the fixed enumeration order.
    pub fn from_index(i: u32) -> (r: Color)
        ensures
            r == Color::index_spec(i),
    {
        if i == 0 {
            Color::Blue
        } else if i == 1 {
            Color::Red
        } else if i == 2 {
            Color::Green
        } else {
            Color::Yellow
        }
    }

    /// A color drawn uniformly from the four by the shared random source.
    pub fn rand() -> Color {
        Color::from_index(random_index(4))
    }
}

/// Relies on uuid::Uuid::new_v4 and Uuid::as_u128: a freshly drawn
/// random version-4 identifier, returned as its 128-bit value; nothing
/// is assumed of the value itself.
#[verifier::external_body]
fn fresh_id() -> u128 {
    uuid::Uuid::new_v4().as_u128()
}

/// A single colored block. Its `id` is a unique identity token assigned
/// once at construction; equality is by identity alone, so two blocks of
/// the same color and capability are still distinct individuals.
#[derive(Clone, Copy, Debug)]
pub struct Block {
    pub id: u128,
    pub color: Color,
    pub breaker: bool,
}

impl Block {
    /// A fresh block with a newly generated identity token.
    pub fn new(color: Color, breaker: bool) -> (r: Self)
        ensures
            r.color == color,
            r.breaker == breaker,
    {
        Block { id: fresh_id(), color, breaker }
    }

    pub fn breaker(&self) -> (r: bool)
        ensures
            r == self.breaker,
    {
        self.breaker
    }

    /// The sprite name for a `(color, breaker)` pair: breaker blocks are
    /// polygons, plain blocks squares, each in the block's color.
    pub open spec fn texture_name_spec(color: Color, breaker: bool) -> Seq<char> {
        if breaker {
            match color {
                Color::Blue => "element_blue_polygon.png"@,
                Color::Red => "element_red_polygon.png"@,
                Color::Green => "element_green_polygon.png"@,
                Color::Yellow => "element_yellow_polygon.png"@,
            }
        } else {
            match color {
                Color::Blue => "element_blue_square.png"@,
                Color::Red => "element_red_square.png"@,
                Color::Green => "element_green_square.png"@,
                Color::Yellow => "element_yellow_square.png"@,
            }
        }
    }

    /// The name of the sprite that renders this block, determined by its
    /// color and breaker flag alone.
    pub fn to_texture_name(&self) -> (r: &'static str)
        ensures
            r@ == Block::texture_name_spec(self.color, self.breaker),
    {
        if self.breaker {
            match self.color {
                Color::Blue => "element_blue_polygon.png",
                Color::Red => "element_red_polygon.png",
                Color::Green => "element_green_polygon.png",
                Color::Yellow => "element_yellow_polygon.png",
            }
        } else {
            match self.color {
                Color::Blue => "element_blue_square.png",
                Color::Red => "element_red_square.png",
                Color::Green => "element_green_square.png",
                Color::Yellow => "element_yellow_square.png",
            }
        }
    }
}

impl PartialEq for Block {
    fn eq(&self, other: &Self) -> bool {
        self.id == other.id
    }
}

impl Eq for Block {}

impl vstd::std_specs::cmp::PartialEqSpecImpl for Block {
    open spec fn obeys_eq_spec() -> bool {
        true
    }

    open spec fn eq_spec(&self, other: &Block) -> bool {
        self.id == other.id
    }
}

/// Block equality is identity alone: two blocks compare equal exactly
/// when they carry the same identity token, whatever their color or
/// breaker flag; in particular every block equals itself and any copy
/// of itself.
pub proof fn lemma_block_equality_is_identity(a: Block, b: Block)
    ensures
        a.eq_spec(&b) <==> a.id == b.id,
        a.eq_spec(&a),
{
}

/// A block placed at an absolute grid position. Unlike `Block`, equality
/// here is structural: the block's identity together with the position.
#[derive(Clone, Copy, Debug)]
pub struct PositionedBlock {
    pub block: Block,
    pub position: GridPosition,
}

impl PositionedBlock {
    pub fn new(block: Block, position: GridPosition) -> (r: Self)
        ensures
            r.block == block,
            r.position == position,
    {
        PositionedBlock { block, position }
    }

    pub fn x(&self) -> (r: i8)
        ensures
            r == self.position.x,
    {
        self.position.x()
    }

    pub fn y(&self) -> (r: i8)
        ensures
            r == self.position.y,
    {
        self.position.y()
    }

    pub fn block(&self) -> (r: Block)
        ensures
            r == self.block,
    {
        self.block
    }

    pub fn position(&self) -> (r: GridPosition)
        ensures
            r == self.position,
    {
        self.position
    }

    pub fn color(&self) -> (r: Color)
        ensures
            r == self.block.color,
    {
        self.block.color
    }

    pub fn breaker(&self) -> (r: bool)
        ensures
            r == self.block.breaker,
    {
        self.block.breaker()
    }

    /// The same block, one unit step away in `direction`.
    pub fn offset(&self, direction: Direction) -> (r: Self)
        requires
            self.position.can_offset_spec(direction),
        ensures
            r.block == self.block,
            r.position == self.position.offset_spec(direction),
    {
        PositionedBlock { block: self.block, position: self.position.offset(direction) }
    }
}

impl PartialEq for PositionedBlock {
    fn eq(&self, other: &Self) -> bool {
        self.block == other.block && self.position == other.position
    }
}

impl Eq for PositionedBlock {}

impl vstd::std_specs::cmp::PartialEqSpecImpl for PositionedBlock {
    open spec fn obeys_eq_spec() -> bool {
        true
    }

    open spec fn eq_spec(&self, other: &PositionedBlock) -> bool {
        self.block.id == other.block.id && self.position == other.position
    }
}

/// A falling piece: an anchor block at `position`, an orbiting block one
/// unit step away in `direction`, and that facing direction. Every
/// transform returns a new piece; the two block identities are fixed at
/// construction and never change.
#[derive(Clone, Copy, Debug)]
pub struct Piece {
    pub blocks: [Block; 2],
    pub direction: Direction,
    pub position: GridPosition,
}

impl Piece {
    /// The orbiting block's position stays within the coordinate type.
    pub open spec fn wf(self) -> bool {
        self.position.can_offset_spec(self.direction)
    }

    /// The anchor block placed at the piece's own position.
    pub open spec fn anchor_placed_spec(self) -> PositionedBlock {
        PositionedBlock { block: self.blocks[0], position: self.position }
    }

    /// The orbiting block placed one unit step from the anchor.
    pub open spec fn orbit_placed_spec(self) -> PositionedBlock {
        PositionedBlock {
            block: self.blocks[1],
            position: self.position.offset_spec(self.direction),
        }
    }

    /// The two placed blocks in bottom-to-top board order: only a piece
    /// facing Down has its orbiting block below the anchor, so only then
    /// does the orbiting block come first.
    pub open spec fn blocks_spec(self) -> Seq<PositionedBlock> {
        if self.direction == Direction::Down {
            seq![self.orbit_placed_spec(), self.anchor_placed_spec()]
        } else {
            seq![self.anchor_placed_spec(), self.orbit_placed_spec()]
        }
    }

    /// A fresh piece at `(x, y)` facing Up, with two newly drawn blocks:
    /// each gets a uniformly random color and is a breaker with
    /// probability one in four.
    pub fn rand(x: i8, y: i8) -> (r: Self)
        ensures
            r.position.x == x,
            r.position.y == y,
            r.direction == Direction::Up,
    {
        let pos = GridPosition::new(x, y);
        let block1 = Block::new(Color::rand(), random_one_in(4));
        let block2 = Block::new(Color::rand(), random_one_in(4));
        Piece { blocks: [block1, block2], position: pos, direction: Direction::Up }
    }

    /// The same two blocks, identities untouched, re-homed to a new
    /// position and facing.
    pub fn dup_to(&self, position: GridPosition, direction: Direction) -> (r: Self)
        ensures
            r.blocks == self.blocks,
            r.position == position,
            r.direction == direction,
    {
        Piece { blocks: self.blocks, position, direction }
    }

    /// The two placed blocks, bottom to top.
    pub fn blocks(&self) -> (r: [PositionedBlock; 2])
        requires
            self.wf(),
        ensures
            r@ == self.blocks_spec(),
    {
        let anchor = PositionedBlock::new(self.blocks[0], self.position);
        let orbit = PositionedBlock::new(self.blocks[1], self.position.offset(self.direction));
        let r = match self.direction {
            Direction::Down => [orbit, anchor],
            _ => [anchor, orbit],
        };
        proof {
            assert(r@ =~= self.blocks_spec());
        }
        r
    }

    /// The piece translated one unit step in `direction`; blocks and
    /// facing unchanged.
    pub fn offset(&self, direction: Direction) -> (r: Self)
        requires
            self.position.can_offset_spec(direction),
        ensures
            r.blocks == self.blocks,
            r.direction == self.direction,
            r.position == self.position.offset_spec(direction),
    {
        Piece { blocks: self.blocks, direction: self.direction, position: self.position.offset(direction) }
    }

    /// The piece with its orbiting block turned a quarter turn
    /// clockwise; blocks and anchor position unchanged.
    pub fn clockwise(&self) -> (r: Self)
        ensures
            r.blocks == self.blocks,
            r.position == self.position,
            r.direction == self.direction.clockwise_spec(),
    {
        Piece { blocks: self.blocks, direction: self.direction.clockwise(), position: self.position }
    }

    /// The piece with its orbiting block turned a quarter turn
    /// anti-clockwise; blocks and anchor position unchanged.
    pub fn anti_clockwise(&self) -> (r: Self)
        ensures
            r.blocks == self.blocks,
            r.position == self.position,
            r.direction == self.direction.anti_clockwise_spec(),
    {
        Piece { blocks: self.blocks, direction: self.direction.anti_clockwise(), position: self.position }
    }
}

/// Bottom-to-top ordering of a piece's placed blocks: a piece facing
/// Down has its orbiting block one row below the anchor, so the orbiting
/// block comes first; for every other facing the anchor comes first and
/// lies no higher than the orbiting block.
pub proof fn lemma_blocks_bottom_to_top(p: Piece)
    requires
        p.wf(),
    ensures
        p.blocks_spec().len() == 2,
        p.direction == Direction::Down ==> {
            &&& p.blocks_spec()[0] == p.orbit_placed_spec()
            &&& p.blocks_spec()[1] == p.anchor_placed_spec()
            &&& p.blocks_spec()[0].position.y < p.blocks_spec()[1].position.y
        },
        p.direction != Direction::Down ==> {
            &&& p.blocks_spec()[0] == p.anchor_placed_spec()
            &&& p.blocks_spec()[1] == p.orbit_placed_spec()
            &&& p.blocks_spec()[0].position.y <= p.blocks_spec()[1].position.y
        },
{
}

/// A piece facing Up presents its anchor first, at the piece's own
/// position, with the orbiting block directly above it.
pub proof fn lemma_blocks_facing_up(p: Piece)
    requires
        p.wf(),
        p.direction == Direction::Up,
    ensures
        p.blocks_spec()[0].block == p.blocks[0],
        p.blocks_spec()[0].position == p.position,
        p.blocks_spec()[1].block == p.blocks[1],
        p.blocks_spec()[1].position == p.position.offset_spec(Direction::Up),
        p.blocks_spec()[1].position.y == p.position.y + 1,
{
}

/// Re-homing a piece preserves its block identities: two pieces that
/// share their blocks place the same anchor block and the same orbiting
/// block, whatever their positions and facings; when neither faces Down
/// the two blocks also keep their places in the bottom-to-top order.
pub proof fn lemma_shared_blocks_share_identities(p: Piece, q: Piece)
    requires
        q.blocks == p.blocks,
    ensures
        q.anchor_placed_spec().block == p.anchor_placed_spec().block,
        q.orbit_placed_spec().block == p.orbit_placed_spec().block,
        p.direction != Direction::Down && q.direction != Direction::Down ==> {
            &&& q.blocks_spec()[0].block == p.blocks_spec()[0].block
            &&& q.blocks_spec()[1].block == p.blocks_spec()[1].block
        },
{
}

} // verus!
