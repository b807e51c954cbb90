//! The spatial primitive and the actors of the game: `Point`, the
//! `Character` capability, the pursuing `Spectre`, the `Player`, and the
//! collectable `Coin`.

use vstd::prelude::*;

verus! {

/// An immutable integer coordinate in 2D space.
///
/// Equality compares the coordinates only.  The playfield is addressed with
/// `x` growing to the right and `y` growing downward, as a terminal does.
#[derive(Clone, Copy, PartialEq, Eq, Structural, Debug)]
pub struct Point {
    /// X-coordinate
    pub x: i32,
    /// Y-coordinate
    pub y: i32,
}

impl Point {
    /// Create a new point with the given coordinates.
    pub fn new(x: i32, y: i32) -> (p: Point)
        ensures
            p == (Point { x, y }),
    {
        Point { x, y }
    }

    /// Translate this point by the given deltas, returning the new point.
    pub fn shift(&self, dx: i32, dy: i32) -> (p: Point)
        requires
            i32::MIN <= self.x + dx <= i32::MAX,
            i32::MIN <= self.y + dy <= i32::MAX,
        ensures
            p.x == self.x + dx,
            p.y == self.y + dy,
    {
        Point { x: self.x + dx, y: self.y + dy }
    }

    /// Move this point to the given absolute coordinates, returning the new
    /// point; the original coordinates play no part in the result.
    pub fn shift_to(&self, x: i32, y: i32) -> (p: Point)
        ensures
            p == (Point { x, y }),
    {
        Point { x, y }
    }

    /// Get the x-coordinate.
    pub fn x(&self) -> (r: i32)
        ensures
            r == self.x,
    {
        self.x
    }

    /// Get the y-coordinate.
    pub fn y(&self) -> (r: i32)
        ensures
            r == self.y,
    {
        self.y
    }
}

/// One of the four directions an actor can move in.  `Up` means toward
/// smaller `y`, `Left` toward smaller `x`.
#[derive(Clone, Copy, PartialEq, Eq, Structural, Debug)]
pub enum Direction {
    Up,
    Down,
    Left,
    Right,
}

/// The cell adjacent to `p` in direction `d`.
pub open spec fn step_in_direction(p: Point, d: Direction) -> Point {
    match d {
        Direction::Up => Point { x: p.x, y: (p.y - 1) as i32 },
        Direction::Down => Point { x: p.x, y: (p.y + 1) as i32 },
        Direction::Left => Point { x: (p.x - 1) as i32, y: p.y },
        Direction::Right => Point { x: (p.x + 1) as i32, y: p.y },
    }
}

/// Manhattan distance between two points.
pub open spec fn manhattan(a: Point, b: Point) -> int {
    (vstd::math::abs(a.x - b.x) + vstd::math::abs(a.y - b.y)) as int
}

/// The cell a pursuer standing at `from` steps to when it chases `toward`:
/// of the four adjacent cells, the one minimizing the Manhattan distance to
/// `toward`, ties broken by preferring Up, then Left, then Down, then Right
/// (see `lemma_chase_step_minimizes`).
pub open spec fn chase_step(from: Point, toward: Point) -> Point {
    if from.y > toward.y {
        step_in_direction(from, Direction::Up)
    } else if from.x > toward.x {
        step_in_direction(from, Direction::Left)
    } else if from.y < toward.y {
        step_in_direction(from, Direction::Down)
    } else if from.x < toward.x {
        step_in_direction(from, Direction::Right)
    } else {
        step_in_direction(from, Direction::Up)
    }
}

/// True when `p` stands far enough from the numeric limits that every
/// adjacent cell still has representable coordinates.
pub open spec fn steppable(p: Point) -> bool {
    &&& i32::MIN < p.x < i32::MAX
    &&& i32::MIN < p.y < i32::MAX
}

/// The pursuit policy takes exactly one step: the chosen cell is adjacent to
/// the pursuer, and it comes strictly closer to the target whenever the
/// pursuer does not already stand on it.
pub proof fn lemma_chase_step_approaches(from: Point, toward: Point)
    requires
        steppable(from),
    ensures
        manhattan(chase_step(from, toward), from) == 1,
        from != toward ==> manhattan(chase_step(from, toward), toward) == manhattan(
            from,
            toward,
        ) - 1,
        from == toward ==> manhattan(chase_step(from, toward), toward) == 1,
{
}

/// The chase step is optimal: no adjacent cell is strictly closer to the
/// target than the chosen one, and among the equally close ones the chosen
/// cell is the most preferred in the order Up, Left, Down, Right.
pub proof fn lemma_chase_step_minimizes(from: Point, toward: Point, d: Direction)
    requires
        steppable(from),
    ensures
        manhattan(chase_step(from, toward), toward) <= manhattan(
            step_in_direction(from, d),
            toward,
        ),
        (step_in_direction(from, d) != chase_step(from, toward) && manhattan(
            step_in_direction(from, d),
            toward,
        ) == manhattan(chase_step(from, toward), toward)) ==> preferred_before(
            direction_of_chase(from, toward),
            d,
        ),
{
}

/// The direction `chase_step` picks.
pub open spec fn direction_of_chase(from: Point, toward: Point) -> Direction {
    if from.y > toward.y {
        Direction::Up
    } else if from.x > toward.x {
        Direction::Left
    } else if from.y < toward.y {
        Direction::Down
    } else if from.x < toward.x {
        Direction::Right
    } else {
        Direction::Up
    }
}

/// The tie-break order of the pursuit policy: Up before Left before Down
/// before Right.
pub open spec fn preference_rank(d: Direction) -> int {
    match d {
        Direction::Up => 0,
        Direction::Left => 1,
        Direction::Down => 2,
        Direction::Right => 3,
    }
}

/// `a` is preferred strictly before `b`.
pub open spec fn preferred_before(a: Direction, b: Direction) -> bool {
    preference_rank(a) < preference_rank(b)
}

/// A positioned, movable actor.  Its contract is stated over three spec
/// views: where it stands (`position`), where it intends to go next
/// (`next_position`), and what it becomes when only its position changes
/// (`with_position`).
pub trait Character: Sized {
    /// The current position of this character.
    spec fn position(&self) -> Point;

    /// The state this character would have standing at `p`, everything else
    /// about it unchanged.
    spec fn with_position(&self, p: Point) -> Self;

    /// The position this character intends to move to next.
    spec fn next_position(&self) -> Point;

    /// Placing a character somewhere puts it there and nowhere else: the
    /// witness that `with_position` means what its name says.
    proof fn lemma_with_position(&self, p: Point)
        ensures
            self.with_position(p).position() == p,
            self.with_position(p).with_position(self.position()) == *self,
    ;

    /// Shift `self` by the given `dx` and `dy`.
    fn shift(&mut self, dx: i32, dy: i32)
        requires
            i32::MIN <= old(self).position().x + dx <= i32::MAX,
            i32::MIN <= old(self).position().y + dy <= i32::MAX,
        ensures
            final(self).position().x == old(self).position().x + dx,
            final(self).position().y == old(self).position().y + dy,
            *final(self) == old(self).with_position(final(self).position()),
    ;

    /// Shift `self` to (x, y); the prior position plays no part.
    fn shift_to(&mut self, x: i32, y: i32)
        ensures
            *final(self) == old(self).with_position(Point { x, y }),
    ;

    /// Shift `self` to the given `Point`.
    fn shift_to_point(&mut self, point: Point)
        ensures
            *final(self) == old(self).with_position(point),
    ;

    /// Get the next location to move to, without moving.
    fn next(&self) -> (p: Point)
        requires
            steppable(self.position()),
        ensures
            p == self.next_position(),
    ;

    /// Go to the next location: the same state `shift_to_point(next())`
    /// leaves behind.
    fn go_next(&mut self)
        requires
            steppable(old(self).position()),
        ensures
            *final(self) == old(self).with_position(old(self).next_position()),
    ;
}

/// An autonomous pursuer.  It remembers the last position its prey was seen
/// at and, each time it moves, takes the one-cell step of the pursuit policy
/// toward that position.
#[derive(Clone, Copy, PartialEq, Eq, Structural, Debug)]
pub struct Spectre {
    /// Where the spectre stands.
    pub coords: Point,
    /// The last known position of its prey.
    pub target: Point,
}

impl Spectre {
    /// Create a new `Spectre` at (0, 0).
    pub fn new() -> (g: Spectre)
        ensures
            g == (Spectre { coords: Point { x: 0, y: 0 }, target: Point { x: 0, y: 0 } }),
    {
        Spectre::new_at_coords(0, 0)
    }

    /// Create a new `Spectre` at (x, y), hunting for (0, 0) until it is told
    /// otherwise.
    pub fn new_at_coords(x: i32, y: i32) -> (g: Spectre)
        ensures
            g == (Spectre { coords: Point { x, y }, target: Point { x: 0, y: 0 } }),
    {
        Spectre { coords: Point::new(x, y), target: Point::new(0, 0) }
    }

    /// Record the position the prey was last seen at.
    pub fn set_target(&mut self, target: Point)
        ensures
            *final(self) == (Spectre { coords: old(self).coords, target }),
    {
        self.target = target;
    }

    /// Get x-coordinate.
    pub fn x(&self) -> (r: i32)
        ensures
            r == self.coords.x,
    {
        self.coords.x()
    }

    /// Get y-coordinate.
    pub fn y(&self) -> (r: i32)
        ensures
            r == self.coords.y,
    {
        self.coords.y()
    }

    /// The bytes of the glyph a spectre is drawn with.  The renderer decodes
    /// them and falls back to `fallback_glyph` when it cannot.
    pub fn glyph_bytes(&self) -> (r: Vec<u8>)
        ensures
            r@ == spectre_glyph(),
    {
        let v: Vec<u8> = vec![0xF0u8, 0x9Fu8, 0x91u8, 0xBBu8];
        proof {
            assert(v@ =~= spectre_glyph());
        }
        v
    }

    /// The single character a spectre falls back to when its glyph cannot be
    /// rendered; always the same one.
    pub fn fallback_glyph(&self) -> (r: char)
        ensures
            r == '!',
    {
        '!'
    }
}

impl Character for Spectre {
    open spec fn position(&self) -> Point {
        self.coords
    }

    open spec fn with_position(&self, p: Point) -> Spectre {
        Spectre { coords: p, target: self.target }
    }

    open spec fn next_position(&self) -> Point {
        chase_step(self.coords, self.target)
    }

    proof fn lemma_with_position(&self, p: Point) {
    }

    /// Shift `self` by the given `dx` and `dy`.
    fn shift(&mut self, dx: i32, dy: i32) {
        self.coords = self.coords.shift(dx, dy);
    }

    /// Shift `self` to (x, y).
    fn shift_to(&mut self, x: i32, y: i32) {
        self.coords = self.coords.shift_to(x, y);
    }

    /// Shift `self` to the given `Point`.
    fn shift_to_point(&mut self, point: Point) {
        self.shift_to(point.x, point.y);
    }

    /// The adjacent cell of the pursuit policy toward the last known prey
    /// position.
    fn next(&self) -> (p: Point) {
        if self.coords.y > self.target.y {
            Point::new(self.coords.x, self.coords.y - 1)
        } else if self.coords.x > self.target.x {
            Point::new(self.coords.x - 1, self.coords.y)
        } else if self.coords.y < self.target.y {
            Point::new(self.coords.x, self.coords.y + 1)
        } else if self.coords.x < self.target.x {
            Point::new(self.coords.x + 1, self.coords.y)
        } else {
            Point::new(self.coords.x, self.coords.y - 1)
        }
    }

    /// Take the pursuit step.
    fn go_next(&mut self) {
        let next: Point = self.next();
        self.shift_to_point(next);
    }
}

/// The player character.  It does not decide its own movement: its next
/// position is driven by the last accepted movement command, kept in
/// `heading`.
#[derive(Clone, Copy, PartialEq, Eq, Structural, Debug)]
pub struct Player {
    /// Where the player stands.
    pub coords: Point,
    /// The last accepted movement command, if any.
    pub heading: Option<Direction>,
}

impl Player {
    /// Create a new player character at (0, 0), standing still.
    pub fn new() -> (p: Player)
        ensures
            p == (Player { coords: Point { x: 0, y: 0 }, heading: None }),
    {
        Player::new_at_coords(0, 0)
    }

    /// Create a new player character at (x, y), standing still.
    pub fn new_at_coords(x: i32, y: i32) -> (p: Player)
        ensures
            p == (Player { coords: Point { x, y }, heading: None }),
    {
        Player { coords: Point::new(x, y), heading: None }
    }

    /// Accept a movement command: from now on the player intends to move in
    /// direction `d` each tick.
    pub fn set_direction(&mut self, d: Direction)
        ensures
            *final(self) == (Player { coords: old(self).coords, heading: Some(d) }),
    {
        self.heading = Some(d);
    }

    /// Get x-coordinate.
    pub fn x(&self) -> (r: i32)
        ensures
            r == self.coords.x,
    {
        self.coords.x()
    }

    /// Get y-coordinate.
    pub fn y(&self) -> (r: i32)
        ensures
            r == self.coords.y,
    {
        self.coords.y()
    }

    /// The bytes of the glyph the player is drawn with.
    pub fn glyph_bytes(&self) -> (r: Vec<u8>)
        ensures
            r@ == player_glyph(),
    {
        let v: Vec<u8> = vec![0xF0u8, 0x9Fu8, 0x91u8, 0xBBu8];
        proof {
            assert(v@ =~= player_glyph());
        }
        v
    }

    /// The single character the player falls back to when the glyph cannot
    /// be rendered; always the same one.
    pub fn fallback_glyph(&self) -> (r: char)
        ensures
            r == '0',
    {
        '0'
    }
}

impl Character for Player {
    open spec fn position(&self) -> Point {
        self.coords
    }

    open spec fn with_position(&self, p: Point) -> Player {
        Player { coords: p, heading: self.heading }
    }

    open spec fn next_position(&self) -> Point {
        match self.heading {
            None => self.coords,
            Some(d) => step_in_direction(self.coords, d),
        }
    }

    proof fn lemma_with_position(&self, p: Point) {
    }

    /// Shift `self` by the given `dx` and `dy`.
    fn shift(&mut self, dx: i32, dy: i32) {
        self.coords = self.coords.shift(dx, dy);
    }

    /// Shift `self` to (x, y).
    fn shift_to(&mut self, x: i32, y: i32) {
        self.coords = self.coords.shift_to(x, y);
    }

    /// Shift `self` to the given `Point`.
    fn shift_to_point(&mut self, point: Point) {
        self.shift_to(point.x, point.y);
    }

    /// The cell one step along the buffered heading, or the current cell when
    /// no movement command has arrived yet.
    fn next(&self) -> (p: Point) {
        match self.heading {
            None => Point::new(self.coords.x, self.coords.y),
            Some(Direction::Up) => Point::new(self.coords.x, self.coords.y - 1),
            Some(Direction::Down) => Point::new(self.coords.x, self.coords.y + 1),
            Some(Direction::Left) => Point::new(self.coords.x - 1, self.coords.y),
            Some(Direction::Right) => Point::new(self.coords.x + 1, self.coords.y),
        }
    }

    /// Move one step along the buffered heading.
    fn go_next(&mut self) {
        let next: Point = self.next();
        self.shift_to_point(next);
    }
}

/// The UTF-8 encoding of the glyph a spectre is drawn with (a ghost emoji).
pub open spec fn spectre_glyph() -> Seq<u8> {
    seq![0xF0u8, 0x9Fu8, 0x91u8, 0xBBu8]
}

/// The UTF-8 encoding of the glyph the player is drawn with.
pub open spec fn player_glyph() -> Seq<u8> {
    seq![0xF0u8, 0x9Fu8, 0x91u8, 0xBBu8]
}

/// The UTF-8 encoding of the glyph a normal coin is drawn with.
pub open spec fn coin_glyph() -> Seq<u8> {
    seq![0xE2u8, 0x97u8, 0x8Fu8]
}

/// The UTF-8 encoding of the glyph a big coin is drawn with.
pub open spec fn big_coin_glyph() -> Seq<u8> {
    seq![0xE2u8, 0x97u8, 0x89u8]
}

/// How many points a normal coin scores when the player collects it.
pub const COIN_VALUE: u64 = 1;

/// How many points a big coin scores when the player collects it.
pub const BIG_COIN_VALUE: u64 = 5;

/// A collectable pellet.  It never moves; the game state removes it when the
/// player stands on it.
#[derive(Clone, Copy, PartialEq, Eq, Structural, Debug)]
pub struct Coin {
    /// Where the coin lies.
    pub coords: Point,
    /// Big coins score more.
    pub big: bool,
}

/// The score a coin is worth.
pub open spec fn coin_value(c: Coin) -> u64 {
    if c.big {
        BIG_COIN_VALUE
    } else {
        COIN_VALUE
    }
}

impl Coin {
    /// Create a normal coin at (0, 0).
    pub fn new() -> (c: Coin)
        ensures
            c == (Coin { coords: Point { x: 0, y: 0 }, big: false }),
    {
        Coin::new_at_coords(0, 0, false)
    }

    /// Create a coin at (x, y).
    pub fn new_at_coords(x: i32, y: i32, big: bool) -> (c: Coin)
        ensures
            c == (Coin { coords: Point { x, y }, big }),
    {
        Coin { coords: Point::new(x, y), big }
    }

    /// Create a coin at the given point.
    pub fn new_at_point(coords: Point, big: bool) -> (c: Coin)
        ensures
            c == (Coin { coords, big }),
    {
        Coin { coords, big }
    }

    /// Check if the given `Coin` is big (gives more points if so).
    pub fn is_big(&self) -> (r: bool)
        ensures
            r == self.big,
    {
        self.big
    }

    /// The score this coin is worth.
    pub fn value(&self) -> (r: u64)
        ensures
            r == coin_value(*self),
    {
        if self.big {
            BIG_COIN_VALUE
        } else {
            COIN_VALUE
        }
    }

    /// Get x-coordinate.
    pub fn x(&self) -> (r: i32)
        ensures
            r == self.coords.x,
    {
        self.coords.x()
    }

    /// Get y-coordinate.
    pub fn y(&self) -> (r: i32)
        ensures
            r == self.coords.y,
    {
        self.coords.y()
    }

    /// The bytes of the glyph this coin is drawn with, keyed on whether it
    /// is big: each kind always gets the same, distinct glyph.
    pub fn glyph_bytes(&self) -> (r: Vec<u8>)
        ensures
            self.big ==> r@ == big_coin_glyph(),
            !self.big ==> r@ == coin_glyph(),
    {
        if self.big {
            let v: Vec<u8> = vec![0xE2u8, 0x97u8, 0x89u8];
            proof {
                assert(v@ =~= big_coin_glyph());
            }
            v
        } else {
            let v: Vec<u8> = vec![0xE2u8, 0x97u8, 0x8Fu8];
            proof {
                assert(v@ =~= coin_glyph());
            }
            v
        }
    }

    /// The single character a coin falls back to when its glyph cannot be
    /// rendered; always the same one.
    pub fn fallback_glyph(&self) -> (r: char)
        ensures
            r == '!',
    {
        '!'
    }
}

} // verus!

