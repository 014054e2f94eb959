use vstd::prelude::*;

verus! {

/// A compass orientation, one of exactly four values, in clockwise cyclic
/// order NORTH -> EAST -> SOUTH -> WEST -> NORTH.
#[derive(Copy, Clone, PartialEq, Eq, Structural, Debug)]
pub enum Direction {
    NORTH,
    EAST,
    SOUTH,
    WEST,
}

/// The direction a quarter turn to the left (counter-clockwise) of `d`.
pub open spec fn left_of(d: Direction) -> Direction {
    match d {
        Direction::NORTH => Direction::WEST,
        Direction::EAST => Direction::NORTH,
        Direction::SOUTH => Direction::EAST,
        Direction::WEST => Direction::SOUTH,
    }
}

/// The direction a quarter turn to the right (clockwise) of `d`.
pub open spec fn right_of(d: Direction) -> Direction {
    match d {
        Direction::NORTH => Direction::EAST,
        Direction::EAST => Direction::SOUTH,
        Direction::SOUTH => Direction::WEST,
        Direction::WEST => Direction::NORTH,
    }
}

/// The direction opposite to `d` (a half turn).
pub open spec fn opposite_of(d: Direction) -> Direction {
    match d {
        Direction::NORTH => Direction::SOUTH,
        Direction::EAST => Direction::WEST,
        Direction::SOUTH => Direction::NORTH,
        Direction::WEST => Direction::EAST,
    }
}

impl Direction {
    /// Rotate a quarter turn counter-clockwise.
    pub fn turn_left(&self) -> (r: Direction)
        ensures
            r == left_of(*self),
    {
        match self {
            Direction::NORTH => Direction::WEST,
            Direction::EAST => Direction::NORTH,
            Direction::SOUTH => Direction::EAST,
            Direction::WEST => Direction::SOUTH,
        }
    }

    /// Rotate a quarter turn clockwise.
    pub fn turn_right(&self) -> (r: Direction)
        ensures
            r == right_of(*self),
    {
        match self {
            Direction::NORTH => Direction::EAST,
            Direction::EAST => Direction::SOUTH,
            Direction::SOUTH => Direction::WEST,
            Direction::WEST => Direction::NORTH,
        }
    }

    /// The direction of a half turn: the way a backward move travels.
    pub fn opposite(&self) -> (r: Direction)
        ensures
            r == opposite_of(*self),
    {
        match self {
            Direction::NORTH => Direction::SOUTH,
            Direction::EAST => Direction::WEST,
            Direction::SOUTH => Direction::NORTH,
            Direction::WEST => Direction::EAST,
        }
    }
}

/// A grid coordinate: an ordered pair of signed integers. Range constraints
/// are the Radar's responsibility, not the coordinate's.
#[derive(Copy, Clone, PartialEq, Eq, Structural, Debug)]
pub struct Position {
    pub x: i32,
    pub y: i32,
}

impl View for Position {
    type V = (int, int);

    open spec fn view(&self) -> (int, int) {
        (self.x as int, self.y as int)
    }
}

impl Position {
    /// The coordinate one unit to the east (x + 1); does not mutate the receiver.
    pub fn move_east(&self) -> (r: Position)
        requires
            self.x < i32::MAX,
        ensures
            r@ == (self@.0 + 1, self@.1),
    {
        Position { x: self.x + 1, y: self.y }
    }

    /// The coordinate one unit to the west (x - 1); does not mutate the receiver.
    pub fn move_west(&self) -> (r: Position)
        requires
            i32::MIN < self.x,
        ensures
            r@ == (self@.0 - 1, self@.1),
    {
        Position { x: self.x - 1, y: self.y }
    }

    /// The coordinate one unit to the north (y + 1); does not mutate the receiver.
    pub fn move_north(&self) -> (r: Position)
        requires
            self.y < i32::MAX,
        ensures
            r@ == (self@.0, self@.1 + 1),
    {
        Position { x: self.x, y: self.y + 1 }
    }

    /// The coordinate one unit to the south (y - 1); does not mutate the receiver.
    pub fn move_south(&self) -> (r: Position)
        requires
            i32::MIN < self.y,
        ensures
            r@ == (self@.0, self@.1 - 1),
    {
        Position { x: self.x, y: self.y - 1 }
    }
}

/// The unit step from `p` in direction `d`: North is y + 1, South is y - 1,
/// East is x + 1, West is x - 1.
pub open spec fn stepped(p: (int, int), d: Direction) -> (int, int) {
    match d {
        Direction::NORTH => (p.0, p.1 + 1),
        Direction::EAST => (p.0 + 1, p.1),
        Direction::SOUTH => (p.0, p.1 - 1),
        Direction::WEST => (p.0 - 1, p.1),
    }
}

/// Clamp-to-opposite-edge on one axis: a coordinate beyond the boundary lands
/// exactly on the opposite edge, not at `boundary - overshoot`.
pub open spec fn wrap_coord(b: int, c: int) -> int {
    if c > b {
        -b
    } else if c < -b {
        b
    } else {
        c
    }
}

/// Wrap-around applied independently to each axis.
pub open spec fn wrapped(b: int, p: (int, int)) -> (int, int) {
    (wrap_coord(b, p.0), wrap_coord(b, p.1))
}

/// Both coordinates of `p` lie in the playable square [-b, b] x [-b, b].
pub open spec fn in_range(b: int, p: (int, int)) -> bool {
    &&& -b <= p.0 <= b
    &&& -b <= p.1 <= b
}

/// The set of coordinates occupied by the obstacles listed in `obs`.
pub open spec fn obstacle_set(obs: Seq<Position>) -> Set<(int, int)> {
    Set::new(|q: (int, int)| exists|i: int| 0 <= i < obs.len() && (#[trigger] obs[i])@ == q)
}

/// One forward (`forward == true`) or backward move attempt from position `p`
/// facing `d`, on a grid of boundary `b` with obstacles `obs`: the candidate is
/// the unit step forward, or the unit step opposite to `d` for a backward move.
/// An obstacle at the candidate blocks the move and leaves the position as it
/// was; otherwise the candidate is committed and then wrapped.
pub open spec fn move_outcome(
    b: int,
    obs: Set<(int, int)>,
    p: (int, int),
    d: Direction,
    forward: bool,
) -> ((int, int), bool) {
    let t = stepped(p, if forward { d } else { opposite_of(d) });
    if obs.contains(t) {
        (p, false)
    } else {
        (wrapped(b, t), true)
    }
}

/// The single failure mode of the system: the next cell in the direction of
/// travel is occupied by an obstacle.
pub struct ObstacleHit;

/// The sensing-and-motion engine: a boundary, a current position and
/// direction, and a fixed set of obstacles. Moves are checked against the
/// obstacles before being committed, and wrap at the grid's edges afterwards.
pub struct Radar {
    boundary: i32,
    position: Position,
    direction: Direction,
    obstacles: Vec<Position>,
}

impl Radar {
    /// The half-width of the playable square [-B, B] x [-B, B].
    pub closed spec fn spec_boundary(self) -> int {
        self.boundary as int
    }

    /// The current coordinate.
    pub closed spec fn spec_position(self) -> (int, int) {
        self.position@
    }

    /// The current orientation.
    pub closed spec fn spec_direction(self) -> Direction {
        self.direction
    }

    /// The obstacles, in the order they were given at construction.
    pub closed spec fn spec_obstacles(self) -> Seq<Position> {
        self.obstacles@
    }

    /// The construction precondition: the boundary is non-negative.
    pub open spec fn wf(self) -> bool {
        0 <= self.spec_boundary()
    }

    /// A unit step from the current position stays within the machine's
    /// integer range (grid boundaries are expected to stay well within it).
    pub open spec fn can_step(self) -> bool {
        &&& i32::MIN < self.spec_position().0 < i32::MAX
        &&& i32::MIN < self.spec_position().1 < i32::MAX
    }

    /// A radar with no obstacles.
    pub fn new(boundary: i32, position: Position, direction: Direction) -> (r: Radar)
        requires
            0 <= boundary,
        ensures
            r.spec_boundary() == boundary,
            r.spec_position() == position@,
            r.spec_direction() == direction,
            r.spec_obstacles() == Seq::<Position>::empty(),
            r.wf(),
    {
        Radar { boundary, position, direction, obstacles: Vec::new() }
    }

    /// A radar with the given obstacles; they are fixed for its lifetime.
    /// Obstacles outside the playable square are permitted but can never be
    /// reached.
    pub fn new_with_obstacles(
        boundary: i32,
        position: Position,
        direction: Direction,
        obstacles: Vec<Position>,
    ) -> (r: Radar)
        requires
            0 <= boundary,
        ensures
            r.spec_boundary() == boundary,
            r.spec_position() == position@,
            r.spec_direction() == direction,
            r.spec_obstacles() == obstacles@,
            r.wf(),
    {
        Radar { boundary, position, direction, obstacles }
    }

    /// The current orientation.
    pub fn direction(&self) -> (r: Direction)
        ensures
            r == self.spec_direction(),
    {
        self.direction
    }

    /// The current coordinate.
    pub fn position(&self) -> (r: Position)
        ensures
            r@ == self.spec_position(),
    {
        self.position
    }

    /// Whether an obstacle occupies the coordinate `p`.
    fn is_obstacle(&self, p: Position) -> (r: bool)
        ensures
            r == obstacle_set(self.spec_obstacles()).contains(p@),
    {
        let n = self.obstacles.len();
        let mut i: usize = 0;
        while i < n
            invariant
                0 <= i <= n,
                n == self.obstacles@.len(),
                forall|j: int| 0 <= j < i ==> (#[trigger] self.obstacles@[j])@ != p@,
            decreases n - i,
        {
            if self.obstacles[i] == p {
                return true;
            }
            i = i + 1;
        }
        false
    }

    /// Reposition a coordinate that has left the playable square onto the
    /// opposite edge, independently on each axis.
    pub fn wrap_around_edge(&mut self)
        requires
            old(self).wf(),
        ensures
            final(self).spec_position() == wrapped(
                old(self).spec_boundary(),
                old(self).spec_position(),
            ),
            final(self).spec_boundary() == old(self).spec_boundary(),
            final(self).spec_direction() == old(self).spec_direction(),
            final(self).spec_obstacles() == old(self).spec_obstacles(),
    {
        if self.position.y > self.boundary {
            self.position.y = -self.boundary;
        }
        if self.position.y < -self.boundary {
            self.position.y = self.boundary;
        }
        if self.position.x > self.boundary {
            self.position.x = -self.boundary;
        }
        if self.position.x < -self.boundary {
            self.position.x = self.boundary;
        }
    }

    /// Check-then-act on a candidate coordinate: an obstacle there blocks the
    /// move and leaves the state unchanged; otherwise the candidate is
    /// committed and wrap-around applied. The obstacle test reads the
    /// un-wrapped candidate.
    fn try_move(&mut self, next_position: Position) -> (r: Result<(), ObstacleHit>)
        requires
            old(self).wf(),
        ensures
            final(self).spec_boundary() == old(self).spec_boundary(),
            final(self).spec_direction() == old(self).spec_direction(),
            final(self).spec_obstacles() == old(self).spec_obstacles(),
            ({
                let blocked = obstacle_set(old(self).spec_obstacles()).contains(next_position@);
                &&& (r is Ok <==> !blocked)
                &&& final(self).spec_position() == if blocked {
                    old(self).spec_position()
                } else {
                    wrapped(old(self).spec_boundary(), next_position@)
                }
            }),
    {
        if self.is_obstacle(next_position) {
            return Err(ObstacleHit);
        }
        self.position = next_position;
        self.wrap_around_edge();
        Ok(())
    }

    /// Attempt one step in the direction currently faced; an obstacle on the
    /// candidate cell blocks it and leaves position and direction unchanged.
    pub fn move_forward(&mut self) -> (r: Result<(), ObstacleHit>)
        requires
            old(self).wf(),
            old(self).can_step(),
        ensures
            final(self).spec_boundary() == old(self).spec_boundary(),
            final(self).spec_direction() == old(self).spec_direction(),
            final(self).spec_obstacles() == old(self).spec_obstacles(),
            ({
                let (q, ok) = move_outcome(
                    old(self).spec_boundary(),
                    obstacle_set(old(self).spec_obstacles()),
                    old(self).spec_position(),
                    old(self).spec_direction(),
                    true,
                );
                &&& final(self).spec_position() == q
                &&& (r is Ok <==> ok)
            }),
    {
        let next_position = match self.direction {
            Direction::NORTH => self.position.move_north(),
            Direction::EAST => self.position.move_east(),
            Direction::SOUTH => self.position.move_south(),
            Direction::WEST => self.position.move_west(),
        };
        self.try_move(next_position)
    }

    /// Attempt one step opposite to the direction currently faced; an obstacle
    /// on the candidate cell blocks it and leaves position and direction
    /// unchanged.
    pub fn move_backward(&mut self) -> (r: Result<(), ObstacleHit>)
        requires
            old(self).wf(),
            old(self).can_step(),
        ensures
            final(self).spec_boundary() == old(self).spec_boundary(),
            final(self).spec_direction() == old(self).spec_direction(),
            final(self).spec_obstacles() == old(self).spec_obstacles(),
            ({
                let (q, ok) = move_outcome(
                    old(self).spec_boundary(),
                    obstacle_set(old(self).spec_obstacles()),
                    old(self).spec_position(),
                    old(self).spec_direction(),
                    false,
                );
                &&& final(self).spec_position() == q
                &&& (r is Ok <==> ok)
            }),
    {
        let next_position = match self.direction {
            Direction::NORTH => self.position.move_south(),
            Direction::EAST => self.position.move_west(),
            Direction::SOUTH => self.position.move_north(),
            Direction::WEST => self.position.move_east(),
        };
        self.try_move(next_position)
    }

    /// Rotate a quarter turn counter-clockwise; always succeeds.
    pub fn turn_left(&mut self)
        ensures
            final(self).spec_direction() == left_of(old(self).spec_direction()),
            final(self).spec_boundary() == old(self).spec_boundary(),
            final(self).spec_position() == old(self).spec_position(),
            final(self).spec_obstacles() == old(self).spec_obstacles(),
    {
        self.direction = self.direction.turn_left();
    }

    /// Rotate a quarter turn clockwise; always succeeds.
    pub fn turn_right(&mut self)
        ensures
            final(self).spec_direction() == right_of(old(self).spec_direction()),
            final(self).spec_boundary() == old(self).spec_boundary(),
            final(self).spec_position() == old(self).spec_position(),
            final(self).spec_obstacles() == old(self).spec_obstacles(),
    {
        self.direction = self.direction.turn_right();
    }
}

/// Law: for every direction, a left turn followed by a right turn — and a
/// right turn followed by a left turn — restores the original direction.
pub proof fn lemma_turns_are_inverse(d: Direction)
    ensures
        right_of(left_of(d)) == d,
        left_of(right_of(d)) == d,
{
}

/// Law: four successive left turns — and four successive right turns —
/// restore the original direction: the turns walk a cycle of period four.
pub proof fn lemma_four_turns_identity(d: Direction)
    ensures
        left_of(left_of(left_of(left_of(d)))) == d,
        right_of(right_of(right_of(right_of(d)))) == d,
{
}

/// Law: a forward move followed by a backward move facing the same direction
/// returns to the starting position, and both moves succeed, provided neither
/// step crosses the boundary (both the start and the stepped cell lie in the
/// playable square) and neither candidate cell holds an obstacle.
pub proof fn lemma_forward_backward_roundtrip(
    b: int,
    obs: Set<(int, int)>,
    p: (int, int),
    d: Direction,
)
    requires
        0 <= b,
        in_range(b, p),
        in_range(b, stepped(p, d)),
        !obs.contains(stepped(p, d)),
        !obs.contains(p),
    ensures
        ({
            let (q, ok_fwd) = move_outcome(b, obs, p, d, true);
            let (q2, ok_bwd) = move_outcome(b, obs, q, d, false);
            &&& ok_fwd
            &&& ok_bwd
            &&& q2 == p
        }),
{
}

/// Law: on a grid of boundary `b`, a forward move from (0, b) facing North
/// succeeds and wraps to (0, -b), provided no obstacle sits on the candidate
/// cell (0, b + 1).
pub proof fn lemma_wrap_north_edge(b: int, obs: Set<(int, int)>)
    requires
        0 <= b,
        !obs.contains((0, b + 1)),
    ensures
        move_outcome(b, obs, (0, b), Direction::NORTH, true) == (((0int, -b), true)),
{
}

} // verus!
