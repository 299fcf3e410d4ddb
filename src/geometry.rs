use vstd::prelude::*;

verus! {

/// Largest coordinate magnitude accepted by the geometric operations; anything
/// up to this bound can be rotated and translated without leaving `i64`.
pub const COORD_MAX: i64 = 0x1000_0000_0000_0000;

/// One of the four quarter-turn orientations of a tile.
#[derive(Clone, Copy, Debug, PartialEq, Eq, Structural)]
pub enum Rotation {
    North,
    West,
    East,
    South,
}

/// A point or displacement with integer coordinates.
#[derive(Clone, Copy, Debug, PartialEq, Eq, Structural)]
pub struct Vec2i {
    pub x: i64,
    pub y: i64,
}

/// Rotates the displacement `v` by the quarter turn `rot` (North is identity).
pub open spec fn turn(v: (int, int), rot: Rotation) -> (int, int) {
    match rot {
        Rotation::North => v,
        Rotation::East => (-v.1, v.0),
        Rotation::South => (-v.0, -v.1),
        Rotation::West => (v.1, -v.0),
    }
}

/// Rotates the point `p` about the pivot `mid` by the quarter turn `rot`.
pub open spec fn rotate_about(p: (int, int), mid: (int, int), rot: Rotation) -> (int, int) {
    let t = turn((p.0 - mid.0, p.1 - mid.1), rot);
    (t.0 + mid.0, t.1 + mid.1)
}

pub open spec fn coord_ok(c: int) -> bool {
    -COORD_MAX <= c <= COORD_MAX
}

impl Rotation {
    /// The rotation that undoes this one.
    pub open spec fn inverse_spec(self) -> Rotation {
        match self {
            Rotation::North => Rotation::North,
            Rotation::East => Rotation::West,
            Rotation::South => Rotation::South,
            Rotation::West => Rotation::East,
        }
    }

    pub fn inverse(&self) -> (r: Rotation)
        ensures
            r == self.inverse_spec(),
    {
        match self {
            Rotation::North => Rotation::North,
            Rotation::East => Rotation::West,
            Rotation::South => Rotation::South,
            Rotation::West => Rotation::East,
        }
    }
}

impl View for Vec2i {
    type V = (int, int);

    open spec fn view(&self) -> (int, int) {
        (self.x as int, self.y as int)
    }
}

impl Vec2i {
    pub open spec fn bounded(self) -> bool {
        coord_ok(self.x as int) && coord_ok(self.y as int)
    }

    pub fn new(x: i64, y: i64) -> (r: Vec2i)
        ensures
            r.x == x,
            r.y == y,
    {
        Vec2i { x, y }
    }

    pub fn add(&self, b: &Vec2i) -> (r: Vec2i)
        requires
            self.bounded(),
            b.bounded(),
        ensures
            r@ == (self@.0 + b@.0, self@.1 + b@.1),
    {
        Vec2i { x: self.x + b.x, y: self.y + b.y }
    }

    pub fn sub(&self, b: &Vec2i) -> (r: Vec2i)
        requires
            self.bounded(),
            b.bounded(),
        ensures
            r@ == (self@.0 - b@.0, self@.1 - b@.1),
    {
        Vec2i { x: self.x - b.x, y: self.y - b.y }
    }

    /// The perpendicular vector, turned a quarter counter-clockwise.
    pub fn get_normal(&self) -> (r: Vec2i)
        requires
            self.bounded(),
        ensures
            r@ == (-self@.1, self@.0),
    {
        Vec2i { x: -self.y, y: self.x }
    }

    /// Rotates this point about `mid` by `rot`.
    pub fn rotate(&self, mid: &Vec2i, rot: &Rotation) -> (r: Vec2i)
        requires
            self.bounded(),
            mid.bounded(),
        ensures
            r@ == rotate_about(self@, mid@, *rot),
    {
        let d = self.sub(mid);
        let t = match rot {
            Rotation::North => d,
            Rotation::East => Vec2i { x: -d.y, y: d.x },
            Rotation::South => Vec2i { x: -d.x, y: -d.y },
            Rotation::West => Vec2i { x: d.y, y: -d.x },
        };
        Vec2i { x: t.x + mid.x, y: t.y + mid.y }
    }
}


/// Rotating a point about a pivot by a rotation and then by its inverse gives
/// the point back, for each of the four rotations.
pub proof fn lemma_rotate_inverse(p: (int, int), mid: (int, int), rot: Rotation)
    ensures
        rotate_about(rotate_about(p, mid, rot), mid, rot.inverse_spec()) == p,
{
}

/// A segment from `pos` along `dir`; the length of `dir` is its length.
#[derive(Clone, Copy, Debug, PartialEq, Eq, Structural)]
pub struct Line {
    pub pos: Vec2i,
    pub dir: Vec2i,
}

impl Line {
    pub open spec fn bounded(self) -> bool {
        self.pos.bounded() && self.dir.bounded()
    }

    pub fn new(pos: &Vec2i, dir: &Vec2i) -> (r: Line)
        ensures
            r.pos == *pos,
            r.dir == *dir,
    {
        Line { pos: *pos, dir: *dir }
    }

    /// The same segment moved by `b`.
    pub fn add_to_pos(&self, b: &Vec2i) -> (r: Line)
        requires
            self.pos.bounded(),
            b.bounded(),
        ensures
            r.pos@ == (self.pos@.0 + b@.0, self.pos@.1 + b@.1),
            r.dir == self.dir,
    {
        Line { pos: self.pos.add(b), dir: self.dir }
    }

    /// The segment rotated about `mid`: its anchor turns about `mid`, its
    /// direction turns about the origin.
    pub fn rotate(&self, mid: &Vec2i, rot: &Rotation) -> (r: Line)
        requires
            self.bounded(),
            mid.bounded(),
        ensures
            r.pos@ == rotate_about(self.pos@, mid@, *rot),
            r.dir@ == turn(self.dir@, *rot),
    {
        let zero = Vec2i { x: 0, y: 0 };
        Line { pos: self.pos.rotate(mid, rot), dir: self.dir.rotate(&zero, rot) }
    }
}

/// A circular arc: the points at `radius` from `pos` whose direction from
/// `pos` lies between the bound vectors `start` and `end`.
#[derive(Clone, Copy, Debug, PartialEq, Eq, Structural)]
pub struct Arc {
    pub pos: Vec2i,
    pub radius: i64,
    pub start: Vec2i,
    pub end: Vec2i,
}

impl Arc {
    pub fn new(pos: Vec2i, radius: i64, start: Vec2i, end: Vec2i) -> (r: Arc)
        ensures
            r == (Arc { pos, radius, start, end }),
    {
        Arc { pos, radius, start, end }
    }
}

} // verus!
