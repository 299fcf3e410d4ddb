use vstd::prelude::*;
use crate::geometry::{Rotation, Vec2i, Line, Arc, COORD_MAX, turn, rotate_about};

verus! {

/// Largest coordinate magnitude of a collider in tile-local space.
pub const LOCAL_MAX: i64 = 0x0100_0000_0000_0000;

/// Side of a tile in world units.
pub const TILE_SIZE: i64 = 100;

/// Tile-local pivot about which a structure's colliders are rotated.
pub const TILE_MID: i64 = 50;

/// Radius of the post obstacle and of the hole's contact generator.
pub const POST_RADIUS: i64 = 24;

/// A collider primitive, either in tile-local space (a catalog entry) or in
/// world space once placed on a tile.
#[derive(Clone, Copy, Debug, PartialEq, Eq, Structural)]
pub enum Collider {
    Point(Vec2i),
    Circle(Vec2i, i64),
    Line(Line),
    Arc(Arc),
}

/// The world position of the tile-local point `p` on a tile at `tile`
/// turned by `rot`.
pub open spec fn place_point(p: (int, int), tile: (int, int), rot: Rotation) -> (int, int) {
    let q = rotate_about(p, (TILE_MID as int, TILE_MID as int), rot);
    (q.0 + tile.0, q.1 + tile.1)
}

pub open spec fn local_ok(v: Vec2i) -> bool {
    -LOCAL_MAX <= v.x <= LOCAL_MAX && -LOCAL_MAX <= v.y <= LOCAL_MAX
}

/// The world position of the tile-local point `p`, as a vector.
pub open spec fn placed_vec(p: Vec2i, tile: Vec2i, rot: Rotation) -> Vec2i {
    let q = place_point(p@, tile@, rot);
    Vec2i { x: q.0 as i64, y: q.1 as i64 }
}

/// The direction `v` turned by `rot`, as a vector.
pub open spec fn turned_vec(v: Vec2i, rot: Rotation) -> Vec2i {
    let q = turn(v@, rot);
    Vec2i { x: q.0 as i64, y: q.1 as i64 }
}

impl Collider {
    /// This tile-local collider placed on the tile whose corner is `tile`, turned
    /// by `rot`: anchor points turn about the tile's middle and move with the
    /// tile, directions and arc bounds only turn.
    pub open spec fn placed_spec(self, tile: Vec2i, rot: Rotation) -> Collider {
        match self {
            Collider::Point(p) => Collider::Point(placed_vec(p, tile, rot)),
            Collider::Circle(c, r) => Collider::Circle(placed_vec(c, tile, rot), r),
            Collider::Line(l) => Collider::Line(
                Line { pos: placed_vec(l.pos, tile, rot), dir: turned_vec(l.dir, rot) },
            ),
            Collider::Arc(a) => Collider::Arc(
                Arc {
                    pos: placed_vec(a.pos, tile, rot),
                    radius: a.radius,
                    start: turned_vec(a.start, rot),
                    end: turned_vec(a.end, rot),
                },
            ),
        }
    }
}

/// Every coordinate of the collider lies within the tile-local bound.
pub open spec fn collider_local_ok(c: Collider) -> bool {
    match c {
        Collider::Point(p) => local_ok(p),
        Collider::Circle(c, _) => local_ok(c),
        Collider::Line(l) => local_ok(l.pos) && local_ok(l.dir),
        Collider::Arc(a) => local_ok(a.pos) && local_ok(a.start) && local_ok(a.end),
    }
}

pub open spec fn tile_origin_ok(t: Vec2i) -> bool {
    -COORD_MAX / 2 <= t.x <= COORD_MAX / 2 && -COORD_MAX / 2 <= t.y <= COORD_MAX / 2
}

fn place_vec(p: &Vec2i, tile: &Vec2i, rot: &Rotation) -> (r: Vec2i)
    requires
        local_ok(*p),
        tile_origin_ok(*tile),
    ensures
        r@ == place_point(p@, tile@, *rot),
        r == placed_vec(*p, *tile, *rot),
{
    let mid = Vec2i { x: TILE_MID, y: TILE_MID };
    let q = p.rotate(&mid, rot);
    Vec2i { x: q.x + tile.x, y: q.y + tile.y }
}

fn turn_vec(v: &Vec2i, rot: &Rotation) -> (r: Vec2i)
    requires
        local_ok(*v),
    ensures
        r@ == turn(v@, *rot),
        r == turned_vec(*v, *rot),
{
    let zero = Vec2i { x: 0, y: 0 };
    v.rotate(&zero, rot)
}

impl Collider {
    /// This tile-local collider placed in world space on the tile whose corner
    /// is `tile`, with the tile turned by `rot` about its middle.
    pub fn placed(&self, tile: &Vec2i, rot: &Rotation) -> (r: Collider)
        requires
            collider_local_ok(*self),
            tile_origin_ok(*tile),
        ensures
            r == self.placed_spec(*tile, *rot),
    {
        match self {
            Collider::Point(p) => Collider::Point(place_vec(p, tile, rot)),
            Collider::Circle(c, radius) => Collider::Circle(place_vec(c, tile, rot), *radius),
            Collider::Line(l) => Collider::Line(
                Line { pos: place_vec(&l.pos, tile, rot), dir: turn_vec(&l.dir, rot) },
            ),
            Collider::Arc(a) => Collider::Arc(
                Arc {
                    pos: place_vec(&a.pos, tile, rot),
                    radius: a.radius,
                    start: turn_vec(&a.start, rot),
                    end: turn_vec(&a.end, rot),
                },
            ),
        }
    }
}


pub open spec fn pt(x: int, y: int) -> Collider {
    Collider::Point(Vec2i { x: x as i64, y: y as i64 })
}

pub open spec fn seg(x: int, y: int, dx: int, dy: int) -> Collider {
    Collider::Line(
        Line { pos: Vec2i { x: x as i64, y: y as i64 }, dir: Vec2i { x: dx as i64, y: dy as i64 } },
    )
}

pub open spec fn quarter_arc(x: int, y: int, sx: int, sy: int, ex: int, ey: int) -> Collider {
    Collider::Arc(
        Arc {
            pos: Vec2i { x: x as i64, y: y as i64 },
            radius: TILE_SIZE,
            start: Vec2i { x: sx as i64, y: sy as i64 },
            end: Vec2i { x: ex as i64, y: ey as i64 },
        },
    )
}

/// The square tile: its four edges and its four corners.
pub open spec fn box_catalog() -> Seq<Collider> {
    seq![
        pt(0, 0),
        seg(0, 0, 100, 0),
        pt(100, 0),
        seg(100, 0, 0, 100),
        pt(100, 100),
        seg(100, 100, -100, 0),
        pt(0, 100),
        seg(0, 100, 0, -100),
    ]
}

/// The wedge: a right triangle whose hypotenuse runs from (100, 0) to (0, 100).
pub open spec fn wedge_catalog() -> Seq<Collider> {
    seq![
        pt(0, 0),
        seg(0, 0, 100, 0),
        pt(100, 0),
        seg(100, 0, -100, 100),
        pt(0, 100),
        seg(0, 100, 0, -100),
    ]
}

/// The rounded corner: two edges and a quarter arc about the corner (0, 0).
pub open spec fn rounded_corner_catalog() -> Seq<Collider> {
    seq![
        pt(0, 0),
        seg(0, 0, 100, 0),
        pt(100, 0),
        quarter_arc(0, 0, 1, 0, 0, 1),
        pt(0, 100),
        seg(0, 100, 0, -100),
    ]
}

/// The inverted rounded corner: as the rounded corner, with the arc about the
/// opposite corner (100, 100).
pub open spec fn inverted_rounded_corner_catalog() -> Seq<Collider> {
    seq![
        pt(0, 0),
        seg(0, 0, 100, 0),
        pt(100, 0),
        quarter_arc(100, 100, -1, 0, 0, -1),
        pt(0, 100),
        seg(0, 100, 0, -100),
    ]
}

/// The post in the middle of the tile.
pub open spec fn circle_catalog() -> Seq<Collider> {
    seq![Collider::Circle(Vec2i { x: TILE_MID, y: TILE_MID }, POST_RADIUS)]
}

fn point(x: i64, y: i64) -> (r: Collider)
    ensures
        r == pt(x as int, y as int),
{
    Collider::Point(Vec2i { x, y })
}

fn segment(x: i64, y: i64, dx: i64, dy: i64) -> (r: Collider)
    ensures
        r == seg(x as int, y as int, dx as int, dy as int),
{
    Collider::Line(Line { pos: Vec2i { x, y }, dir: Vec2i { x: dx, y: dy } })
}

fn arc_of_tile(x: i64, y: i64, sx: i64, sy: i64, ex: i64, ey: i64) -> (r: Collider)
    ensures
        r == quarter_arc(x as int, y as int, sx as int, sy as int, ex as int, ey as int),
{
    Collider::Arc(
        Arc {
            pos: Vec2i { x, y },
            radius: TILE_SIZE,
            start: Vec2i { x: sx, y: sy },
            end: Vec2i { x: ex, y: ey },
        },
    )
}

pub fn box_colliders() -> (r: Vec<Collider>)
    ensures
        r@ == box_catalog(),
{
    let r = vec![
        point(0, 0),
        segment(0, 0, 100, 0),
        point(100, 0),
        segment(100, 0, 0, 100),
        point(100, 100),
        segment(100, 100, -100, 0),
        point(0, 100),
        segment(0, 100, 0, -100),
    ];
    assert(r@ =~= box_catalog());
    r
}

pub fn wedge_colliders() -> (r: Vec<Collider>)
    ensures
        r@ == wedge_catalog(),
{
    let r = vec![
        point(0, 0),
        segment(0, 0, 100, 0),
        point(100, 0),
        segment(100, 0, -100, 100),
        point(0, 100),
        segment(0, 100, 0, -100),
    ];
    assert(r@ =~= wedge_catalog());
    r
}

pub fn rounded_corner_colliders() -> (r: Vec<Collider>)
    ensures
        r@ == rounded_corner_catalog(),
{
    let r = vec![
        point(0, 0),
        segment(0, 0, 100, 0),
        point(100, 0),
        arc_of_tile(0, 0, 1, 0, 0, 1),
        point(0, 100),
        segment(0, 100, 0, -100),
    ];
    assert(r@ =~= rounded_corner_catalog());
    r
}

pub fn inverted_rounded_corner_colliders() -> (r: Vec<Collider>)
    ensures
        r@ == inverted_rounded_corner_catalog(),
{
    let r = vec![
        point(0, 0),
        segment(0, 0, 100, 0),
        point(100, 0),
        arc_of_tile(100, 100, -1, 0, 0, -1),
        point(0, 100),
        segment(0, 100, 0, -100),
    ];
    assert(r@ =~= inverted_rounded_corner_catalog());
    r
}

pub fn circle_colliders() -> (r: Vec<Collider>)
    ensures
        r@ == circle_catalog(),
{
    let r = vec![Collider::Circle(Vec2i { x: TILE_MID, y: TILE_MID }, POST_RADIUS)];
    assert(r@ =~= circle_catalog());
    r
}


pub open spec fn all_local_ok(cs: Seq<Collider>) -> bool {
    forall|i: int| 0 <= i < cs.len() ==> collider_local_ok(#[trigger] cs[i])
}

proof fn lemma_catalogs_local_ok()
    ensures
        all_local_ok(box_catalog()),
        all_local_ok(wedge_catalog()),
        all_local_ok(rounded_corner_catalog()),
        all_local_ok(inverted_rounded_corner_catalog()),
        all_local_ok(circle_catalog()),
{
}

/// What stands on a tile.
#[derive(Clone, Copy, Debug, PartialEq, Eq, Structural)]
pub enum StructureType {
    Wall,
    Circle,
    Start,
    Hole,
    Wedge(Rotation),
    RoundedCorner(Rotation),
    InvertedRoundedCorner(Rotation),
    Empty,
}

/// A non-physical outcome of reaching a tile's contact generator.
#[derive(Clone, Copy, Debug, PartialEq, Eq, Structural)]
pub enum SpecialEffect {
    Hole,
}

/// Each of `local` placed on the tile whose corner is `tile`, turned by `rot`.
pub open spec fn placements(local: Seq<Collider>, tile: Vec2i, rot: Rotation) -> Seq<Collider> {
    local.map_values(|c: Collider| c.placed_spec(tile, rot))
}

impl StructureType {
    /// The world-space physical colliders of this structure on the tile whose
    /// corner is `tile`.
    pub open spec fn colliders_at(self, tile: Vec2i) -> Seq<Collider> {
        placements(self.catalog(), tile, self.rotation())
    }

    /// The world-space special-effect generators of this structure on the tile
    /// whose corner is `tile`, each paired with the structure that owns it.
    pub open spec fn effect_points_at(self, tile: Vec2i) -> Seq<(Collider, StructureType)> {
        self.effect_catalog().map_values(|c: Collider| (c.placed_spec(tile, Rotation::North), self))
    }

    /// The tile-local physical colliders of this structure.
    pub open spec fn catalog(self) -> Seq<Collider> {
        match self {
            StructureType::Wall => box_catalog(),
            StructureType::Circle => circle_catalog(),
            StructureType::Wedge(_) => wedge_catalog(),
            StructureType::RoundedCorner(_) => rounded_corner_catalog(),
            StructureType::InvertedRoundedCorner(_) => inverted_rounded_corner_catalog(),
            StructureType::Start | StructureType::Hole | StructureType::Empty => seq![],
        }
    }

    /// The rotation applied to this structure's colliders.
    pub open spec fn rotation(self) -> Rotation {
        match self {
            StructureType::Wedge(r) => r,
            StructureType::RoundedCorner(r) => r,
            StructureType::InvertedRoundedCorner(r) => r,
            _ => Rotation::North,
        }
    }

    pub open spec fn effect_spec(self) -> Option<SpecialEffect> {
        match self {
            StructureType::Hole => Some(SpecialEffect::Hole),
            _ => None,
        }
    }

    /// The tile-local contact generators that trigger a special effect.
    pub open spec fn effect_catalog(self) -> Seq<Collider> {
        match self {
            StructureType::Hole => circle_catalog(),
            _ => seq![],
        }
    }

    /// The given tile-local colliders placed on the tile at `tile` turned by
    /// `rot`, in the same order.
    pub fn get_points_rot(&self, tile: &Vec2i, rot: &Rotation, colliders: &Vec<Collider>) -> (r: Vec<Collider>)
        requires
            all_local_ok(colliders@),
            tile_origin_ok(*tile),
        ensures
            r@ == placements(colliders@, *tile, *rot),
    {
        let mut r: Vec<Collider> = Vec::new();
        let mut i: usize = 0;
        while i < colliders.len()
            invariant
                i <= colliders@.len(),
                all_local_ok(colliders@),
                tile_origin_ok(*tile),
                r@ == placements(colliders@.take(i as int), *tile, *rot),
            decreases colliders@.len() - i,
        {
            let c = colliders[i].placed(tile, rot);
            r.push(c);
            i = i + 1;
            assert(colliders@.take(i as int)[i - 1] == colliders@[i - 1]);
        }
        assert(colliders@.take(i as int) =~= colliders@);
        r
    }

    /// The given tile-local colliders placed on the tile at `tile`, unturned.
    pub fn get_points(&self, tile: &Vec2i, colliders: &Vec<Collider>) -> (r: Vec<Collider>)
        requires
            all_local_ok(colliders@),
            tile_origin_ok(*tile),
        ensures
            r@ == placements(colliders@, *tile, Rotation::North),
    {
        self.get_points_rot(tile, &Rotation::North, colliders)
    }

    /// The world-space physical colliders of this structure on the tile whose
    /// corner is `tile`.
    pub fn get_collision_points(&self, tile: &Vec2i) -> (r: Vec<Collider>)
        requires
            tile_origin_ok(*tile),
        ensures
            r@ == self.colliders_at(*tile),
    {
        proof {
            lemma_catalogs_local_ok();
        }
        match self {
            StructureType::Wall => self.get_points(tile, &box_colliders()),
            StructureType::Circle => self.get_points(tile, &circle_colliders()),
            StructureType::Wedge(rot) => self.get_points_rot(tile, rot, &wedge_colliders()),
            StructureType::RoundedCorner(rot) => self.get_points_rot(
                tile,
                rot,
                &rounded_corner_colliders(),
            ),
            StructureType::InvertedRoundedCorner(rot) => self.get_points_rot(
                tile,
                rot,
                &inverted_rounded_corner_colliders(),
            ),
            StructureType::Empty | StructureType::Hole | StructureType::Start => {
                let r: Vec<Collider> = Vec::new();
                assert(r@ =~= self.catalog());
                r
            },
        }
    }

    /// The world-space special-effect generators of this structure on the tile
    /// whose corner is `tile`, each paired with the structure that owns it.
    pub fn get_special_effect_points(&self, tile: &Vec2i) -> (r: Vec<(Collider, StructureType)>)
        requires
            tile_origin_ok(*tile),
        ensures
            r@ == self.effect_points_at(*tile),
    {
        proof {
            lemma_catalogs_local_ok();
        }
        let mut r: Vec<(Collider, StructureType)> = Vec::new();
        match self {
            StructureType::Hole => {
                let placed = self.get_points(tile, &circle_colliders());
                let mut i: usize = 0;
                while i < placed.len()
                    invariant
                        i <= placed@.len(),
                        placed@ == placements(circle_catalog(), *tile, Rotation::North),
                        *self == StructureType::Hole,
                        r@.len() == i,
                        forall|j: int|
                            0 <= j < i ==> (#[trigger] r@[j]).0 == placed@[j] && r@[j].1
                                == StructureType::Hole,
                    decreases placed@.len() - i,
                {
                    r.push((placed[i], StructureType::Hole));
                    i = i + 1;
                }
            },
            _ => {},
        }
        assert(r@ =~= self.effect_points_at(*tile));
        r
    }

    /// The special effect this structure triggers, if any.
    pub fn get_special_effect(&self) -> (r: Option<SpecialEffect>)
        ensures
            r == self.effect_spec(),
    {
        match self {
            StructureType::Hole => Some(SpecialEffect::Hole),
            _ => None,
        }
    }
}

} // verus!
