use vstd::prelude::*;
use crate::geometry::{Rotation, Vec2i, COORD_MAX};
use crate::collider::{Collider, StructureType, TILE_SIZE, TILE_MID, tile_origin_ok};
use crate::ground::{GroundType, GroundEffect};

verus! {

/// Number of tile columns of a course.
pub const MAP_COLUMNS: usize = 49;

/// Number of tile rows of a course.
pub const MAP_ROWS: usize = 25;

/// One cell of the course grid.
#[derive(Clone, Copy, Debug, PartialEq, Eq, Structural)]
pub struct GameMapTile {
    /// World position of the tile's corner.
    pub pos: Vec2i,
    pub ground_type: GroundType,
    pub structure_type: StructureType,
}

/// The world position of the corner of the tile at grid cell (`x`, `y`).
pub open spec fn cell_origin(x: int, y: int) -> Vec2i {
    Vec2i { x: (x * TILE_SIZE) as i64, y: (y * TILE_SIZE) as i64 }
}

/// The grid cell along one axis of a tile whose corner has coordinate `c`;
/// coordinates left of or above the grid fall in the first cell.
pub open spec fn cell_of(c: int) -> int {
    if c < 0 {
        0
    } else {
        c / TILE_SIZE as int
    }
}

/// The grid has its fixed size and each tile's corner lies within the
/// coordinate bound.
pub open spec fn grid_ok(tiles: Seq<Vec<GameMapTile>>) -> bool {
    &&& tiles.len() == MAP_COLUMNS
    &&& forall|x: int| 0 <= x < MAP_COLUMNS ==> (#[trigger] tiles[x])@.len() == MAP_ROWS
    &&& forall|x: int, y: int|
        0 <= x < MAP_COLUMNS && 0 <= y < MAP_ROWS ==> tile_origin_ok((#[trigger] tiles[x]@[y]).pos)
}

/// The structure of cell (`x`, `y`) of the built-in course: a start and a hole
/// in opposite corners, walls round the border and posts on even cells.
pub open spec fn course_structure(x: int, y: int) -> StructureType {
    if x == 1 && y == 1 {
        StructureType::Start
    } else if x == MAP_COLUMNS - 2 && y == MAP_ROWS - 2 {
        StructureType::Hole
    } else if x == 0 || y == 0 || x == MAP_COLUMNS - 1 || y == MAP_ROWS - 1 {
        StructureType::Wall
    } else if x % 2 == 0 && y % 2 == 0 {
        StructureType::Circle
    } else {
        StructureType::Empty
    }
}

/// The ground of every cell of the built-in course.
pub open spec fn course_ground() -> GroundType {
    GroundType::SlopeDiagonal(Rotation::North)
}

pub open spec fn course_tile(x: int, y: int) -> GameMapTile {
    GameMapTile {
        pos: cell_origin(x, y),
        ground_type: course_ground(),
        structure_type: course_structure(x, y),
    }
}

/// Grid slot of tile `t`.
pub open spec fn slot_of(t: GameMapTile) -> (int, int) {
    (cell_of(t.pos.x as int), cell_of(t.pos.y as int))
}

/// Tile `t` falls within the grid and within the coordinate bound.
pub open spec fn slot_ok(t: GameMapTile) -> bool {
    in_grid(slot_of(t).0, slot_of(t).1) && tile_origin_ok(t.pos)
}

/// The last of `ts` whose slot is (`x`, `y`), if any.
pub open spec fn last_in_cell(ts: Seq<GameMapTile>, x: int, y: int) -> Option<GameMapTile>
    decreases ts.len(),
{
    if ts.len() == 0 {
        None
    } else if slot_of(ts.last()) == (x, y) {
        Some(ts.last())
    } else {
        last_in_cell(ts.drop_last(), x, y)
    }
}

/// A list of tiles makes a course when each falls within the grid and each
/// cell of the grid receives one.
pub open spec fn tiles_make_course(ts: Seq<GameMapTile>) -> bool {
    &&& forall|i: int| 0 <= i < ts.len() ==> slot_ok(#[trigger] ts[i])
    &&& forall|x: int, y: int| in_grid(x, y) ==> (#[trigger] last_in_cell(ts, x, y)).is_some()
}

proof fn lemma_flat_index(x1: int, y1: int, x2: int, y2: int)
    requires
        in_grid(x1, y1),
        in_grid(x2, y2),
        x1 * MAP_ROWS + y1 == x2 * MAP_ROWS + y2,
    ensures
        x1 == x2 && y1 == y2,
{
    assert(x1 == x2 && y1 == y2) by (nonlinear_arith)
        requires
            0 <= y1 < MAP_ROWS,
            0 <= y2 < MAP_ROWS,
            x1 * MAP_ROWS + y1 == x2 * MAP_ROWS + y2,
    ;
}

proof fn lemma_flat_index_bound(x: int, y: int)
    requires
        in_grid(x, y),
    ensures
        0 <= x * MAP_ROWS + y < MAP_COLUMNS * MAP_ROWS,
{
    assert(0 <= x * MAP_ROWS + y < MAP_COLUMNS * MAP_ROWS) by (nonlinear_arith)
        requires
            0 <= x < MAP_COLUMNS,
            0 <= y < MAP_ROWS,
    ;
}

proof fn lemma_last_in_cell_ok(ts: Seq<GameMapTile>, x: int, y: int)
    requires
        forall|i: int| 0 <= i < ts.len() ==> slot_ok(#[trigger] ts[i]),
        last_in_cell(ts, x, y).is_some(),
    ensures
        slot_ok(last_in_cell(ts, x, y).unwrap()),
        slot_of(last_in_cell(ts, x, y).unwrap()) == (x, y),
    decreases ts.len(),
{
    if slot_of(ts.last()) != (x, y) {
        let rest = ts.drop_last();
        assert forall|i: int| 0 <= i < rest.len() implies slot_ok(#[trigger] rest[i]) by {
            assert(rest[i] == ts[i]);
        }
        lemma_last_in_cell_ok(rest, x, y);
    } else {
        assert(slot_ok(ts[ts.len() - 1]));
    }
}

/// Number of columns and of rows of the local window searched for contacts.
pub const WINDOW: usize = 5;

/// Where a window that starts at `start` ends along an axis of `len` cells.
pub open spec fn window_end(start: int, len: int) -> int {
    if start + WINDOW < len {
        start + WINDOW
    } else {
        len
    }
}

/// Where a window that starts at `start` begins along an axis of `len` cells.
pub open spec fn window_begin(start: int, len: int) -> int {
    if start < len {
        start
    } else {
        len
    }
}

/// The tiles of the window whose first column is `xs` and whose first row is
/// `ys`, one sequence per column, clamped to the grid.
pub open spec fn window_cells(tiles: Seq<Vec<GameMapTile>>, xs: int, ys: int) -> Seq<Seq<GameMapTile>> {
    tiles.subrange(window_begin(xs, tiles.len() as int), window_end(xs, tiles.len() as int)).map_values(
        |c: Vec<GameMapTile>| c@.subrange(window_begin(ys, c@.len() as int), window_end(ys, c@.len() as int)),
    )
}

/// The physical colliders of the tiles of a window column, in order.
pub open spec fn column_colliders(col: Seq<GameMapTile>) -> Seq<Collider> {
    col.map_values(|t: GameMapTile| t.structure_type.colliders_at(t.pos)).flatten()
}

/// The special-effect generators of the tiles of a window column, in order.
pub open spec fn column_effect_points(col: Seq<GameMapTile>) -> Seq<(Collider, StructureType)> {
    col.map_values(|t: GameMapTile| t.structure_type.effect_points_at(t.pos)).flatten()
}

/// Cell (`a`, `b`) comes before cell (`x`, `y`) in column-major order.
pub open spec fn cell_before(a: int, b: int, x: int, y: int) -> bool {
    a < x || (a == x && b < y)
}

pub open spec fn in_grid(x: int, y: int) -> bool {
    0 <= x < MAP_COLUMNS && 0 <= y < MAP_ROWS
}

pub open spec fn is_start_tile(t: GameMapTile) -> bool {
    t.structure_type == StructureType::Start
}

/// Cell (`x`, `y`) holds the first Start tile in column-major order.
pub open spec fn is_first_start(tiles: Seq<Vec<GameMapTile>>, x: int, y: int) -> bool {
    &&& in_grid(x, y)
    &&& is_start_tile(tiles[x]@[y])
    &&& forall|a: int, b: int|
        in_grid(a, b) && cell_before(a, b, x, y) ==> !is_start_tile(#[trigger] tiles[a]@[b])
}

pub open spec fn has_start(tiles: Seq<Vec<GameMapTile>>) -> bool {
    exists|x: int, y: int| in_grid(x, y) && is_start_tile(#[trigger] tiles[x]@[y])
}

/// Where a ball is placed at the start: the middle of the first Start tile in
/// column-major order, or the middle of the corner tile when there is none.
pub open spec fn start_location_spec(tiles: Seq<Vec<GameMapTile>>) -> Vec2i {
    if has_start(tiles) {
        let (x, y) = choose|x: int, y: int| is_first_start(tiles, x, y);
        let p = tiles[x]@[y].pos;
        Vec2i { x: (p.x + TILE_MID) as i64, y: (p.y + TILE_MID) as i64 }
    } else {
        Vec2i { x: TILE_MID, y: TILE_MID }
    }
}

proof fn lemma_first_start_unique(tiles: Seq<Vec<GameMapTile>>, x: int, y: int, a: int, b: int)
    requires
        is_first_start(tiles, x, y),
        is_first_start(tiles, a, b),
    ensures
        x == a && y == b,
{
    if cell_before(a, b, x, y) {
        assert(!is_start_tile(tiles[a]@[b]));
    } else if cell_before(x, y, a, b) {
        assert(!is_start_tile(tiles[x]@[y]));
    }
}

impl GameMapTile {
    pub fn new(pos: Vec2i, ground_type: GroundType, structure_type: StructureType) -> (r: GameMapTile)
        ensures
            r == (GameMapTile { pos, ground_type, structure_type }),
    {
        GameMapTile { pos, ground_type, structure_type }
    }
}

/// A course: a fixed-size grid of tiles, indexed by column then row.
pub struct GameMap {
    pub id: String,
    pub tiles: Vec<Vec<GameMapTile>>,
}

impl GameMap {
    pub open spec fn wf(&self) -> bool {
        grid_ok(self.tiles@)
    }

    /// The tile at grid cell (`x`, `y`).
    pub open spec fn tile(&self, x: int, y: int) -> GameMapTile {
        self.tiles@[x]@[y]
    }

    /// Builds the tiles of the built-in course.
    pub fn create_map() -> (tiles: Vec<Vec<GameMapTile>>)
        ensures
            grid_ok(tiles@),
            forall|x: int, y: int|
                0 <= x < MAP_COLUMNS && 0 <= y < MAP_ROWS ==> #[trigger] tiles@[x]@[y]
                    == course_tile(x, y),
    {
        let mut tiles: Vec<Vec<GameMapTile>> = Vec::new();
        let mut x: usize = 0;
        while x < MAP_COLUMNS
            invariant
                x <= MAP_COLUMNS,
                tiles@.len() == x,
                forall|i: int| 0 <= i < x ==> (#[trigger] tiles@[i])@.len() == MAP_ROWS,
                forall|i: int, j: int|
                    0 <= i < x && 0 <= j < MAP_ROWS ==> #[trigger] tiles@[i]@[j] == course_tile(i, j),
            decreases MAP_COLUMNS - x,
        {
            let mut column: Vec<GameMapTile> = Vec::new();
            let mut y: usize = 0;
            while y < MAP_ROWS
                invariant
                    x < MAP_COLUMNS,
                    y <= MAP_ROWS,
                    column@.len() == y,
                    forall|j: int| 0 <= j < y ==> #[trigger] column@[j] == course_tile(x as int, j),
                decreases MAP_ROWS - y,
            {
                let is_border = x == 0 || y == 0 || x == MAP_COLUMNS - 1 || y == MAP_ROWS - 1;
                let is_middle_map = y % 2 == 0 && x % 2 == 0;
                let structure_type = if x == 1 && y == 1 {
                    StructureType::Start
                } else if x == MAP_COLUMNS - 2 && y == MAP_ROWS - 2 {
                    StructureType::Hole
                } else if is_border {
                    StructureType::Wall
                } else if is_middle_map {
                    StructureType::Circle
                } else {
                    StructureType::Empty
                };
                let pos = Vec2i { x: x as i64 * TILE_SIZE, y: y as i64 * TILE_SIZE };
                column.push(
                    GameMapTile {
                        pos,
                        ground_type: GroundType::SlopeDiagonal(Rotation::North),
                        structure_type,
                    },
                );
                y = y + 1;
            }
            tiles.push(column);
            x = x + 1;
        }
        proof {
            assert forall|x: int, y: int|
                0 <= x < MAP_COLUMNS && 0 <= y < MAP_ROWS implies tile_origin_ok(
                (#[trigger] tiles@[x]@[y]).pos,
            ) by {
                assert(tiles@[x]@[y] == course_tile(x, y));
            }
        }
        tiles
    }

    /// The built-in course.
    pub fn new() -> (r: GameMap)
        ensures
            r.wf(),
            r.id@ == seq!['1', '2', '3'],
            forall|x: int, y: int|
                0 <= x < MAP_COLUMNS && 0 <= y < MAP_ROWS ==> #[trigger] r.tile(x, y) == course_tile(
                    x,
                    y,
                ),
    {
        let id = String::from_str("123");
        proof {
            reveal_strlit("123");
        }
        GameMap { id, tiles: GameMap::create_map() }
    }

    /// The course made of `tiles`, each put in the cell its corner falls in, a
    /// later tile replacing an earlier one. There is none when a tile falls
    /// outside the grid, when a tile's corner lies beyond the coordinate bound,
    /// or when a cell receives no tile.
    pub fn from_tiles(id: String, tiles: &Vec<GameMapTile>) -> (r: Option<GameMap>)
        ensures
            r.is_some() == tiles_make_course(tiles@),
            r.is_some() ==> {
                let m = r.unwrap();
                &&& m.wf()
                &&& m.id == id
                &&& forall|x: int, y: int|
                    in_grid(x, y) ==> Some(#[trigger] m.tile(x, y)) == last_in_cell(tiles@, x, y)
            },
    {
        let mut slots: Vec<Option<GameMapTile>> = Vec::new();
        let mut k: usize = 0;
        while k < MAP_COLUMNS * MAP_ROWS
            invariant
                k <= MAP_COLUMNS * MAP_ROWS,
                slots@.len() == k,
                forall|j: int| 0 <= j < k ==> (#[trigger] slots@[j]).is_none(),
            decreases MAP_COLUMNS * MAP_ROWS - k,
        {
            slots.push(None);
            k = k + 1;
        }
        let mut i: usize = 0;
        while i < tiles.len()
            invariant
                i <= tiles@.len(),
                slots@.len() == MAP_COLUMNS * MAP_ROWS,
                forall|j: int| 0 <= j < i ==> slot_ok(#[trigger] tiles@[j]),
                forall|x: int, y: int|
                    in_grid(x, y) ==> slots@[x * MAP_ROWS + y] == #[trigger] last_in_cell(
                        tiles@.take(i as int),
                        x,
                        y,
                    ),
            decreases tiles@.len() - i,
        {
            let t = tiles[i];
            let cx: i64 = if t.pos.x < 0 { 0 } else { t.pos.x / TILE_SIZE };
            let cy: i64 = if t.pos.y < 0 { 0 } else { t.pos.y / TILE_SIZE };
            if cx >= MAP_COLUMNS as i64 || cy >= MAP_ROWS as i64 || t.pos.x < -COORD_MAX / 2
                || t.pos.x > COORD_MAX / 2 || t.pos.y < -COORD_MAX / 2 || t.pos.y > COORD_MAX / 2 {
                proof {
                    assert(!slot_ok(tiles@[i as int]));
                }
                return None;
            }
            let x = cx as usize;
            let y = cy as usize;
            proof {
                assert(slot_of(t) == (x as int, y as int));
                assert(slot_ok(t));
                lemma_flat_index_bound(x as int, y as int);
            }
            let ghost before = slots@;
            slots.set(x * MAP_ROWS + y, Some(t));
            proof {
                let pre = tiles@.take(i as int);
                let post = tiles@.take(i + 1);
                assert(post.drop_last() =~= pre);
                assert(post.last() == t);
                assert forall|a: int, b: int| in_grid(a, b) implies slots@[a * MAP_ROWS + b]
                    == #[trigger] last_in_cell(post, a, b) by {
                    lemma_flat_index_bound(a, b);
                    assert(last_in_cell(pre, a, b) == before[a * MAP_ROWS + b]);
                    if a == x && b == y {
                        assert(last_in_cell(post, a, b) == Some(t));
                    } else {
                        if a * MAP_ROWS + b == x * MAP_ROWS + y {
                            lemma_flat_index(a, b, x as int, y as int);
                        }
                        assert(slots@[a * MAP_ROWS + b] == before[a * MAP_ROWS + b]);
                        assert(last_in_cell(post, a, b) == last_in_cell(pre, a, b));
                    }
                }
                assert forall|j: int| 0 <= j < i + 1 implies slot_ok(#[trigger] tiles@[j]) by {
                    if j == i {
                        assert(tiles@[j] == t);
                    }
                }
            }
            i = i + 1;
        }
        assert(tiles@.take(i as int) =~= tiles@);
        let mut grid: Vec<Vec<GameMapTile>> = Vec::new();
        let mut x: usize = 0;
        while x < MAP_COLUMNS
            invariant
                x <= MAP_COLUMNS,
                slots@.len() == MAP_COLUMNS * MAP_ROWS,
                forall|j: int| 0 <= j < tiles@.len() ==> slot_ok(#[trigger] tiles@[j]),
                forall|a: int, b: int|
                    in_grid(a, b) ==> slots@[a * MAP_ROWS + b] == #[trigger] last_in_cell(tiles@, a, b),
                grid@.len() == x,
                forall|a: int| 0 <= a < x ==> (#[trigger] grid@[a])@.len() == MAP_ROWS,
                forall|a: int, b: int|
                    0 <= a < x && 0 <= b < MAP_ROWS ==> Some(#[trigger] grid@[a]@[b]) == last_in_cell(
                        tiles@,
                        a,
                        b,
                    ),
            decreases MAP_COLUMNS - x,
        {
            let mut column: Vec<GameMapTile> = Vec::new();
            let mut y: usize = 0;
            while y < MAP_ROWS
                invariant
                    x < MAP_COLUMNS,
                    y <= MAP_ROWS,
                    slots@.len() == MAP_COLUMNS * MAP_ROWS,
                    forall|a: int, b: int|
                        in_grid(a, b) ==> slots@[a * MAP_ROWS + b] == #[trigger] last_in_cell(tiles@, a, b),
                    column@.len() == y,
                    forall|b: int| 0 <= b < y ==> Some(#[trigger] column@[b]) == last_in_cell(tiles@, x as int, b),
                decreases MAP_ROWS - y,
            {
                proof {
                    lemma_flat_index_bound(x as int, y as int);
                }
                match slots[x * MAP_ROWS + y] {
                    Some(t) => column.push(t),
                    None => {
                        proof {
                            assert(last_in_cell(tiles@, x as int, y as int).is_none());
                        }
                        return None;
                    },
                }
                y = y + 1;
            }
            grid.push(column);
            proof {
                assert(grid@[x as int] == column);
                assert forall|a: int, b: int|
                    0 <= a < x + 1 && 0 <= b < MAP_ROWS implies Some(#[trigger] grid@[a]@[b])
                        == last_in_cell(tiles@, a, b) by {
                    if a == x {
                        assert(grid@[a] == column);
                    }
                }
            }
            x = x + 1;
        }
        let m = GameMap { id, tiles: grid };
        proof {
            assert forall|a: int, b: int| in_grid(a, b) implies (#[trigger] last_in_cell(
                tiles@,
                a,
                b,
            )).is_some() by {
                assert(Some(grid@[a]@[b]) == last_in_cell(tiles@, a, b));
            }
            assert forall|a: int, b: int| in_grid(a, b) implies tile_origin_ok(
                (#[trigger] m.tiles@[a]@[b]).pos,
            ) by {
                lemma_last_in_cell_ok(tiles@, a, b);
            }
        }
        Some(m)
    }

    /// The course's start location: the middle of its first Start tile.
    pub open spec fn start_location(&self) -> Vec2i {
        start_location_spec(self.tiles@)
    }

    pub fn get_start_location(&self) -> (r: Vec2i)
        requires
            self.wf(),
        ensures
            r == self.start_location(),
    {
        let mut x: usize = 0;
        while x < self.tiles.len()
            invariant
                self.wf(),
                x <= MAP_COLUMNS,
                forall|a: int, b: int|
                    in_grid(a, b) && a < x ==> !is_start_tile(#[trigger] self.tiles@[a]@[b]),
            decreases MAP_COLUMNS - x,
        {
            let column = &self.tiles[x];
            let mut y: usize = 0;
            while y < column.len()
                invariant
                    self.wf(),
                    x < MAP_COLUMNS,
                    *column == self.tiles@[x as int],
                    y <= MAP_ROWS,
                    forall|a: int, b: int|
                        in_grid(a, b) && cell_before(a, b, x as int, y as int) ==> !is_start_tile(
                            #[trigger] self.tiles@[a]@[b],
                        ),
                decreases MAP_ROWS - y,
            {
                let tile = &column[y];
                if matches!(tile.structure_type, StructureType::Start) {
                    proof {
                        let tiles = self.tiles@;
                        assert(is_first_start(tiles, x as int, y as int));
                        assert(has_start(tiles));
                        let (cx, cy) = choose|cx: int, cy: int| is_first_start(tiles, cx, cy);
                        lemma_first_start_unique(tiles, x as int, y as int, cx, cy);
                    }
                    return Vec2i { x: tile.pos.x + TILE_MID, y: tile.pos.y + TILE_MID };
                }
                y = y + 1;
            }
            x = x + 1;
        }
        proof {
            if has_start(self.tiles@) {
                let (cx, cy) = choose|cx: int, cy: int|
                    in_grid(cx, cy) && is_start_tile(#[trigger] self.tiles@[cx]@[cy]);
                assert(!is_start_tile(self.tiles@[cx]@[cy]));
            }
        }
        Vec2i { x: TILE_MID, y: TILE_MID }
    }

    /// The tiles of the window whose first column is `xs` and whose first row
    /// is `ys`: up to five columns, and up to five tiles of each, clamped to the
    /// grid, column by column.
    pub fn close_tiles(&self, xs: usize, ys: usize) -> (r: Vec<GameMapTile>)
        requires
            self.wf(),
        ensures
            r@ == window_cells(self.tiles@, xs as int, ys as int).flatten(),
    {
        let ghost cells = window_cells(self.tiles@, xs as int, ys as int);
        let x_begin: usize = if xs < self.tiles.len() { xs } else { self.tiles.len() };
        let x_end: usize = if xs < self.tiles.len() && xs + WINDOW < self.tiles.len() { xs + WINDOW } else { self.tiles.len() };
        let mut r: Vec<GameMapTile> = Vec::new();
        let mut i: usize = x_begin;
        while i < x_end
            invariant
                self.wf(),
                x_begin == window_begin(xs as int, MAP_COLUMNS as int),
                x_end == window_end(xs as int, MAP_COLUMNS as int),
                x_begin <= i <= x_end,
                cells == window_cells(self.tiles@, xs as int, ys as int),
                r@ == cells.take(i - x_begin).flatten(),
            decreases x_end - i,
        {
            let column = &self.tiles[i];
            let y_begin: usize = if ys < column.len() { ys } else { column.len() };
            let y_end: usize = if ys < column.len() && ys + WINDOW < column.len() { ys + WINDOW } else { column.len() };
            let ghost before = r@;
            let mut j: usize = y_begin;
            while j < y_end
                invariant
                    y_begin <= j <= y_end,
                    y_end <= column@.len(),
                    r@ == before + column@.subrange(y_begin as int, j as int),
                decreases y_end - j,
            {
                r.push(column[j]);
                j = j + 1;
                assert(r@ =~= before + column@.subrange(y_begin as int, j as int));
            }
            proof {
                let k = i - x_begin;
                assert(cells[k] == column@.subrange(y_begin as int, y_end as int));
                assert(cells.take(k + 1) =~= cells.take(k).push(cells[k]));
                cells.take(k).lemma_flatten_push(cells[k]);
            }
            i = i + 1;
        }
        assert(cells.take(x_end - x_begin) =~= cells);
        r
    }

    /// The world-space physical colliders of the tiles of the window whose
    /// first column is `xs` and whose first row is `ys`, tile by tile in the
    /// order of `close_tiles`.
    pub fn close_colliders(&self, xs: usize, ys: usize) -> (r: Vec<Collider>)
        requires
            self.wf(),
        ensures
            r@ == window_cells(self.tiles@, xs as int, ys as int).map_values(
                |col: Seq<GameMapTile>| column_colliders(col),
            ).flatten(),
    {
        let ghost cells = window_cells(self.tiles@, xs as int, ys as int);
        let ghost per_column = cells.map_values(|col: Seq<GameMapTile>| column_colliders(col));
        let x_begin: usize = if xs < self.tiles.len() { xs } else { self.tiles.len() };
        let x_end: usize = if xs < self.tiles.len() && xs + WINDOW < self.tiles.len() { xs + WINDOW } else { self.tiles.len() };
        let mut r: Vec<Collider> = Vec::new();
        let mut i: usize = x_begin;
        while i < x_end
            invariant
                self.wf(),
                x_begin == window_begin(xs as int, MAP_COLUMNS as int),
                x_end == window_end(xs as int, MAP_COLUMNS as int),
                x_begin <= i <= x_end,
                cells == window_cells(self.tiles@, xs as int, ys as int),
                per_column == cells.map_values(|col: Seq<GameMapTile>| column_colliders(col)),
                r@ == per_column.take(i - x_begin).flatten(),
            decreases x_end - i,
        {
            let column = &self.tiles[i];
            let y_begin: usize = if ys < column.len() { ys } else { column.len() };
            let y_end: usize = if ys < column.len() && ys + WINDOW < column.len() { ys + WINDOW } else { column.len() };
            let ghost before = r@;
            let mut j: usize = y_begin;
            while j < y_end
                invariant
                    self.wf(),
                    i < MAP_COLUMNS,
                    *column == self.tiles@[i as int],
                    y_begin <= j <= y_end,
                    y_end <= column@.len(),
                    r@ == before + column_colliders(column@.subrange(y_begin as int, j as int)),
                decreases y_end - j,
            {
                let tile = &column[j];
                let mut found = tile.structure_type.get_collision_points(&tile.pos);
                proof {
                    let sub = column@.subrange(y_begin as int, j as int);
                    let sub1 = column@.subrange(y_begin as int, j + 1);
                    let f = |t: GameMapTile| t.structure_type.colliders_at(t.pos);
                    assert(sub1 =~= sub.push(*tile));
                    assert(sub1.map_values(f) =~= sub.map_values(f).push(f(*tile)));
                    sub.map_values(f).lemma_flatten_push(f(*tile));
                }
                r.append(&mut found);
                j = j + 1;
                assert(r@ =~= before + column_colliders(column@.subrange(y_begin as int, j as int)));
            }
            proof {
                let k = i - x_begin;
                assert(cells[k] == column@.subrange(y_begin as int, y_end as int));
                assert(per_column.take(k + 1) =~= per_column.take(k).push(per_column[k]));
                per_column.take(k).lemma_flatten_push(per_column[k]);
            }
            i = i + 1;
        }
        assert(per_column.take(x_end - x_begin) =~= per_column);
        r
    }

    /// The special-effect generators of the tiles of the window whose first
    /// column is `xs` and whose first row is `ys`, tile by tile in the order of
    /// `close_tiles`.
    pub fn close_special_effects(&self, xs: usize, ys: usize) -> (r: Vec<(Collider, StructureType)>)
        requires
            self.wf(),
        ensures
            r@ == window_cells(self.tiles@, xs as int, ys as int).map_values(
                |col: Seq<GameMapTile>| column_effect_points(col),
            ).flatten(),
    {
        let ghost cells = window_cells(self.tiles@, xs as int, ys as int);
        let ghost per_column = cells.map_values(|col: Seq<GameMapTile>| column_effect_points(col));
        let x_begin: usize = if xs < self.tiles.len() { xs } else { self.tiles.len() };
        let x_end: usize = if xs < self.tiles.len() && xs + WINDOW < self.tiles.len() { xs + WINDOW } else { self.tiles.len() };
        let mut r: Vec<(Collider, StructureType)> = Vec::new();
        let mut i: usize = x_begin;
        while i < x_end
            invariant
                self.wf(),
                x_begin == window_begin(xs as int, MAP_COLUMNS as int),
                x_end == window_end(xs as int, MAP_COLUMNS as int),
                x_begin <= i <= x_end,
                cells == window_cells(self.tiles@, xs as int, ys as int),
                per_column == cells.map_values(|col: Seq<GameMapTile>| column_effect_points(col)),
                r@ == per_column.take(i - x_begin).flatten(),
            decreases x_end - i,
        {
            let column = &self.tiles[i];
            let y_begin: usize = if ys < column.len() { ys } else { column.len() };
            let y_end: usize = if ys < column.len() && ys + WINDOW < column.len() { ys + WINDOW } else { column.len() };
            let ghost before = r@;
            let mut j: usize = y_begin;
            while j < y_end
                invariant
                    self.wf(),
                    i < MAP_COLUMNS,
                    *column == self.tiles@[i as int],
                    y_begin <= j <= y_end,
                    y_end <= column@.len(),
                    r@ == before + column_effect_points(column@.subrange(y_begin as int, j as int)),
                decreases y_end - j,
            {
                let tile = &column[j];
                let mut found = tile.structure_type.get_special_effect_points(&tile.pos);
                proof {
                    let sub = column@.subrange(y_begin as int, j as int);
                    let sub1 = column@.subrange(y_begin as int, j + 1);
                    let f = |t: GameMapTile| t.structure_type.effect_points_at(t.pos);
                    assert(sub1 =~= sub.push(*tile));
                    assert(sub1.map_values(f) =~= sub.map_values(f).push(f(*tile)));
                    sub.map_values(f).lemma_flatten_push(f(*tile));
                }
                r.append(&mut found);
                j = j + 1;
                assert(r@ =~= before + column_effect_points(column@.subrange(y_begin as int, j as int)));
            }
            proof {
                let k = i - x_begin;
                assert(cells[k] == column@.subrange(y_begin as int, y_end as int));
                assert(per_column.take(k + 1) =~= per_column.take(k).push(per_column[k]));
                per_column.take(k).lemma_flatten_push(per_column[k]);
            }
            i = i + 1;
        }
        assert(per_column.take(x_end - x_begin) =~= per_column);
        r
    }

    /// The effect of the ground of the tile at grid cell (`x`, `y`) on a ball
    /// standing there for one tick.
    pub fn do_ground_effect(&self, x: usize, y: usize) -> (r: GroundEffect)
        requires
            self.wf(),
            in_grid(x as int, y as int),
        ensures
            r == self.tile(x as int, y as int).ground_type.effect_spec(self.start_location()),
    {
        let start = self.get_start_location();
        self.tiles[x][y].ground_type.do_effect(&start)
    }
}

/// A ball on a Water tile is sent back to the course's start location.
pub proof fn lemma_water_resets(map: &GameMap, x: int, y: int)
    requires
        map.wf(),
        in_grid(x, y),
        map.tile(x, y).ground_type == GroundType::Water,
    ensures
        map.tile(x, y).ground_type.effect_spec(map.start_location()) == GroundEffect::Reset(
            map.start_location(),
        ),
{
}

} // verus!
