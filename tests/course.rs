use minigolf::{
    contact_step, Collider, ContactStep, GameMap, GameMapTile, GroundEffect, GroundType, Line,
    Rotation, SpecialEffect, StructureType, Vec2i,
};

fn v(x: i64, y: i64) -> Vec2i {
    Vec2i::new(x, y)
}

fn full_course(ground: GroundType) -> Vec<GameMapTile> {
    let mut tiles = Vec::new();
    for x in 0..49i64 {
        for y in 0..25i64 {
            tiles.push(GameMapTile::new(v(x * 100, y * 100), ground, StructureType::Empty));
        }
    }
    tiles
}

#[test]
fn built_in_course_layout() {
    let map = GameMap::new();
    assert_eq!(map.id, "123");
    assert_eq!(map.tiles.len(), 49);
    assert!(map.tiles.iter().all(|c| c.len() == 25));
    assert_eq!(map.tiles[0][7].structure_type, StructureType::Wall);
    assert_eq!(map.tiles[48][24].structure_type, StructureType::Wall);
    assert_eq!(map.tiles[1][1].structure_type, StructureType::Start);
    assert_eq!(map.tiles[47][23].structure_type, StructureType::Hole);
    assert_eq!(map.tiles[2][2].structure_type, StructureType::Circle);
    assert_eq!(map.tiles[3][2].structure_type, StructureType::Empty);
    assert_eq!(map.tiles[3][2].pos, v(300, 200));
    assert_eq!(map.tiles[3][2].ground_type, GroundType::SlopeDiagonal(Rotation::North));
}

#[test]
fn start_location_is_middle_of_start_tile() {
    assert_eq!(GameMap::new().get_start_location(), v(150, 150));
}

#[test]
fn start_location_without_start_tile() {
    let map = GameMap::from_tiles("m".to_string(), &full_course(GroundType::Grass)).unwrap();
    assert_eq!(map.get_start_location(), v(50, 50));
}

#[test]
fn first_start_tile_wins() {
    let mut tiles = full_course(GroundType::Grass);
    tiles.push(GameMapTile::new(v(700, 300), GroundType::Grass, StructureType::Start));
    tiles.push(GameMapTile::new(v(400, 900), GroundType::Grass, StructureType::Start));
    let map = GameMap::from_tiles("m".to_string(), &tiles).unwrap();
    assert_eq!(map.get_start_location(), v(450, 950));
}

#[test]
fn from_tiles_rejects_missing_cell() {
    let mut tiles = full_course(GroundType::Grass);
    tiles.remove(30);
    assert!(GameMap::from_tiles("m".to_string(), &tiles).is_none());
}

#[test]
fn from_tiles_rejects_tile_outside_grid() {
    let mut tiles = full_course(GroundType::Grass);
    tiles.push(GameMapTile::new(v(4900, 0), GroundType::Grass, StructureType::Wall));
    assert!(GameMap::from_tiles("m".to_string(), &tiles).is_none());
}

#[test]
fn from_tiles_later_tile_replaces_earlier() {
    let mut tiles = full_course(GroundType::Grass);
    tiles.push(GameMapTile::new(v(250, 199), GroundType::Gravel, StructureType::Circle));
    let map = GameMap::from_tiles("m".to_string(), &tiles).unwrap();
    assert_eq!(map.tiles[2][1].structure_type, StructureType::Circle);
    assert_eq!(map.tiles[2][1].pos, v(250, 199));
    assert_eq!(map.id, "m");
}

#[test]
fn water_resets_ball_to_start() {
    let mut tiles = full_course(GroundType::Water);
    tiles.push(GameMapTile::new(v(1200, 800), GroundType::Water, StructureType::Start));
    let map = GameMap::from_tiles("m".to_string(), &tiles).unwrap();
    assert_eq!(map.do_ground_effect(5, 5), GroundEffect::Reset(v(1250, 850)));
}

#[test]
fn ground_effects() {
    let start = v(150, 150);
    assert_eq!(GroundType::Grass.do_effect(&start), GroundEffect::Keep);
    assert_eq!(GroundType::Water.do_effect(&start), GroundEffect::Reset(start));
    assert_eq!(GroundType::Gravel.do_effect(&start), GroundEffect::Damp(80));
    assert_eq!(GroundType::GravelHeavy.do_effect(&start), GroundEffect::Damp(50));
    assert_eq!(GroundType::Slope(Rotation::North).do_effect(&start), GroundEffect::Pull(v(0, -1)));
    assert_eq!(GroundType::Slope(Rotation::East).do_effect(&start), GroundEffect::Pull(v(1, 0)));
    assert_eq!(GroundType::Slope(Rotation::South).do_effect(&start), GroundEffect::Pull(v(0, 1)));
    assert_eq!(GroundType::Slope(Rotation::West).do_effect(&start), GroundEffect::Pull(v(-1, 0)));
    assert_eq!(
        GroundType::SlopeDiagonal(Rotation::North).do_effect(&start),
        GroundEffect::Pull(v(-1, -1))
    );
    assert_eq!(
        GroundType::SlopeDiagonal(Rotation::East).do_effect(&start),
        GroundEffect::Pull(v(1, -1))
    );
}

#[test]
fn built_in_course_ground_pulls_diagonally() {
    let map = GameMap::new();
    assert_eq!(map.do_ground_effect(10, 10), GroundEffect::Pull(v(-1, -1)));
}

#[test]
fn window_in_the_middle_has_twenty_five_tiles() {
    let map = GameMap::new();
    let tiles = map.close_tiles(10, 20);
    assert_eq!(tiles.len(), 25);
    assert_eq!(tiles[0].pos, v(1000, 2000));
    assert_eq!(tiles[1].pos, v(1000, 2100));
    assert_eq!(tiles[5].pos, v(1100, 2000));
    assert_eq!(tiles[24].pos, v(1400, 2400));
}

#[test]
fn window_is_clamped_to_the_grid() {
    let map = GameMap::new();
    assert_eq!(map.close_tiles(46, 22).len(), 9);
    assert_eq!(map.close_tiles(49, 0).len(), 0);
    assert_eq!(map.close_tiles(0, 100).len(), 0);
}

#[test]
fn window_colliders_of_corner() {
    let map = GameMap::new();
    // Columns 0..5, rows 0..5: walls on row 0 of every column and on all of
    // column 0, posts on (2, 2), (2, 4), (4, 2), (4, 4), the start at (1, 1).
    let colliders = map.close_colliders(0, 0);
    assert_eq!(colliders.len(), 9 * 8 + 4);
    assert_eq!(colliders[0], Collider::Point(v(0, 0)));
    assert_eq!(colliders[1], Collider::Line(Line::new(&v(0, 0), &v(100, 0))));
    assert!(map.close_special_effects(0, 0).is_empty());
}

#[test]
fn window_special_effects_near_hole() {
    let map = GameMap::new();
    let effects = map.close_special_effects(46, 22);
    assert_eq!(effects, vec![(Collider::Circle(v(4750, 2350), 24), StructureType::Hole)]);
}

#[test]
fn structure_colliders() {
    let origin = v(100, 200);
    assert_eq!(StructureType::Wall.get_collision_points(&origin).len(), 8);
    assert_eq!(
        StructureType::Circle.get_collision_points(&origin),
        vec![Collider::Circle(v(150, 250), 24)]
    );
    assert!(StructureType::Hole.get_collision_points(&origin).is_empty());
    assert!(StructureType::Start.get_collision_points(&origin).is_empty());
    assert!(StructureType::Empty.get_collision_points(&origin).is_empty());
    let wedge = StructureType::Wedge(Rotation::South).get_collision_points(&origin);
    assert_eq!(wedge.len(), 6);
    assert_eq!(wedge[0], Collider::Point(v(200, 300)));
    assert_eq!(wedge[3], Collider::Line(Line::new(&v(100, 300), &v(100, -100))));
    let rounded = StructureType::RoundedCorner(Rotation::North).get_collision_points(&origin);
    assert_eq!(rounded[3], Collider::Arc(minigolf::Arc::new(v(100, 200), 100, v(1, 0), v(0, 1))));
    let inverted = StructureType::InvertedRoundedCorner(Rotation::West).get_collision_points(&origin);
    assert_eq!(inverted[3], Collider::Arc(minigolf::Arc::new(v(200, 200), 100, v(0, 1), v(-1, 0))));
}

#[test]
fn only_hole_has_special_effect() {
    assert_eq!(StructureType::Hole.get_special_effect(), Some(SpecialEffect::Hole));
    assert_eq!(StructureType::Wall.get_special_effect(), None);
    assert_eq!(StructureType::Start.get_special_effect(), None);
    assert_eq!(
        StructureType::Hole.get_special_effect_points(&v(0, 0)),
        vec![(Collider::Circle(v(50, 50), 24), StructureType::Hole)]
    );
    assert!(StructureType::Circle.get_special_effect_points(&v(0, 0)).is_empty());
}

#[test]
fn hole_takes_precedence_over_wall() {
    assert_eq!(
        contact_step(Some(StructureType::Hole), Some(true)),
        ContactStep::Effect(Some(SpecialEffect::Hole))
    );
    assert_eq!(contact_step(None, Some(true)), ContactStep::ReflectAndAdvance);
    assert_eq!(contact_step(None, Some(false)), ContactStep::Advance);
    assert_eq!(contact_step(None, None), ContactStep::MoveRest);
}
