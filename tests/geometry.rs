use minigolf::{Arc, Collider, Line, Rotation, Vec2i};

fn v(x: i64, y: i64) -> Vec2i {
    Vec2i::new(x, y)
}

#[test]
fn test_rotation() {
    let mid = v(50, 50);
    let a = Line::new(&v(100, 0), &v(-100, 100));
    let east = a.rotate(&mid, &Rotation::East);
    let south = a.rotate(&mid, &Rotation::South);
    let west = a.rotate(&mid, &Rotation::West);
    println!("{:?}", east);
    println!("{:?}", south);
    println!("{:?}", west);
    assert_eq!(east, Line::new(&v(100, 100), &v(-100, -100)));
    assert_eq!(south, Line::new(&v(0, 100), &v(100, -100)));
    assert_eq!(west, Line::new(&v(0, 0), &v(100, 100)));
}

#[test]
fn rotate_point_about_tile_middle() {
    let mid = v(50, 50);
    let p = v(100, 100);
    assert_eq!(p.rotate(&mid, &Rotation::North), v(100, 100));
    assert_eq!(p.rotate(&mid, &Rotation::East), v(0, 100));
    assert_eq!(p.rotate(&mid, &Rotation::South), v(0, 0));
    assert_eq!(p.rotate(&mid, &Rotation::West), v(100, 0));
}

#[test]
fn rotate_then_inverse_is_identity() {
    let mid = v(50, 50);
    let p = v(7, -31);
    for rot in [Rotation::North, Rotation::East, Rotation::South, Rotation::West] {
        let back = p.rotate(&mid, &rot).rotate(&mid, &rot.inverse());
        assert_eq!(back, p);
    }
}

#[test]
fn inverse_of_each_rotation() {
    assert_eq!(Rotation::North.inverse(), Rotation::North);
    assert_eq!(Rotation::East.inverse(), Rotation::West);
    assert_eq!(Rotation::South.inverse(), Rotation::South);
    assert_eq!(Rotation::West.inverse(), Rotation::East);
}

#[test]
fn vector_arithmetic() {
    assert_eq!(v(1, 2).add(&v(2, 3)), v(3, 5));
    assert_eq!(v(1, 2).sub(&v(2, 3)), v(-1, -1));
    assert_eq!(v(1, 2).get_normal(), v(-2, 1));
}

#[test]
fn line_moves_with_its_tile() {
    let l = Line::new(&v(0, 100), &v(0, -100)).add_to_pos(&v(300, 400));
    assert_eq!(l, Line::new(&v(300, 500), &v(0, -100)));
}

#[test]
fn arc_placed_on_turned_tile() {
    let arc = Collider::Arc(Arc::new(v(0, 0), 100, v(1, 0), v(0, 1)));
    let placed = arc.placed(&v(200, 0), &Rotation::East);
    assert_eq!(placed, Collider::Arc(Arc::new(v(300, 0), 100, v(0, 1), v(-1, 0))));
}

#[test]
fn point_and_circle_placed_on_tile() {
    let p = Collider::Point(v(100, 0)).placed(&v(500, 500), &Rotation::South);
    assert_eq!(p, Collider::Point(v(500, 600)));
    let c = Collider::Circle(v(50, 50), 24).placed(&v(500, 500), &Rotation::West);
    assert_eq!(c, Collider::Circle(v(550, 550), 24));
}
