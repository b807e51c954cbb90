use rusman::Character;
use rusman::Player;
use rusman::Point;
use rusman::Spectre;

#[test]
fn character_test_player() {
    let mut player = Player::new_at_coords(10, 10);
    assert_eq!(player.x(), 10);
    assert_eq!(player.y(), 10);

    player.shift(10, 10);
    assert_eq!(player.x(), 20);
    assert_eq!(player.y(), 20);

    player.shift_to(27, 34);
    assert_eq!(player.x(), 27);
    assert_eq!(player.y(), 34);

    player.shift_to_point(Point { x: 9, y: 11 });
    assert_eq!(player.x(), 9);
    assert_eq!(player.y(), 11);
}

#[test]
fn game_objects_test_player() {
    let mut player = Player::new_at_coords(10, 10);
    assert_eq!(player.x(), 10);
    assert_eq!(player.y(), 10);

    player.shift(10, 10);
    assert_eq!(player.x(), 20);
    assert_eq!(player.y(), 20);

    player.shift_to(27, 34);
    assert_eq!(player.x(), 27);
    assert_eq!(player.y(), 34);

    player.shift_to_point(Point { x: 9, y: 11 });
    assert_eq!(player.x(), 9);
    assert_eq!(player.y(), 11);
}

#[test]
fn point_shift_translates() {
    let p = Point::new(3, 4);
    let q = p.shift(1, 2);
    assert_eq!(q.x(), 4);
    assert_eq!(q.y(), 6);
    let r = Point::new(-5, 7).shift(-2, -10);
    assert_eq!(r.x(), -7);
    assert_eq!(r.y(), -3);
}

#[test]
fn point_shift_to_forgets_origin() {
    let a = Point::new(3, 4).shift_to(11, 12);
    let b = Point::new(-100, 55).shift_to(11, 12);
    assert_eq!(a, b);
    assert_eq!(a, Point { x: 11, y: 12 });
}

#[test]
fn point_equality_is_by_coordinates() {
    assert_eq!(Point::new(1, 2), Point { x: 1, y: 2 });
    assert_ne!(Point::new(1, 2), Point::new(2, 1));
}

#[test]
fn go_next_lands_on_next() {
    // a spectre whose next() is (5, 5) ends at exactly (5, 5), from any
    // prior position
    let mut a = Spectre::new_at_coords(5, 6);
    a.set_target(Point::new(5, 5));
    let n = a.next();
    assert_eq!((n.x(), n.y()), (5, 5));
    a.go_next();
    assert_eq!((a.x(), a.y()), (5, 5));

    let mut b = Spectre::new_at_coords(4, 5);
    b.set_target(Point::new(5, 5));
    let n = b.next();
    assert_eq!((n.x(), n.y()), (5, 5));
    b.go_next();
    assert_eq!((b.x(), b.y()), (5, 5));
}

#[test]
fn spectre_chase_prefers_up_then_left() {
    // both up and left come closer: up wins
    let mut g = Spectre::new_at_coords(10, 10);
    g.set_target(Point::new(5, 5));
    g.go_next();
    assert_eq!((g.x(), g.y()), (10, 9));

    // only left comes closer
    let mut g = Spectre::new_at_coords(10, 5);
    g.set_target(Point::new(5, 5));
    g.go_next();
    assert_eq!((g.x(), g.y()), (9, 5));

    // only down comes closer
    let mut g = Spectre::new_at_coords(5, 2);
    g.set_target(Point::new(5, 5));
    g.go_next();
    assert_eq!((g.x(), g.y()), (5, 3));

    // only right comes closer
    let mut g = Spectre::new_at_coords(2, 5);
    g.set_target(Point::new(5, 5));
    g.go_next();
    assert_eq!((g.x(), g.y()), (3, 5));

    // standing on the target: every step ties, up is preferred
    let mut g = Spectre::new_at_coords(5, 5);
    g.set_target(Point::new(5, 5));
    g.go_next();
    assert_eq!((g.x(), g.y()), (5, 4));
}

#[test]
fn player_next_follows_heading() {
    let mut p = Player::new_at_coords(7, 7);
    let n = p.next();
    assert_eq!((n.x(), n.y()), (7, 7));
    p.set_direction(rusman::Direction::Right);
    let n = p.next();
    assert_eq!((n.x(), n.y()), (8, 7));
    p.go_next();
    assert_eq!((p.x(), p.y()), (8, 7));
}

#[test]
fn character_shift_moves_spectre() {
    let mut g = Spectre::new();
    assert_eq!((g.x(), g.y()), (0, 0));
    g.shift(3, -2);
    assert_eq!((g.x(), g.y()), (3, -2));
    g.shift_to(1, 1);
    assert_eq!((g.x(), g.y()), (1, 1));
}

#[test]
fn glyphs_are_fixed_and_keyed() {
    let g = Spectre::new();
    assert_eq!(g.glyph_bytes(), vec![0xF0, 0x9F, 0x91, 0xBB]);
    assert_eq!(g.fallback_glyph(), '!');
    let p = Player::new();
    assert_eq!(p.glyph_bytes(), vec![0xF0, 0x9F, 0x91, 0xBB]);
    assert_eq!(p.fallback_glyph(), '0');
    // the glyph bytes decode to real glyphs
    assert!(String::from_utf8(g.glyph_bytes()).is_ok());
}

#[test]
fn coin_glyphs_differ_by_size() {
    let small = rusman::Coin::new_at_coords(1, 1, false);
    let big = rusman::Coin::new_at_coords(1, 1, true);
    assert_eq!(small.glyph_bytes(), vec![0xE2, 0x97, 0x8F]);
    assert_eq!(big.glyph_bytes(), vec![0xE2, 0x97, 0x89]);
    assert_ne!(small.glyph_bytes(), big.glyph_bytes());
    assert_eq!(small.fallback_glyph(), '!');
    assert!(String::from_utf8(big.glyph_bytes()).is_ok());
}

#[test]
fn coin_accessors() {
    let c = rusman::Coin::new_at_point(Point::new(2, 9), true);
    assert_eq!((c.x(), c.y()), (2, 9));
    assert!(c.is_big());
    assert_eq!(c.value(), 5);
    let d = rusman::Coin::new();
    assert_eq!((d.x(), d.y()), (0, 0));
    assert!(!d.is_big());
    assert_eq!(d.value(), 1);
}
