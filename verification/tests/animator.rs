use spinning::animator::{App, Direction, Key};
use spinning::color::Rgba;

#[test]
fn new_defaults() {
    let app = App::new();
    assert_eq!(app.fg_index, 5);
    assert_eq!(app.bg_index, 0);
    assert_eq!(app.x, 100);
    assert_eq!(app.y, 100);
    assert_eq!(app.direction, Direction::Positive);
}

#[test]
fn one_down_steps_indices() {
    let mut app = App::new();
    let indexes = app.update_color(0);
    assert_eq!(indexes, (4, 1));
    assert_eq!(app.fg_index, 4);
    assert_eq!(app.bg_index, 1);
}

#[test]
fn five_downs_reach_bottom_and_sixth_is_noop() {
    let mut app = App::new();
    let mut indexes = (app.fg_index, app.bg_index);
    for _ in 0..5 {
        indexes = app.update_color(0);
    }
    assert_eq!(indexes, (0, 5));
    indexes = app.update_color(0);
    assert_eq!(indexes, (0, 5));
}

#[test]
fn up_at_top_is_noop() {
    let mut app = App::new();
    assert_eq!(app.fg_index, 5);
    let indexes = app.update_color(1);
    assert_eq!(indexes, (5, 0));
}

#[test]
fn down_at_bottom_is_noop() {
    let mut app = App::new();
    for _ in 0..5 {
        app.update_color(0);
    }
    let indexes = app.update_color(0);
    assert_eq!(indexes, (0, 5));
}

#[test]
fn up_undoes_down() {
    let mut app = App::new();
    app.update_color(0);
    app.update_color(0);
    let indexes = app.update_color(1);
    assert_eq!(indexes, (4, 1));
}

#[test]
fn index_sum_stays_five_over_mixed_presses() {
    let mut app = App::new();
    let presses = [0, 0, 1, 0, 0, 0, 0, 0, 1, 1, 0, 1, 1, 1, 1, 1, 1, 0];
    for &p in presses.iter() {
        let (fg, bg) = app.update_color(p);
        assert_eq!(fg + bg, 5);
        assert!(fg <= 5);
        assert!(bg <= 5);
    }
}

#[test]
fn index_sum_stays_five_over_key_presses() {
    let mut app = App::new();
    let keys = [
        Key::Down,
        Key::Up,
        Key::W,
        Key::Down,
        Key::Down,
        Key::Space,
        Key::Down,
        Key::Up,
        Key::Right,
        Key::Down,
    ];
    for &k in keys.iter() {
        app.on_input(k);
        assert_eq!(app.fg_index + app.bg_index, 5);
    }
}

#[test]
fn wasd_moves_position() {
    let mut app = App::new();
    app.on_input(Key::W);
    assert_eq!((app.x, app.y), (100, 95));
    app.on_input(Key::S);
    app.on_input(Key::S);
    assert_eq!((app.x, app.y), (100, 105));
    app.on_input(Key::A);
    assert_eq!((app.x, app.y), (95, 105));
    app.on_input(Key::D);
    app.on_input(Key::D);
    assert_eq!((app.x, app.y), (105, 105));
}

#[test]
fn space_resets_position_after_any_moves() {
    let mut app = App::new();
    for _ in 0..7 {
        app.on_input(Key::D);
        app.on_input(Key::W);
    }
    app.on_input(Key::S);
    assert_ne!((app.x, app.y), (100, 100));
    app.on_input(Key::Space);
    assert_eq!((app.x, app.y), (100, 100));
}

#[test]
fn space_is_noop_at_start() {
    let mut app = App::new();
    app.on_input(Key::Space);
    assert_eq!((app.x, app.y), (100, 100));
}

#[test]
fn position_saturates_at_bounds() {
    let mut app = App::new();
    app.x = i64::MAX - 3;
    app.on_input(Key::D);
    assert_eq!(app.x, i64::MAX);
    app.on_input(Key::D);
    assert_eq!(app.x, i64::MAX);
    app.y = i64::MIN + 3;
    app.on_input(Key::W);
    assert_eq!(app.y, i64::MIN);
    app.on_input(Key::W);
    assert_eq!(app.y, i64::MIN);
}

#[test]
fn right_and_left_set_direction() {
    let mut app = App::new();
    app.on_input(Key::Left);
    assert_eq!(app.direction, Direction::Negative);
    app.on_input(Key::Right);
    assert_eq!(app.direction, Direction::Positive);
}

#[test]
fn rotation_rates_follow_direction() {
    let mut app = App::new();
    assert_eq!(app.rotation_rates(), (2, -2));
    app.on_input(Key::Left);
    assert_eq!(app.rotation_rates(), (-2, 2));
    app.on_input(Key::Right);
    assert_eq!(app.rotation_rates(), (2, -2));
}

#[test]
fn rotation_rates_are_opposite() {
    let mut app = App::new();
    for &k in [Key::Right, Key::Left].iter() {
        app.on_input(k);
        let (big, little) = app.rotation_rates();
        assert_eq!(little, -big);
    }
}

#[test]
fn render_describes_the_frame() {
    let mut app = App::new();
    app.on_input(Key::Down);
    let scene = app.render();
    let orange = Rgba { r: 255, g: 127, b: 0, a: 255 };
    let blue = Rgba { r: 0, g: 0, b: 255, a: 255 };
    assert_eq!(scene.clear, orange);
    assert_eq!(scene.big.color, blue);
    assert_eq!(scene.big.side, 80);
    assert_eq!(scene.big.half, 40);
    assert_eq!(scene.little.color, orange);
    assert_eq!(scene.little.side, 40);
    assert_eq!(scene.little.half, 20);
    assert_eq!((scene.x, scene.y), (100, 100));
}

#[test]
fn render_tracks_position() {
    let mut app = App::new();
    app.on_input(Key::D);
    app.on_input(Key::S);
    let scene = app.render();
    assert_eq!((scene.x, scene.y), (105, 105));
}
