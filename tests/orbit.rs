use orbits::bitmap::{load_image, LoadError};
use orbits::draw::{Color, DrawCommand, Transform, FULL};
use orbits::orbit::{
    App, Event, BLUE_OFFSET, MILLI, NANOS_PER_SECOND, RED_OFFSET, SIDE, SIZE, WINDOW_SIZE,
};

fn square(color: Color, cx: i64, cy: i64, angle: i64, offset: i64) -> DrawCommand {
    DrawCommand::FillSquare {
        color,
        side: SIDE,
        transforms: vec![
            Transform::Translate { x: cx, y: cy },
            Transform::Rotate { angle },
            Transform::Translate { x: offset, y: offset },
        ],
    }
}

#[test]
fn starts_at_zero() {
    let a = App::new();
    assert_eq!(a.rotation_blue, 0);
    assert_eq!(a.rotation_red, 0);
}

#[test]
fn one_second_then_render() {
    let mut a = App::new();
    a.update(NANOS_PER_SECOND);
    assert_eq!(a.rotation_blue, -1_000_000_000);
    assert_eq!(a.rotation_red, 2_000_000_000);
    let f = a.render(400, 400);
    assert_eq!(
        f,
        vec![
            DrawCommand::Clear { color: Color::Green },
            square(Color::Blue, 200_000, 200_000, -1_000_000_000, -125_000),
            square(Color::Red, 200_000, 200_000, 2_000_000_000, -62_500),
        ]
    );
}

#[test]
fn updates_add_up() {
    let mut a = App::new();
    a.update(300_000_000);
    a.update(700_000_000);
    let mut b = App::new();
    b.update(1_000_000_000);
    assert_eq!(a, b);
}

#[test]
fn zero_update_changes_nothing() {
    let mut a = App { rotation_blue: 12, rotation_red: -7 };
    a.update(0);
    assert_eq!(a, App { rotation_blue: 12, rotation_red: -7 });
}

#[test]
fn red_is_minus_twice_blue() {
    let mut a = App::new();
    for dt in [1u64, 16_666_667, 0, 33_333_333, 5] {
        a.update(dt);
        assert_eq!(a.rotation_red, -2 * a.rotation_blue);
    }
    assert_eq!(a.rotation_blue, -50_000_006);
}

#[test]
fn render_leaves_state() {
    let a = App { rotation_blue: 3, rotation_red: 4 };
    let _ = a.render(100, 50);
    assert_eq!(a, App { rotation_blue: 3, rotation_red: 4 });
}

#[test]
fn pivot_at_centre_and_doubles() {
    let a = App { rotation_blue: -5, rotation_red: 10 };
    let f = a.render(101, 60);
    assert_eq!(f[1], square(Color::Blue, 50_500, 30_000, -5, BLUE_OFFSET));
    assert_eq!(f[2], square(Color::Red, 50_500, 30_000, 10, RED_OFFSET));
    let g = a.render(202, 120);
    assert_eq!(g[0], f[0]);
    assert_eq!(g[1], square(Color::Blue, 101_000, 60_000, -5, BLUE_OFFSET));
    assert_eq!(g[2], square(Color::Red, 101_000, 60_000, 10, RED_OFFSET));
}

#[test]
fn empty_viewport() {
    let a = App::new();
    let f = a.render(0, 0);
    assert_eq!(f[1], square(Color::Blue, 0, 0, 0, BLUE_OFFSET));
}

#[test]
fn largest_viewport() {
    let a = App::new();
    let f = a.render(u32::MAX, u32::MAX);
    let c = u32::MAX as i64 * MILLI / 2;
    assert_eq!(c, 2_147_483_647_500);
    assert_eq!(f[2], square(Color::Red, c, c, 0, RED_OFFSET));
}

#[test]
fn offsets_follow_side() {
    assert_eq!(SIDE, SIZE as i64 * MILLI);
    assert_eq!(BLUE_OFFSET, -SIDE * 5 / 2);
    assert_eq!(RED_OFFSET, -SIDE * 5 / 4);
    assert_eq!(WINDOW_SIZE, 400);
}

#[test]
fn update_bounds() {
    let a = App { rotation_blue: 0, rotation_red: i64::MAX - 4 };
    assert!(a.can_update(2));
    assert!(!a.can_update(3));
    let b = App { rotation_blue: i64::MIN + 1, rotation_red: 0 };
    assert!(b.can_update(1));
    assert!(!b.can_update(2));
    assert!(!App::new().can_update(u64::MAX));
    let mut c = a;
    c.update(2);
    assert_eq!(c.rotation_red, i64::MAX);
}

#[test]
fn events() {
    let mut a = App::new();
    assert_eq!(a.handle(Event::Update { dt: 250 }), None);
    assert_eq!(a, App { rotation_blue: -250, rotation_red: 500 });
    let f = a.handle(Event::Render { width: 400, height: 400 });
    assert_eq!(f, Some(a.render(400, 400)));
    assert_eq!(a, App { rotation_blue: -250, rotation_red: 500 });
}

#[test]
fn colours() {
    assert_eq!(Color::Green.rgba(), (0, FULL, 0, FULL));
    assert_eq!(Color::Blue.rgba(), (0, 0, FULL, FULL));
    assert_eq!(Color::Red.rgba(), (FULL, 0, 0, FULL));
}

fn one_pixel_bmp(b: u8, g: u8, r: u8) -> Vec<u8> {
    let mut v: Vec<u8> = Vec::new();
    v.extend_from_slice(b"BM");
    v.extend_from_slice(&58u32.to_le_bytes());
    v.extend_from_slice(&0u32.to_le_bytes());
    v.extend_from_slice(&54u32.to_le_bytes());
    v.extend_from_slice(&40u32.to_le_bytes());
    v.extend_from_slice(&1i32.to_le_bytes());
    v.extend_from_slice(&1i32.to_le_bytes());
    v.extend_from_slice(&1u16.to_le_bytes());
    v.extend_from_slice(&24u16.to_le_bytes());
    v.extend_from_slice(&0u32.to_le_bytes());
    v.extend_from_slice(&4u32.to_le_bytes());
    v.extend_from_slice(&2835i32.to_le_bytes());
    v.extend_from_slice(&2835i32.to_le_bytes());
    v.extend_from_slice(&0u32.to_le_bytes());
    v.extend_from_slice(&0u32.to_le_bytes());
    v.extend_from_slice(&[b, g, r, 0]);
    v
}

#[test]
fn loads_bitmap_samples() {
    let bytes = one_pixel_bmp(30, 20, 10);
    assert_eq!(load_image(&bytes), Ok(vec![10, 20, 30]));
}

#[test]
fn rejects_non_bitmap() {
    assert_eq!(load_image(&[]), Err(LoadError::Decode));
    assert_eq!(load_image(b"not an image"), Err(LoadError::Decode));
}
