use vstd::prelude::*;

use crate::draw::{is_square, Color, DrawCommand, Transform};

verus! {

/// Elapsed time is counted in nanoseconds.
pub const NANOS_PER_SECOND: u64 = 1_000_000_000;

/// Lengths are counted in thousandths of a drawing unit.
pub const MILLI: i64 = 1000;

/// Side of each square, in drawing units.
pub const SIZE: u32 = 50;

/// Width and height of the window, in pixels: eight squares across.
pub const WINDOW_SIZE: u32 = SIZE * 8;

/// Offset of the blue square from its pivot on each axis, in milli-units
/// (two and a half sides).
pub const BLUE_OFFSET: i64 = -125_000;

/// Offset of the red square from its pivot on each axis, in milli-units
/// (one and a quarter sides).
pub const RED_OFFSET: i64 = -62_500;

/// Side of each square in milli-units.
pub const SIDE: i64 = 50_000;

/// The animation state: two rotation angles in nano-radians.
///
/// The blue angle falls by one radian per second of elapsed time and the red
/// angle rises by two. Neither is ever normalised.
#[derive(Clone, Copy, Debug, PartialEq, Eq)]
pub struct App {
    pub rotation_blue: i64,
    pub rotation_red: i64,
}

/// Angles `a` after `dt` nanoseconds: blue turns back at one nano-radian per
/// nanosecond, red forward at two.
pub open spec fn advance(a: (int, int), dt: int) -> (int, int) {
    (a.0 - dt, a.1 + 2 * dt)
}

/// What the host loop hands the state: time has passed, or a frame is due.
#[derive(Clone, Copy, Debug, PartialEq, Eq, Structural)]
pub enum Event {
    /// `dt` nanoseconds have passed.
    Update { dt: u64 },
    /// A frame is due for a viewport of `width` by `height` units.
    Render { width: u32, height: u32 },
}

/// Whether state `s` can take event `e` without an angle leaving its range.
pub open spec fn accepts(s: App, e: Event) -> bool {
    match e {
        Event::Update { dt } => s.fits(dt as int),
        Event::Render { .. } => true,
    }
}

/// The pivot of both squares in a viewport of `width` by `height` units: its
/// centre, in milli-units.
pub open spec fn pivot(width: int, height: int) -> (int, int) {
    (width * MILLI / 2, height * MILLI / 2)
}

/// The transforms of a square turned by `angle` about the pivot of a `width` by
/// `height` viewport and then moved by `offset` on each axis in the turned frame.
pub open spec fn square_transforms(width: u32, height: u32, angle: i64, offset: i64) -> Seq<
    Transform,
> {
    let p = pivot(width as int, height as int);
    seq![
        Transform::Translate { x: p.0 as i64, y: p.1 as i64 },
        Transform::Rotate { angle },
        Transform::Translate { x: offset, y: offset },
    ]
}

/// Whether `f` is the frame of state `s` in a `width` by `height` viewport:
/// clear to green, then the blue square, then the red one.
pub open spec fn is_frame(s: App, width: u32, height: u32, f: Seq<DrawCommand>) -> bool {
    &&& f.len() == 3
    &&& f[0] == (DrawCommand::Clear { color: Color::Green })
    &&& is_square(f[1], Color::Blue, SIDE as int, square_transforms(width, height, s.rotation_blue, BLUE_OFFSET))
    &&& is_square(f[2], Color::Red, SIDE as int, square_transforms(width, height, s.rotation_red, RED_OFFSET))
}

/// The command that fills a square of the frame.
fn square(color: Color, cx: i64, cy: i64, angle: i64, offset: i64) -> (r: DrawCommand)
    ensures
        r == (DrawCommand::FillSquare { color, side: SIDE, transforms: r->transforms }),
        r->transforms@ == seq![
            Transform::Translate { x: cx, y: cy },
            Transform::Rotate { angle },
            Transform::Translate { x: offset, y: offset },
        ],
{
    let mut transforms: Vec<Transform> = Vec::new();
    transforms.push(Transform::Translate { x: cx, y: cy });
    transforms.push(Transform::Rotate { angle });
    transforms.push(Transform::Translate { x: offset, y: offset });
    DrawCommand::FillSquare { color, side: SIDE, transforms }
}

impl App {
    /// The angles of this state, blue then red, as mathematical integers.
    pub open spec fn angles(self) -> (int, int) {
        (self.rotation_blue as int, self.rotation_red as int)
    }

    /// Whether advancing this state by `dt` keeps both angles in range.
    pub open spec fn fits(self, dt: int) -> bool {
        let (b, r) = advance(self.angles(), dt);
        i64::MIN <= b && r <= i64::MAX
    }

    /// The state at creation: both angles zero.
    pub fn new() -> (r: App)
        ensures
            r.angles() == (0int, 0int),
    {
        App { rotation_blue: 0, rotation_red: 0 }
    }

    /// Whether `update(dt)` may be called on this state.
    pub fn can_update(&self, dt: u64) -> (r: bool)
        ensures
            r == self.fits(dt as int),
    {
        let d = dt as i128;
        let b = self.rotation_blue as i128 - d;
        let r = self.rotation_red as i128 + 2 * d;
        i64::MIN as i128 <= b && r <= i64::MAX as i128
    }

    /// Advances both angles by `dt` nanoseconds of elapsed time. The interval is
    /// unsigned: time never runs backwards here.
    pub fn update(&mut self, dt: u64)
        requires
            old(self).fits(dt as int),
        ensures
            final(self).angles() == advance(old(self).angles(), dt as int),
    {
        let d = dt as i64;
        self.rotation_blue = self.rotation_blue - d;
        self.rotation_red = self.rotation_red + d + d;
    }

    /// The frame for a viewport of `width` by `height` units.
    pub fn render(&self, width: u32, height: u32) -> (r: Vec<DrawCommand>)
        ensures
            is_frame(*self, width, height, r@),
    {
        let cx = width as i64 * MILLI / 2;
        let cy = height as i64 * MILLI / 2;
        let mut r: Vec<DrawCommand> = Vec::new();
        r.push(DrawCommand::Clear { color: Color::Green });
        r.push(square(Color::Blue, cx, cy, self.rotation_blue, BLUE_OFFSET));
        r.push(square(Color::Red, cx, cy, self.rotation_red, RED_OFFSET));
        r
    }

    /// Takes one event: an update advances the angles and yields no frame; a
    /// render leaves the state as it is and yields its frame.
    pub fn handle(&mut self, e: Event) -> (r: Option<Vec<DrawCommand>>)
        requires
            accepts(*old(self), e),
        ensures
            match e {
                Event::Update { dt } => {
                    &&& final(self).angles() == advance(old(self).angles(), dt as int)
                    &&& r is None
                },
                Event::Render { width, height } => {
                    &&& *final(self) == *old(self)
                    &&& r is Some
                    &&& is_frame(*old(self), width, height, r->0@)
                },
            },
    {
        match e {
            Event::Update { dt } => {
                self.update(dt);
                None
            },
            Event::Render { width, height } => Some(self.render(width, height)),
        }
    }
}

/// Angles `a` after a run of updates by each of `dts` in turn.
pub open spec fn advance_all(a: (int, int), dts: Seq<nat>) -> (int, int)
    decreases dts.len(),
{
    if dts.len() == 0 {
        a
    } else {
        advance(advance_all(a, dts.drop_last()), dts.last() as int)
    }
}

/// The total time of a run of updates.
pub open spec fn total(dts: Seq<nat>) -> int
    decreases dts.len(),
{
    if dts.len() == 0 {
        0
    } else {
        total(dts.drop_last()) + dts.last()
    }
}

/// Advancing by `dt1` and then by `dt2` is advancing by `dt1 + dt2`.
pub proof fn lemma_advance_linear(a: (int, int), dt1: nat, dt2: nat)
    ensures
        advance(advance(a, dt1 as int), dt2 as int) == advance(a, (dt1 + dt2) as int),
{
}

/// Advancing by zero leaves the angles as they are.
pub proof fn lemma_advance_zero(a: (int, int))
    ensures
        advance(a, 0) == a,
{
}

/// From both angles zero, any run of updates of total time `T` leaves blue at
/// `-T` and red at `2T`, so red is always minus twice blue.
pub proof fn lemma_rate_ratio(dts: Seq<nat>)
    ensures
        advance_all((0int, 0int), dts) == (-total(dts), 2 * total(dts)),
        advance_all((0int, 0int), dts).1 == -2 * advance_all((0int, 0int), dts).0,
    decreases dts.len(),
{
    if dts.len() > 0 {
        lemma_rate_ratio(dts.drop_last());
    }
}

/// Both squares turn about the centre of the viewport; doubling its width and
/// height doubles the pivot, and each square's transforms differ only in the
/// first step, the move to that pivot.
pub proof fn lemma_frame_scales(width: u32, height: u32)
    requires
        2 * width <= u32::MAX,
        2 * height <= u32::MAX,
    ensures
        pivot(2 * width, 2 * height) == (2 * pivot(width as int, height as int).0, 2 * pivot(
            width as int,
            height as int,
        ).1),
        forall|angle: i64, offset: i64|
            #![trigger square_transforms((2 * width) as u32, (2 * height) as u32, angle, offset)]
            square_transforms((2 * width) as u32, (2 * height) as u32, angle, offset)
                == square_transforms(width, height, angle, offset).update(
                0,
                Transform::Translate {
                    x: pivot(2 * width, 2 * height).0 as i64,
                    y: pivot(2 * width, 2 * height).1 as i64,
                },
            ),
{
    assert(width * MILLI / 2 == 500 * width);
    assert(height * MILLI / 2 == 500 * height);
    assert((2 * width) * MILLI / 2 == 1000 * width);
    assert((2 * height) * MILLI / 2 == 1000 * height);
    assert forall|angle: i64, offset: i64|
        #![trigger square_transforms((2 * width) as u32, (2 * height) as u32, angle, offset)]
        square_transforms((2 * width) as u32, (2 * height) as u32, angle, offset)
            == square_transforms(width, height, angle, offset).update(
            0,
            Transform::Translate {
                x: pivot(2 * width, 2 * height).0 as i64,
                y: pivot(2 * width, 2 * height).1 as i64,
            },
        ) by {
        assert(square_transforms((2 * width) as u32, (2 * height) as u32, angle, offset)
            =~= square_transforms(width, height, angle, offset).update(
            0,
            Transform::Translate {
                x: pivot(2 * width, 2 * height).0 as i64,
                y: pivot(2 * width, 2 * height).1 as i64,
            },
        ));
    }
}

} // verus!
