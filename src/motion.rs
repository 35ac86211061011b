use vstd::prelude::*;

use crate::frame::{place_point, square_center, Color, Frame, Square, Transform};
use crate::main_loop::{ticked_n, Tick};

verus! {

/// Angular speed of the square, in radians per second.
pub const ANGULAR_SPEED: u64 = 2;

/// Number of fixed simulation steps per simulated second: each step lasts
/// `1 / TICKS_PER_SECOND` s, whatever the wall clock says.
pub const TICKS_PER_SECOND: u64 = 30;

/// Side of the drawn square, in pixels.
pub const SQUARE_SIZE: u32 = 50;

/// The size of the area drawn into.
#[derive(Clone, Copy, Debug, PartialEq, Eq, Structural)]
pub struct RenderArgs {
    pub width: u32,
    pub height: u32,
}

/// The state of the demo: the rotation of the square, counted in units of
/// `1 / TICKS_PER_SECOND` radians, so that it accumulates without rounding.
#[derive(Clone, Copy, Debug, PartialEq, Eq, Structural)]
pub struct App {
    pub rotation: u64,
}

impl App {
    /// Whether one more step can be counted without leaving `u64`.
    pub open spec fn can_update(self) -> bool {
        self.rotation + ANGULAR_SPEED <= u64::MAX
    }

    /// The state after one fixed step.
    pub open spec fn updated(self) -> App {
        App { rotation: (self.rotation + ANGULAR_SPEED) as u64 }
    }

    /// The frame drawn for this state in an area of the given size.
    pub open spec fn frame_spec(self, args: RenderArgs) -> Frame {
        Frame {
            width: args.width,
            height: args.height,
            background: Color { r: 0, g: 255, b: 0, a: 255 },
            foreground: Color { r: 255, g: 0, b: 0, a: 255 },
            square: Square { x: 0, y: 0, size: SQUARE_SIZE },
            transform: Transform {
                center_x: args.width / 2,
                center_y: args.height / 2,
                rotation: self.rotation,
                offset_x: -(SQUARE_SIZE / 2) as i64,
                offset_y: -(SQUARE_SIZE / 2) as i64,
            },
        }
    }

    /// A square at rest: rotation zero.
    pub fn new() -> (app: App)
        ensures
            app.rotation == 0,
    {
        App { rotation: 0 }
    }

    /// Advance the rotation by one fixed step of `1 / TICKS_PER_SECOND` s at
    /// `ANGULAR_SPEED` rad/s.
    pub fn update(&mut self)
        requires
            old(self).can_update(),
        ensures
            *final(self) == old(self).updated(),
            final(self).rotation == old(self).rotation + ANGULAR_SPEED,
    {
        self.rotation = self.rotation + ANGULAR_SPEED;
    }

    /// Plan the frame for the current rotation: clear to green, then a red
    /// 50 by 50 square turned about its centre, which sits at the centre of
    /// the area.
    pub fn render(&self, args: &RenderArgs) -> (f: Frame)
        ensures
            f == self.frame_spec(*args),
    {
        Frame {
            width: args.width,
            height: args.height,
            background: Color::green(),
            foreground: Color::red(),
            square: Square { x: 0, y: 0, size: SQUARE_SIZE },
            transform: Transform {
                center_x: args.width / 2,
                center_y: args.height / 2,
                rotation: self.rotation,
                offset_x: -((SQUARE_SIZE / 2) as i64),
                offset_y: -((SQUARE_SIZE / 2) as i64),
            },
        }
    }
}

/// The work of one frame: a fixed step of the state, then the plan of the
/// frame for an area of a fixed size.
#[derive(Clone, Copy, Debug, PartialEq, Eq, Structural)]
pub struct FrameDriver {
    pub app: App,
    pub args: RenderArgs,
}

impl FrameDriver {
    /// A driver for a square at rest, drawn into an area of `width` by `height`.
    pub fn new(width: u32, height: u32) -> (d: FrameDriver)
        ensures
            d.app.rotation == 0,
            d.args == (RenderArgs { width, height }),
    {
        FrameDriver { app: App::new(), args: RenderArgs { width, height } }
    }
}

impl Tick for FrameDriver {
    type Output = Frame;

    open spec fn can_tick(&self) -> bool {
        self.app.can_update()
    }

    open spec fn ticked(&self) -> FrameDriver {
        FrameDriver { app: self.app.updated(), args: self.args }
    }

    open spec fn tick_output(&self) -> Frame {
        self.app.updated().frame_spec(self.args)
    }

    fn is_ready(&self) -> (r: bool) {
        self.app.rotation <= u64::MAX - ANGULAR_SPEED
    }

    /// Update, then render: the frame shows the rotation after the step.
    fn tick(&mut self) -> (out: Frame) {
        self.app.update();
        self.app.render(&self.args)
    }
}

/// From rotation zero, `n` ticks turn the square by exactly
/// `n * ANGULAR_SPEED / TICKS_PER_SECOND` radians, with no wrapping, and leave
/// the area's size as it was.
pub proof fn lemma_rotation_after_ticks(d: FrameDriver, n: nat)
    requires
        d.app.rotation == 0,
        n * ANGULAR_SPEED <= u64::MAX,
    ensures
        ticked_n(d, n).app.rotation == n * ANGULAR_SPEED,
        ticked_n(d, n).args == d.args,
    decreases n,
{
    if n > 0 {
        lemma_rotation_after_ticks(d, (n - 1) as nat);
    }
}

/// Whatever the rotation, the centre of the drawn square lands on the centre
/// of the area; at rotation zero its corners lie half a side away from it.
pub proof fn lemma_square_centered(app: App, args: RenderArgs)
    ensures
        ({
            let f = app.frame_spec(args);
            let (cx, cy) = (args.width / 2, args.height / 2);
            &&& place_point(f.transform, square_center(f.square)) == Some((cx as int, cy as int))
            &&& app.rotation == 0 ==> place_point(f.transform, (f.square.x as int, f.square.y as int))
                == Some((cx - 25, cy - 25))
            &&& app.rotation == 0 ==> place_point(
                f.transform,
                (f.square.x + f.square.size, f.square.y + f.square.size),
            ) == Some((cx + 25, cy + 25))
        }),
{
}

} // verus!
