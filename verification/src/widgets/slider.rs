//! A slider widget, allowing interactive update of a normalized value
//! (0 to [`UNIT_MAX`] standing for 0.0 to 1.0).

use vstd::prelude::*;

use crate::constraints::BoxConstraints;
use crate::ctx::{BaseState, EventCtx, UpdateCtx};
use crate::env::{Env, Key};
use crate::event::{Action, Event};
use crate::geom::{clamp_dim, max_dim, spec_clamp, Point, Rect, Size, MAX_DIM, UNIT_MAX};
use crate::paint::{Brush, PaintCtx};
use crate::widget::Widget;

verus! {

/// The value a pointer position selects: the knob-center position as a
/// fraction of the track, clamped into the unit range. A degenerate track
/// (no wider than the knob) always selects zero.
pub open spec fn spec_calculate_value(width: int, x_offset: int, knob_width: int, mouse_x: int)
    -> int {
    let num = mouse_x + x_offset - knob_width / 2;
    if width <= knob_width {
        0
    } else if num <= 0 {
        0
    } else {
        spec_clamp(num * (UNIT_MAX as int) / (width - knob_width), 0, UNIT_MAX as int)
    }
}

/// The knob-center x position for a value: its fraction of the track plus
/// the knob's own radius.
pub open spec fn spec_knob_x(width: int, knob_size: int, value: int) -> int {
    let track = if width - knob_size >= 0 {
        width - knob_size
    } else {
        0
    };
    track * spec_clamp(value, 0, UNIT_MAX as int) / (UNIT_MAX as int) + knob_size / 2
}

/// Whether a pointer position hits the knob: strictly inside the circle,
/// compared by squared distance.
pub open spec fn spec_knob_hit(knob_pos: Point, knob_width: int, mouse_pos: Point) -> bool {
    let kp = knob_pos.spec_clamped();
    (mouse_pos.x - kp.x) * (mouse_pos.x - kp.x) + (mouse_pos.y - kp.y) * (mouse_pos.y - kp.y) < (
    knob_width / 2) * (knob_width / 2)
}

/// A horizontal slider over a normalized value.
#[derive(Clone, Copy, PartialEq, Eq, Structural, Debug)]
pub struct Slider {
    /// The width stored during the last paint, so pointer events can be
    /// converted into values.
    pub width: i64,
    /// The knob center as painted last.
    pub knob_pos: Point,
    /// Whether the pointer hovers the knob.
    pub knob_hovered: bool,
    /// The grab offset between the knob center and the pointer, while
    /// dragging the knob itself.
    pub x_offset: i64,
}

impl Slider {
    /// A slider that has not been painted yet.
    pub fn new() -> (s: Slider)
        ensures
            s.width == 0,
            s.knob_pos == (Point { x: 0, y: 0 }),
            s.knob_hovered == false,
            s.x_offset == 0,
    {
        Slider {
            width: 0,
            knob_pos: Point { x: 0, y: 0 },
            knob_hovered: false,
            x_offset: 0,
        }
    }

    /// Whether the pointer is over the knob painted last.
    fn knob_hit_test(&self, knob_width: i64, mouse_pos: Point) -> (r: bool)
        requires
            mouse_pos.wf(),
            0 <= knob_width <= 10000,
        ensures
            r == spec_knob_hit(self.knob_pos, knob_width as int, mouse_pos),
    {
        let kp = self.knob_pos.clamped();
        let d = mouse_pos.dist_squared(kp);
        let radius = knob_width / 2;
        proof {
            assert(0 <= radius * radius <= 25_000_000) by (nonlinear_arith)
                requires
                    0 <= radius <= 5000,
            ;
        }
        d < radius * radius
    }

    /// The value the pointer position selects.
    fn calculate_value(&self, mouse_x: i64, knob_width: i64) -> (v: i64)
        requires
            -MAX_DIM <= mouse_x <= MAX_DIM,
            0 <= knob_width <= 10000,
        ensures
            v == spec_calculate_value(
                spec_clamp(self.width as int, 0, MAX_DIM as int),
                spec_clamp(self.x_offset as int, -2 * MAX_DIM as int, 2 * MAX_DIM as int),
                knob_width as int,
                mouse_x as int,
            ),
            0 <= v <= UNIT_MAX,
    {
        let w = clamp_dim(self.width, 0, MAX_DIM);
        let off = clamp_dim(self.x_offset, -2 * MAX_DIM, 2 * MAX_DIM);
        let num = mouse_x + off - knob_width / 2;
        if w <= knob_width {
            0
        } else if num <= 0 {
            0
        } else {
            proof {
                assert(0 <= num * (UNIT_MAX as int) <= 4_000_000_000 * (UNIT_MAX as int))
                    by (nonlinear_arith)
                    requires
                        0 < num <= 4_000_000_000int,
                ;
            }
            clamp_dim(num * UNIT_MAX / (w - knob_width), 0, UNIT_MAX)
        }
    }
}

impl Widget<i64> for Slider {
    /// A pointer-down on the knob grabs it (recording the grab offset); a
    /// pointer-down on the track jumps the value there and captures; moves
    /// while captured track the pointer; the release sets the final value.
    /// A move without a preceding pointer-down never changes the value.
    fn event(&mut self, ctx: &mut EventCtx, event: &Event, data: &mut i64, env: &Env) -> (action:
        Option<Action>)
        ensures
            action is None,
            final(self).width == old(self).width,
            event matches Event::MouseDown(m) ==> {
                &&& final(ctx).active
                &&& if spec_knob_hit(old(self).knob_pos, env.len_of(Key::HowTallThingsAre), m.pos) {
                    &&& *final(data) == *old(data)
                    &&& final(self).x_offset == old(self).knob_pos.spec_clamped().x - m.pos.x
                } else {
                    &&& final(self).x_offset == 0
                    &&& *final(data) == spec_calculate_value(
                        spec_clamp(old(self).width as int, 0, MAX_DIM as int),
                        0,
                        env.len_of(Key::HowTallThingsAre),
                        m.pos.x as int,
                    )
                }
            },
            event matches Event::MouseUp(m) ==> {
                &&& final(ctx).active == false
                &&& if old(ctx).active {
                    *final(data) == spec_calculate_value(
                        spec_clamp(old(self).width as int, 0, MAX_DIM as int),
                        spec_clamp(
                            old(self).x_offset as int,
                            -2 * MAX_DIM as int,
                            2 * MAX_DIM as int,
                        ),
                        env.len_of(Key::HowTallThingsAre),
                        m.pos.x as int,
                    )
                } else {
                    *final(data) == *old(data)
                }
            },
            event matches Event::MouseMove(m) ==> {
                &&& if old(ctx).active {
                    *final(data) == spec_calculate_value(
                        spec_clamp(old(self).width as int, 0, MAX_DIM as int),
                        spec_clamp(
                            old(self).x_offset as int,
                            -2 * MAX_DIM as int,
                            2 * MAX_DIM as int,
                        ),
                        env.len_of(Key::HowTallThingsAre),
                        m.pos.x as int,
                    )
                } else {
                    *final(data) == *old(data)
                }
            },
            !(event matches Event::MouseDown(_) || event matches Event::MouseUp(_)
                || event matches Event::MouseMove(_)) ==> *final(data) == *old(data),
    {
        let knob_size = env.get_len(Key::HowTallThingsAre);

        match event {
            Event::MouseDown(mouse) => {
                ctx.set_active(true);
                if self.knob_hit_test(knob_size, mouse.pos) {
                    let kp = self.knob_pos.clamped();
                    self.x_offset = kp.x - mouse.pos.x;
                } else {
                    self.x_offset = 0;
                    *data = self.calculate_value(mouse.pos.x, knob_size);
                }
                ctx.invalidate();
            },
            Event::MouseUp(mouse) => {
                if ctx.is_active() {
                    ctx.set_active(false);
                    *data = self.calculate_value(mouse.pos.x, knob_size);
                    ctx.invalidate();
                } else {
                    ctx.set_active(false);
                }
            },
            Event::MouseMove(mouse) => {
                if ctx.is_active() {
                    *data = self.calculate_value(mouse.pos.x, knob_size);
                }
                if ctx.is_hot() {
                    if self.knob_hit_test(knob_size, mouse.pos) {
                        self.knob_hovered = true;
                    } else {
                        self.knob_hovered = false;
                    }
                }
                ctx.invalidate();
            },
            _ => {},
        }
        None
    }

    /// A fixed default width when the horizontal axis is unbounded, else
    /// the full available width; the theme's tall-widget height.
    fn layout(&mut self, bc: &BoxConstraints, data: &i64, env: &Env) -> (size: Size)
        ensures
            size == bc.spec_constrain(
                Size {
                    width: if bc.max.width == MAX_DIM {
                        100
                    } else {
                        bc.max.width
                    },
                    height: env.len_of(Key::TallerThings) as i64,
                },
            ),
    {
        let default_width: i64 = 100;
        let height = env.get_len(Key::TallerThings);
        if !bc.is_width_bounded() {
            bc.constrain(Size { width: default_width, height })
        } else {
            bc.constrain(Size { width: bc.max().width, height })
        }
    }

    /// Paints the track and the knob, and records the width and the knob
    /// position so later pointer events can be converted into values.
    fn paint(&mut self, ctx: &mut PaintCtx, base: &BaseState, data: &i64, env: &Env)
        ensures
            final(self).width == base.size.width,
            final(self).knob_pos == (Point {
                x: spec_knob_x(
                    base.size.width as int,
                    env.len_of(Key::HowTallThingsAre),
                    *data as int,
                ) as i64,
                y: (env.len_of(Key::HowTallThingsAre) / 2) as i64,
            }),
            final(self).knob_hovered == old(self).knob_hovered,
            final(self).x_offset == old(self).x_offset,
    {
        let clamped = clamp_dim(*data, 0, UNIT_MAX);
        let knob_size = env.get_len(Key::HowTallThingsAre);
        let track_thickness: i64 = 4;

        // Store the width so pointer positions can be converted to values.
        self.width = base.size().width;

        // Paint the track.
        let background_width = max_dim(self.width - knob_size, 0);
        let background_origin = Point { x: knob_size / 2, y: (knob_size - track_thickness) / 2 };
        let background_rect = Rect {
            origin: background_origin,
            size: Size { width: background_width, height: track_thickness },
        };
        let background_gradient = Brush::Gradient {
            top: env.get_color(Key::BackgroundLight),
            bottom: env.get_color(Key::BackgroundDark),
        };
        ctx.stroke_rounded_rect(background_rect, 2, 2, Brush::Solid(env.get_color(Key::Border)));
        ctx.fill_rounded_rect(background_rect, 2, background_gradient);

        // Compute and remember the knob position.
        let is_active = base.is_active();
        let is_hovered = self.knob_hovered;
        let track = max_dim(self.width - knob_size, 0);
        proof {
            assert(0 <= track * spec_clamp(*data as int, 0, UNIT_MAX as int) <= track * (
            UNIT_MAX as int)) by (nonlinear_arith)
                requires
                    0 <= track,
                    0 <= spec_clamp(*data as int, 0, UNIT_MAX as int) <= UNIT_MAX as int,
            ;
        }
        let knob_position = track * clamped / UNIT_MAX + knob_size / 2;
        self.knob_pos = Point { x: knob_position, y: knob_size / 2 };

        let normal_knob_gradient = Brush::Gradient {
            top: env.get_color(Key::ForegroundLight),
            bottom: env.get_color(Key::ForegroundDark),
        };
        let flipped_knob_gradient = Brush::Gradient {
            top: env.get_color(Key::ForegroundDark),
            bottom: env.get_color(Key::ForegroundLight),
        };
        let knob_gradient = if is_active {
            flipped_knob_gradient
        } else {
            normal_knob_gradient
        };

        // Paint the knob border, then the knob.
        let border_color = if is_hovered || is_active {
            env.get_color(Key::ForegroundLight)
        } else {
            env.get_color(Key::ForegroundDark)
        };
        ctx.stroke_circle(self.knob_pos, knob_size / 2, 2, Brush::Solid(border_color));
        ctx.fill_circle(self.knob_pos, knob_size / 2, knob_gradient);
    }

    fn update(&mut self, ctx: &mut UpdateCtx, old_data: Option<&i64>, data: &i64, env: &Env) {
        ctx.invalidate();
    }
}

} // verus!
