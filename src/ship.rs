use vstd::prelude::*;

use crate::bullet::{Bullet, BULLET_HEIGHT, BULLET_SPEED, BULLET_WIDTH};
use crate::geometry::{centered, centered_rect, Rect};

verus! {

/// Side of the craft's square.
pub const SHIP_SIZE: i64 = 40_000;

/// Height of the craft's center above the top of the playfield.
pub const SHIP_Y: i64 = 380_000;

/// Speed of the craft, per millisecond.
pub const SHIP_SPEED: i64 = 200;

/// The player's craft, moving horizontally along the bottom of the playfield.
#[derive(Debug, Clone, Copy, PartialEq, Eq, Structural)]
pub struct Ship {
    pub x: i64,
    pub y: i64,
    pub width: i64,
    pub height: i64,
    /// `-1` moves left, `1` moves right, `0` stands still.
    pub direction: i8,
    pub speed: i64,
    /// Width of the playfield that bounds the craft.
    pub scene_width: i64,
}

pub open spec fn clamp(v: int, lo: int, hi: int) -> int {
    if v < lo {
        lo
    } else if v > hi {
        hi
    } else {
        v
    }
}

impl Ship {
    pub open spec fn wf(self) -> bool {
        &&& self.width == SHIP_SIZE
        &&& self.height == SHIP_SIZE
        &&& self.y == SHIP_Y
        &&& self.speed == SHIP_SPEED
        &&& -1 <= self.direction <= 1
        &&& -crate::POS_LIMIT <= self.x <= crate::POS_LIMIT
        &&& 0 <= self.scene_width <= crate::POS_LIMIT
    }

    pub open spec fn half_width(self) -> int {
        self.width / 2
    }

    /// Where the craft would stand after `delta_time` milliseconds, unbounded.
    pub open spec fn candidate_x(self, delta_time: int) -> int {
        self.x + self.direction * self.speed * delta_time
    }

    /// The craft after `delta_time` milliseconds: moved along its direction, then
    /// held so that its body stays inside the playfield.
    pub open spec fn advanced(self, delta_time: int) -> Ship {
        Ship {
            x: clamp(
                self.candidate_x(delta_time),
                self.half_width(),
                self.scene_width - self.half_width(),
            ) as i64,
            ..self
        }
    }

    /// The projectile fired from the craft's nose.
    pub open spec fn nose_bullet(self) -> Bullet {
        Bullet {
            x: self.x,
            y: (self.y - self.height / 2) as i64,
            width: BULLET_WIDTH,
            height: BULLET_HEIGHT,
            direction: -1i8,
            speed: BULLET_SPEED,
        }
    }

    pub open spec fn rect(self) -> Rect {
        centered(self.x as int, self.y as int, self.width as int, self.height as int)
    }

    /// A craft standing still at `x`, in a playfield `scene_width` wide.
    pub fn new(x: i64, scene_width: i64) -> (r: Ship)
        ensures
            r == (Ship {
                x,
                y: SHIP_Y,
                width: SHIP_SIZE,
                height: SHIP_SIZE,
                direction: 0i8,
                speed: SHIP_SPEED,
                scene_width,
            }),
    {
        Ship {
            x,
            y: SHIP_Y,
            width: SHIP_SIZE,
            height: SHIP_SIZE,
            direction: 0,
            speed: SHIP_SPEED,
            scene_width,
        }
    }

    /// A new projectile at the craft's nose; the craft is unchanged.
    pub fn fire_bullet(&mut self) -> (r: Bullet)
        requires
            old(self).wf(),
        ensures
            r == old(self).nose_bullet(),
            *final(self) == *old(self),
    {
        Bullet::new(self.x, self.y - self.height / 2)
    }

    /// Moves the craft for `delta_time` milliseconds and holds it inside the
    /// playfield.
    pub fn change_position(&mut self, delta_time: i64)
        requires
            old(self).wf(),
            0 <= delta_time <= crate::CLOCK_LIMIT,
        ensures
            *final(self) == old(self).advanced(delta_time as int),
            final(self).wf(),
    {
        proof {
            let d = self.direction as int;
            let v = self.speed * delta_time;
            assert(0 <= v <= SHIP_SPEED * crate::CLOCK_LIMIT) by (nonlinear_arith)
                requires
                    v == self.speed * delta_time,
                    self.speed == SHIP_SPEED,
                    0 <= delta_time <= crate::CLOCK_LIMIT,
            ;
            assert(d * self.speed * delta_time == d * v) by (nonlinear_arith)
                requires
                    v == self.speed * delta_time,
            ;
            assert(d * v == if d < 0 { -v } else if d == 0 { 0 } else { v }) by (nonlinear_arith)
                requires
                    -1 <= d <= 1,
            ;
        }
        let step: i64 = self.speed * delta_time;
        let new_x: i64 = if self.direction < 0 {
            self.x - step
        } else if self.direction == 0 {
            self.x
        } else {
            self.x + step
        };
        assert(new_x == self.candidate_x(delta_time as int));
        let half_width: i64 = self.width / 2;
        self.x = if new_x < half_width {
            half_width
        } else if new_x > self.scene_width - half_width {
            self.scene_width - half_width
        } else {
            new_x
        };
    }

    /// The rectangle to fill for the craft.
    pub fn draw(&self) -> (r: Rect)
        requires
            self.wf(),
        ensures
            r == self.rect(),
    {
        centered_rect(self.x, self.y, self.width, self.height)
    }
}

/// In a playfield at least as wide as the craft, a step of any length leaves the
/// craft's body inside the playfield, and a craft inside it that stands still
/// does not move.
pub proof fn lemma_craft_stays_in_bounds(s: Ship, delta_time: int)
    requires
        s.wf(),
        delta_time >= 0,
        s.scene_width >= s.width,
    ensures
        s.half_width() <= s.advanced(delta_time).x <= s.scene_width - s.half_width(),
        s.direction == 0 && s.half_width() <= s.x <= s.scene_width - s.half_width()
            ==> s.advanced(delta_time) == s,
{
    if s.direction == 0 {
        let d = s.direction as int;
        assert(d * s.speed * delta_time == 0) by (nonlinear_arith)
            requires
                d == 0,
        ;
        assert(s.candidate_x(delta_time) == s.x);
    }
}

} // verus!
