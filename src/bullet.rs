use vstd::prelude::*;

use crate::enemy::{live, Enemy};
use crate::geometry::{abs, centered, centered_rect, Rect};

verus! {

pub const BULLET_WIDTH: i64 = 4_000;

pub const BULLET_HEIGHT: i64 = 12_000;

/// Speed of a projectile, per millisecond.
pub const BULLET_SPEED: i64 = 300;

/// What a projectile met on its last step.
#[derive(Debug, Clone, Copy, PartialEq, Eq, Structural)]
pub enum CollisionKind {
    NotYet,
    EndOfMap,
    Hit,
}

/// A projectile: a small rectangle travelling vertically.
#[derive(Debug, Clone, Copy, PartialEq, Eq, Structural)]
pub struct Bullet {
    pub x: i64,
    pub y: i64,
    pub width: i64,
    pub height: i64,
    /// `-1` travels up, `1` travels down.
    pub direction: i8,
    pub speed: i64,
}

/// Whether a projectile overlaps a live target: on each axis the distance between
/// the centers is below the sum of the half extents.
pub open spec fn hits(b: Bullet, e: Enemy) -> bool {
    &&& e.is_alive
    &&& 2 * abs(b.x - e.x) < b.width + e.width
    &&& 2 * abs(b.y - e.y) < b.height + e.height
}

/// Index of the first target at or after `i` that `b` hits, or `es.len()` if none.
pub open spec fn first_hit_from(b: Bullet, es: Seq<Enemy>, i: int) -> int
    decreases es.len() - i,
{
    if i < 0 || i >= es.len() {
        es.len() as int
    } else if hits(b, es[i]) {
        i
    } else {
        first_hit_from(b, es, i + 1)
    }
}

/// The outcome of testing `b` against the targets `es`, with the targets after
/// the test: a projectile above the playfield leaves it; otherwise the first live
/// target it overlaps is destroyed.
pub open spec fn collide(b: Bullet, es: Seq<Enemy>) -> (CollisionKind, Seq<Enemy>) {
    if b.y + b.height < 0 {
        (CollisionKind::EndOfMap, es)
    } else {
        let k = first_hit_from(b, es, 0);
        if k < es.len() {
            (CollisionKind::Hit, es.update(k, es[k].killed()))
        } else {
            (CollisionKind::NotYet, es)
        }
    }
}

impl Bullet {
    pub open spec fn wf(self) -> bool {
        &&& self.width == BULLET_WIDTH
        &&& self.height == BULLET_HEIGHT
        &&& self.speed == BULLET_SPEED
        &&& (self.direction == -1 || self.direction == 1)
        &&& -crate::COORD_LIMIT <= self.x <= crate::COORD_LIMIT
        &&& -crate::COORD_LIMIT <= self.y <= crate::COORD_LIMIT
    }

    /// Where the projectile's center lies after `delta_time` milliseconds.
    pub open spec fn next_y(self, delta_time: int) -> int {
        self.y + self.direction * self.speed * delta_time
    }

    /// The projectile after `delta_time` milliseconds of travel.
    pub open spec fn advanced(self, delta_time: int) -> Bullet {
        Bullet { y: self.next_y(delta_time) as i64, ..self }
    }

    pub open spec fn rect(self) -> Rect {
        centered(self.x as int, self.y as int, self.width as int, self.height as int)
    }

    /// A projectile centered at `(x, y)`, travelling up.
    pub fn new(x: i64, y: i64) -> (r: Bullet)
        ensures
            r == (Bullet {
                x,
                y,
                width: BULLET_WIDTH,
                height: BULLET_HEIGHT,
                direction: -1i8,
                speed: BULLET_SPEED,
            }),
    {
        Bullet { x, y, width: BULLET_WIDTH, height: BULLET_HEIGHT, direction: -1, speed: BULLET_SPEED }
    }

    /// Moves the projectile along its direction for `delta_time` milliseconds.
    pub fn change_position(&mut self, delta_time: i64)
        requires
            old(self).wf(),
            0 <= delta_time <= crate::CLOCK_LIMIT,
            -crate::COORD_LIMIT <= old(self).next_y(delta_time as int) <= crate::COORD_LIMIT,
        ensures
            *final(self) == old(self).advanced(delta_time as int),
            final(self).wf(),
    {
        let step: i64 = self.speed * delta_time;
        proof {
            assert(0 <= self.speed * delta_time <= BULLET_SPEED * crate::CLOCK_LIMIT) by (nonlinear_arith)
                requires
                    self.speed == BULLET_SPEED,
                    0 <= delta_time <= crate::CLOCK_LIMIT,
            ;
            let d = self.direction as int;
            let v = self.speed * delta_time;
            assert(d * self.speed * delta_time == d * v) by (nonlinear_arith)
                requires
                    v == self.speed * delta_time,
            ;
            assert(d * v == if d < 0 { -v } else { v }) by (nonlinear_arith)
                requires
                    d == -1 || d == 1,
            ;
        }
        let new_y: i64 = if self.direction < 0 { self.y - step } else { self.y + step };
        assert(new_y == self.next_y(delta_time as int));
        self.y = new_y;
    }

    /// Tests the projectile against the targets in order. Above the playfield it
    /// is `EndOfMap`; else the first live target it overlaps is marked destroyed
    /// and the result is `Hit`; else `NotYet` and the targets are untouched.
    pub fn check_collision(&self, enemies: &mut Vec<Enemy>) -> (r: CollisionKind)
        requires
            self.wf(),
            forall|i: int| 0 <= i < old(enemies)@.len() ==> (#[trigger] old(enemies)@[i]).wf(),
        ensures
            (r, final(enemies)@) == collide(*self, old(enemies)@),
    {
        if self.y + self.height < 0 {
            return CollisionKind::EndOfMap;
        }
        let ghost es = enemies@;
        let mut i: usize = 0;
        while i < enemies.len()
            invariant
                enemies@ == es,
                self.wf(),
                0 <= i <= es.len(),
                forall|j: int| 0 <= j < es.len() ==> (#[trigger] es[j]).wf(),
                es == old(enemies)@,
                self.y + self.height >= 0,
                first_hit_from(*self, es, 0) == first_hit_from(*self, es, i as int),
            decreases es.len() - i,
        {
            let e = enemies[i];
            let dx: i64 = if self.x < e.x { e.x - self.x } else { self.x - e.x };
            let dy: i64 = if self.y < e.y { e.y - self.y } else { self.y - e.y };
            if e.is_alive && 2 * dx < self.width + e.width && 2 * dy < self.height + e.height {
                assert(hits(*self, es[i as int]));
                assert(first_hit_from(*self, es, i as int) == i as int);
                enemies.set(i, Enemy { is_alive: false, ..e });
                assert(enemies@ =~= es.update(i as int, es[i as int].killed()));
                return CollisionKind::Hit;
            }
            i += 1;
        }
        CollisionKind::NotYet
    }

    /// The rectangle to fill for this projectile.
    pub fn draw(&self) -> (r: Rect)
        requires
            self.wf(),
        ensures
            r == self.rect(),
    {
        centered_rect(self.x, self.y, self.width, self.height)
    }
}

/// The first hit from `i` lies between `i` and the end.
proof fn lemma_first_hit_range(b: Bullet, es: Seq<Enemy>, i: int)
    requires
        0 <= i <= es.len(),
    ensures
        i <= first_hit_from(b, es, i) <= es.len(),
    decreases es.len() - i,
{
    if i < es.len() && !hits(b, es[i]) {
        lemma_first_hit_range(b, es, i + 1);
    }
}

/// Testing a projectile changes at most the liveness of the targets.
pub proof fn lemma_collide_keeps_targets(b: Bullet, es: Seq<Enemy>)
    ensures
        collide(b, es).1.len() == es.len(),
        forall|j: int|
            0 <= j < es.len() ==> #[trigger] collide(b, es).1[j] == es[j] || collide(b, es).1[j]
                == es[j].killed(),
{
    lemma_first_hit_range(b, es, 0);
}

/// Hitting the target at `k` bounds the index of the first target hit.
proof fn lemma_first_hit_at_most(b: Bullet, es: Seq<Enemy>, i: int, k: int)
    requires
        0 <= i <= k < es.len(),
        hits(b, es[k]),
    ensures
        first_hit_from(b, es, i) <= k,
    decreases k - i,
{
    if i < k && !hits(b, es[i]) {
        lemma_first_hit_at_most(b, es, i + 1, k);
    }
}

/// A projectile that has left the top of the playfield leaves it, whatever the
/// targets are, even one it overlaps.
pub proof fn lemma_end_of_map_first(b: Bullet, es: Seq<Enemy>)
    requires
        b.y + b.height < 0,
    ensures
        collide(b, es) == (CollisionKind::EndOfMap, es),
{
}

/// A projectile centered on a live target hits: the target is destroyed unless an
/// earlier live target took the hit, and a destroyed target, swept or not, is
/// never hit again.
pub proof fn lemma_centered_hit(b: Bullet, es: Seq<Enemy>, k: int)
    requires
        b.wf(),
        0 <= k < es.len(),
        es[k].wf(),
        es[k].is_alive,
        b.x == es[k].x,
        b.y == es[k].y,
        b.y + b.height >= 0,
    ensures
        collide(b, es).0 == CollisionKind::Hit,
        (forall|j: int| 0 <= j < k ==> !hits(b, #[trigger] es[j])) ==> collide(b, es).1[k]
            == es[k].killed(),
        collide(b, seq![es[k]]) == (CollisionKind::Hit, seq![es[k].killed()]),
        collide(b, seq![es[k].killed()]) == (CollisionKind::NotYet, seq![es[k].killed()]),
        collide(b, live(seq![es[k].killed()])) == (CollisionKind::NotYet, Seq::<Enemy>::empty()),
{
    assert(hits(b, es[k]));
    lemma_first_hit_at_most(b, es, 0, k);
    if forall|j: int| 0 <= j < k ==> !hits(b, #[trigger] es[j]) {
        assert forall|i: int| 0 <= i <= k implies first_hit_from(b, es, i) == k by {
            lemma_first_hit_is(b, es, i, k);
        }
    }
    let one = seq![es[k]];
    assert(first_hit_from(b, one, 0) == 0);
    let dead = seq![es[k].killed()];
    assert(first_hit_from(b, dead, 1) == 1);
    assert(first_hit_from(b, dead, 0) == 1);
    assert(dead.drop_last() =~= Seq::<Enemy>::empty());
    assert(!dead.last().is_alive);
    assert(live(dead.drop_last()) =~= Seq::<Enemy>::empty());
    assert(live(dead) =~= Seq::<Enemy>::empty());
    assert(first_hit_from(b, live(dead), 0) == 0);
}

/// With no hit before `k` and a hit at `k`, the first hit from `i` is `k`.
proof fn lemma_first_hit_is(b: Bullet, es: Seq<Enemy>, i: int, k: int)
    requires
        0 <= i <= k < es.len(),
        hits(b, es[k]),
        forall|j: int| 0 <= j < k ==> !hits(b, #[trigger] es[j]),
    ensures
        first_hit_from(b, es, i) == k,
    decreases k - i,
{
    if i < k {
        lemma_first_hit_is(b, es, i + 1, k);
    }
}

} // verus!
