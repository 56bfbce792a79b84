use vstd::prelude::*;
use vstd::utf8::encode_utf8_decode_utf8;

use crate::bullet::{collide, lemma_collide_keeps_targets, Bullet, CollisionKind, BULLET_HEIGHT};
use crate::enemy::{get_initial_enemies, initial_enemies, live, Enemy};
use crate::geometry::{abs, Rect};
use crate::ship::{Ship, SHIP_SIZE, SHIP_SPEED, SHIP_Y};

verus! {

/// Thousandths of a unit in one playfield unit.
pub const UNIT: i64 = 1_000;

/// Width and height of the playfield, in units.
pub const PLAYFIELD_SIZE: u16 = 400;

/// Where the craft starts, across the playfield.
pub const SHIP_START_X: i64 = 200_000;

/// Shortest time between two projectiles, in milliseconds.
pub const FIRE_COOLDOWN: i64 = 300;

/// Whether a key went down or came up.
#[derive(Debug, Clone, Copy, PartialEq, Eq, Structural)]
pub enum KeyDirection {
    Up,
    Down,
}

/// What to draw for one frame: clear `clear`, then fill each of `fills` in order.
#[derive(Debug)]
pub struct Frame {
    pub clear: Rect,
    pub fills: Vec<Rect>,
}

/// The simulation: the craft, the projectiles in flight and the live targets.
pub struct Scene {
    width: u16,
    height: u16,
    ship: Ship,
    last_bullet_fired: i64,
    bullets: Vec<Bullet>,
    enemies: Vec<Enemy>,
    last_updated: i64,
    /// Set when something moved or went away since the last frame was drawn.
    pub state_changed: bool,
}

/// The state of a scene, as the contracts speak of it.
pub struct SceneView {
    pub width: int,
    pub height: int,
    pub ship: Ship,
    pub last_bullet_fired: int,
    pub bullets: Seq<Bullet>,
    pub enemies: Seq<Enemy>,
    pub last_updated: int,
    pub state_changed: bool,
}

/// Whether a projectile may be fired at `now` when the last one left at `last`.
pub open spec fn fire_allowed(last: int, now: int) -> bool {
    abs(now - last) >= FIRE_COOLDOWN
}

/// Tests the projectiles `bs` in order against the targets, each test seeing the
/// targets as the earlier ones left them. Returns the projectiles that met
/// nothing and the targets afterwards.
pub open spec fn resolve(bs: Seq<Bullet>, es: Seq<Enemy>) -> (Seq<Bullet>, Seq<Enemy>)
    decreases bs.len(),
{
    if bs.len() == 0 {
        (bs, es)
    } else {
        let before = resolve(bs.drop_last(), es);
        let outcome = collide(bs.last(), before.1);
        (
            if outcome.0 == CollisionKind::NotYet {
                before.0.push(bs.last())
            } else {
                before.0
            },
            outcome.1,
        )
    }
}

/// A projectile as a scene holds it: travelling up, inside the playfield's
/// height, not yet past its top.
pub open spec fn bullet_in_scene(b: Bullet) -> bool {
    &&& b.wf()
    &&& b.direction == -1
    &&& -BULLET_HEIGHT <= b.y <= SHIP_Y - SHIP_SIZE / 2
    &&& -crate::POS_LIMIT <= b.x <= crate::POS_LIMIT
}

pub open spec fn initial_view() -> SceneView {
    SceneView {
        width: PLAYFIELD_SIZE as int,
        height: PLAYFIELD_SIZE as int,
        ship: Ship {
            x: SHIP_START_X,
            y: SHIP_Y,
            width: SHIP_SIZE,
            height: SHIP_SIZE,
            direction: 0i8,
            speed: SHIP_SPEED,
            scene_width: (PLAYFIELD_SIZE as i64 * UNIT) as i64,
        },
        last_bullet_fired: 0,
        bullets: Seq::empty(),
        enemies: initial_enemies(),
        last_updated: 0,
        state_changed: true,
    }
}

impl SceneView {
    pub open spec fn wf(self) -> bool {
        &&& 0 <= self.width <= u16::MAX
        &&& 0 <= self.height <= u16::MAX
        &&& self.ship.wf()
        &&& self.ship.scene_width == self.width * UNIT
        &&& 0 <= self.last_bullet_fired <= crate::CLOCK_LIMIT
        &&& 0 <= self.last_updated <= crate::CLOCK_LIMIT
        &&& forall|i: int| 0 <= i < self.bullets.len() ==> bullet_in_scene(#[trigger] self.bullets[i])
        &&& forall|i: int|
            0 <= i < self.enemies.len() ==> (#[trigger] self.enemies[i]).wf()
                && self.enemies[i].is_alive
    }

    pub open spec fn with_direction(self, direction: i8) -> SceneView {
        SceneView { ship: Ship { direction, ..self.ship }, ..self }
    }

    /// A fire attempt at `now`: refused within the cooldown of the last projectile,
    /// else a projectile leaves the craft's nose.
    pub open spec fn after_fire(self, now: int) -> SceneView {
        if fire_allowed(self.last_bullet_fired, now) {
            SceneView {
                last_bullet_fired: now,
                bullets: self.bullets.push(self.ship.nose_bullet()),
                ..self
            }
        } else {
            self
        }
    }

    /// The scene after a key event at `now`.
    pub open spec fn after_key(self, code: Seq<char>, direction: KeyDirection, now: int) -> SceneView {
        if code == "ArrowLeft"@ && direction == KeyDirection::Down {
            self.with_direction(-1i8)
        } else if code == "ArrowRight"@ && direction == KeyDirection::Down {
            self.with_direction(1i8)
        } else if (code == "ArrowLeft"@ || code == "ArrowRight"@) && direction == KeyDirection::Up {
            self.with_direction(0i8)
        } else if code == "Space"@ && direction == KeyDirection::Down {
            self.after_fire(now)
        } else {
            self
        }
    }

    /// The craft after `delta_time` milliseconds; a craft standing still is left
    /// as it is.
    pub open spec fn moved_ship(self, delta_time: int) -> Ship {
        if self.ship.direction == 0 {
            self.ship
        } else {
            self.ship.advanced(delta_time)
        }
    }

    pub open spec fn moved_bullets(self, delta_time: int) -> Seq<Bullet> {
        self.bullets.map_values(|b: Bullet| b.advanced(delta_time))
    }

    /// One step of the simulation at `now`: move the craft and the projectiles,
    /// resolve collisions, drop spent projectiles and destroyed targets.
    pub open spec fn after_update(self, now: int) -> SceneView {
        let delta_time = now - self.last_updated;
        let outcome = resolve(self.moved_bullets(delta_time), self.enemies);
        SceneView {
            ship: self.moved_ship(delta_time),
            bullets: outcome.0,
            enemies: live(outcome.1),
            last_updated: now,
            state_changed: self.state_changed || self.ship.direction != 0 || self.bullets.len() > 0,
            ..self
        }
    }

    pub open spec fn clear_rect(self) -> Rect {
        Rect { x: 0, y: 0, width: (self.width * UNIT) as i64, height: (self.height * UNIT) as i64 }
    }

    /// The rectangles of a frame: the craft, then the projectiles, then the targets.
    pub open spec fn frame_fills(self) -> Seq<Rect> {
        seq![self.ship.rect()] + self.bullets.map_values(|b: Bullet| b.rect())
            + self.enemies.map_values(|e: Enemy| e.rect())
    }

    /// The scene once its frame has been drawn.
    pub open spec fn after_render(self) -> SceneView {
        SceneView { state_changed: false, ..self }
    }

    /// Whether `r` is what drawing this scene hands back: nothing when nothing
    /// changed, else the whole frame.
    pub open spec fn frame_matches(self, r: Option<Frame>) -> bool {
        match r {
            Some(f) => self.state_changed && f.clear == self.clear_rect() && f.fills@
                == self.frame_fills(),
            None => !self.state_changed,
        }
    }
}

impl View for Scene {
    type V = SceneView;

    closed spec fn view(&self) -> SceneView {
        SceneView {
            width: self.width as int,
            height: self.height as int,
            ship: self.ship,
            last_bullet_fired: self.last_bullet_fired as int,
            bullets: self.bullets@,
            enemies: self.enemies@,
            last_updated: self.last_updated as int,
            state_changed: self.state_changed,
        }
    }
}

/// Whether two byte strings are equal.
fn same_bytes(a: &[u8], b: &[u8]) -> (r: bool)
    ensures
        r == (a@ == b@),
{
    if a.len() != b.len() {
        return false;
    }
    let mut i: usize = 0;
    while i < a.len()
        invariant
            a@.len() == b@.len(),
            0 <= i <= a@.len(),
            forall|j: int| 0 <= j < i ==> a@[j] == b@[j],
        decreases a@.len() - i,
    {
        if a[i] != b[i] {
            return false;
        }
        i += 1;
    }
    assert(a@ =~= b@);
    true
}

/// Whether the key code `code` is `name`.
fn code_is(code: &str, name: &str) -> (r: bool)
    ensures
        r == (code@ == name@),
{
    let r = same_bytes(code.as_bytes(), name.as_bytes());
    proof {
        encode_utf8_decode_utf8(code@);
        encode_utf8_decode_utf8(name@);
    }
    r
}

impl Scene {
    /// A new scene: the craft standing still in the middle of the bottom, the
    /// targets at their initial positions, nothing fired yet.
    pub fn new() -> (r: Scene)
        ensures
            r@ == initial_view(),
            r@.wf(),
    {
        let width: u16 = PLAYFIELD_SIZE;
        let height: u16 = PLAYFIELD_SIZE;
        Scene {
            width,
            height,
            ship: Ship::new(SHIP_START_X, width as i64 * UNIT),
            last_bullet_fired: 0,
            bullets: Vec::new(),
            enemies: get_initial_enemies(),
            last_updated: 0,
            state_changed: true,
        }
    }

    /// Applies a key event that happened at `now`: the arrows set or reset the
    /// craft's direction, the space bar fires.
    pub fn process_key_code(&mut self, code: &str, direction: KeyDirection, now: i64)
        requires
            old(self)@.wf(),
            0 <= now <= crate::CLOCK_LIMIT,
        ensures
            final(self)@ == old(self)@.after_key(code@, direction, now as int),
            final(self)@.wf(),
    {
        let left = code_is(code, "ArrowLeft");
        let right = code_is(code, "ArrowRight");
        let space = code_is(code, "Space");
        match direction {
            KeyDirection::Down => {
                if left {
                    self.ship.direction = -1;
                } else if right {
                    self.ship.direction = 1;
                } else if space {
                    self.fire_bullet(now);
                }
            },
            KeyDirection::Up => {
                if left || right {
                    self.ship.direction = 0;
                }
            },
        }
    }

    /// Fires from the craft unless the last projectile left less than the
    /// cooldown before `now`.
    fn fire_bullet(&mut self, now: i64)
        requires
            old(self)@.wf(),
            0 <= now <= crate::CLOCK_LIMIT,
        ensures
            final(self)@ == old(self)@.after_fire(now as int),
            final(self)@.wf(),
    {
        let diff: i64 = now - self.last_bullet_fired;
        let dist: i64 = if diff < 0 { -diff } else { diff };
        if dist < FIRE_COOLDOWN {
            return;
        }
        self.last_bullet_fired = now;
        let b = self.ship.fire_bullet();
        self.bullets.push(b);
    }

    /// Advances the simulation to `now`: moves the craft and the projectiles by
    /// the time since the last update, drops each projectile that left the
    /// playfield or hit a target, then drops the destroyed targets.
    pub fn update_state(&mut self, now: i64)
        requires
            old(self)@.wf(),
            old(self)@.last_updated <= now <= crate::CLOCK_LIMIT,
        ensures
            final(self)@ == old(self)@.after_update(now as int),
            final(self)@.wf(),
    {
        proof {
            let v0 = self@;
            assert forall|j: int| 0 <= j < self.bullets@.len() implies bullet_in_scene(#[trigger] self.bullets@[j]) by {
                assert(bullet_in_scene(v0.bullets[j]));
            }
            assert forall|j: int| 0 <= j < self.enemies@.len() implies (#[trigger] self.enemies@[j]).wf() by {
                assert(v0.enemies[j].wf());
            }
        }
        let ghost v0 = self@;
        let delta_time: i64 = now - self.last_updated;
        self.last_updated = now;
        self.move_ship(delta_time);
        self.move_bullets(delta_time);
        let ghost moved = self.bullets@;
        let ghost es0 = self.enemies@;
        assert(moved == v0.moved_bullets(delta_time as int));
        assert(es0 == v0.enemies);
        assert(self.ship == v0.moved_ship(delta_time as int));
        let ghost changed = self.state_changed;
        let mut kept: Vec<Bullet> = Vec::new();
        let mut i: usize = 0;
        while i < self.bullets.len()
            invariant
                self.bullets@ == moved,
                0 <= i <= moved.len(),
                forall|j: int| 0 <= j < moved.len() ==> (#[trigger] moved[j]).wf()
                    && moved[j].direction == -1
                    && moved[j].y <= SHIP_Y - SHIP_SIZE / 2
                    && -crate::POS_LIMIT <= moved[j].x <= crate::POS_LIMIT,
                (kept@, self.enemies@) == resolve(moved.subrange(0, i as int), es0),
                forall|j: int| 0 <= j < kept@.len() ==> bullet_in_scene(#[trigger] kept@[j]),
                forall|j: int| 0 <= j < self.enemies@.len() ==> (#[trigger] self.enemies@[j]).wf(),
                self.ship == v0.moved_ship(delta_time as int),
                self.ship.wf(),
                self.width == v0.width,
                self.height == v0.height,
                self.last_bullet_fired == v0.last_bullet_fired,
                self.last_updated == now,
                self.state_changed == changed,
                v0.wf(),
            decreases moved.len() - i,
        {
            let b = self.bullets[i];
            let ghost before = self.enemies@;
            let kind = b.check_collision(&mut self.enemies);
            if kind == CollisionKind::NotYet {
                kept.push(b);
            }
            proof {
                let prefix = moved.subrange(0, i + 1);
                assert(prefix.drop_last() =~= moved.subrange(0, i as int));
                assert(prefix.last() == b);
                if kind == CollisionKind::NotYet {
                    assert(b.y + b.height >= 0);
                }
                lemma_collide_keeps_targets(b, before);
                assert forall|j: int| 0 <= j < self.enemies@.len() implies (#[trigger] self.enemies@[j]).wf() by {
                    assert(before[j].wf());
                    assert(collide(b, before).1[j] == before[j] || collide(b, before).1[j] == before[j].killed());
                }
            }
            i += 1;
        }
        proof {
            assert(moved.subrange(0, moved.len() as int) =~= moved);
        }
        self.bullets = kept;
        let ghost swept = self.enemies@;
        let mut alive: Vec<Enemy> = Vec::new();
        let mut j: usize = 0;
        while j < self.enemies.len()
            invariant
                self.enemies@ == swept,
                0 <= j <= swept.len(),
                forall|k: int| 0 <= k < swept.len() ==> (#[trigger] swept[k]).wf(),
                alive@ == live(swept.subrange(0, j as int)),
                forall|k: int| 0 <= k < alive@.len() ==> (#[trigger] alive@[k]).wf() && alive@[k].is_alive,
            decreases swept.len() - j,
        {
            let e = self.enemies[j];
            if e.is_alive {
                alive.push(e);
            }
            proof {
                let prefix = swept.subrange(0, j + 1);
                assert(prefix.drop_last() =~= swept.subrange(0, j as int));
                assert(prefix.last() == e);
            }
            j += 1;
        }
        proof {
            assert(swept.subrange(0, swept.len() as int) =~= swept);
        }
        self.enemies = alive;
    }

    /// Moves the craft unless it stands still, and then marks the scene changed.
    fn move_ship(&mut self, delta_time: i64)
        requires
            old(self).ship.wf(),
            0 <= delta_time <= crate::CLOCK_LIMIT,
        ensures
            final(self).ship == old(self)@.moved_ship(delta_time as int),
            final(self).ship.wf(),
            final(self).state_changed == (old(self).state_changed || old(self).ship.direction != 0),
            final(self).width == old(self).width,
            final(self).height == old(self).height,
            final(self).last_bullet_fired == old(self).last_bullet_fired,
            final(self).bullets == old(self).bullets,
            final(self).enemies == old(self).enemies,
            final(self).last_updated == old(self).last_updated,
    {
        if self.ship.direction == 0 {
            return;
        }
        self.ship.change_position(delta_time);
        self.state_changed = true;
    }

    /// Moves every projectile; if there is any, marks the scene changed.
    fn move_bullets(&mut self, delta_time: i64)
        requires
            forall|j: int| 0 <= j < old(self).bullets@.len() ==> bullet_in_scene(#[trigger] old(self).bullets@[j]),
            0 <= delta_time <= crate::CLOCK_LIMIT,
        ensures
            final(self).bullets@ == old(self)@.moved_bullets(delta_time as int),
            forall|j: int| 0 <= j < final(self).bullets@.len() ==> (#[trigger] final(self).bullets@[j]).wf()
                && final(self).bullets@[j].direction == -1
                && final(self).bullets@[j].y <= SHIP_Y - SHIP_SIZE / 2
                && -crate::POS_LIMIT <= final(self).bullets@[j].x <= crate::POS_LIMIT,
            final(self).state_changed == (old(self).state_changed || old(self).bullets@.len() > 0),
            final(self).width == old(self).width,
            final(self).height == old(self).height,
            final(self).ship == old(self).ship,
            final(self).last_bullet_fired == old(self).last_bullet_fired,
            final(self).enemies == old(self).enemies,
            final(self).last_updated == old(self).last_updated,
    {
        if self.bullets.len() == 0 {
            assert(self.bullets@ =~= old(self)@.moved_bullets(delta_time as int));
            return;
        }
        let ghost start = self.bullets@;
        let mut i: usize = 0;
        while i < self.bullets.len()
            invariant
                self.bullets@.len() == start.len(),
                0 <= i <= start.len(),
                0 <= delta_time <= crate::CLOCK_LIMIT,
                forall|j: int| 0 <= j < start.len() ==> bullet_in_scene(#[trigger] start[j]),
                forall|j: int| 0 <= j < i ==> #[trigger] self.bullets@[j] == start[j].advanced(delta_time as int),
                forall|j: int| i <= j < start.len() ==> #[trigger] self.bullets@[j] == start[j],
                forall|j: int| 0 <= j < i ==> (#[trigger] self.bullets@[j]).wf()
                    && self.bullets@[j].direction == -1
                    && self.bullets@[j].y <= SHIP_Y - SHIP_SIZE / 2
                    && -crate::POS_LIMIT <= self.bullets@[j].x <= crate::POS_LIMIT,
                self.width == old(self).width,
                self.height == old(self).height,
                self.ship == old(self).ship,
                self.last_bullet_fired == old(self).last_bullet_fired,
                self.enemies == old(self).enemies,
                self.last_updated == old(self).last_updated,
                self.state_changed == old(self).state_changed,
                start == old(self).bullets@,
            decreases start.len() - i,
        {
            let mut b = self.bullets[i];
            proof {
                assert(bullet_in_scene(start[i as int]));
                let v = b.speed * delta_time;
                assert(0 <= v <= 300 * crate::CLOCK_LIMIT) by (nonlinear_arith)
                    requires
                        v == b.speed * delta_time,
                        b.speed == 300,
                        0 <= delta_time <= crate::CLOCK_LIMIT,
                ;
                assert(b.direction * b.speed * delta_time == -v) by (nonlinear_arith)
                    requires
                        v == b.speed * delta_time,
                        b.direction == -1,
                ;
            }
            b.change_position(delta_time);
            self.bullets.set(i, b);
            i += 1;
        }
        assert(self.bullets@ =~= old(self)@.moved_bullets(delta_time as int));
        self.state_changed = true;
    }

    /// The frame to draw if anything changed since the last one, else `None`;
    /// either way the scene is then marked unchanged.
    pub fn draw(&mut self) -> (r: Option<Frame>)
        requires
            old(self)@.wf(),
        ensures
            old(self)@.frame_matches(r),
            final(self)@ == old(self)@.after_render(),
    {
        if !self.state_changed {
            return None;
        }
        let ghost v = self@;
        let mut fills: Vec<Rect> = Vec::new();
        fills.push(self.ship.draw());
        let mut i: usize = 0;
        while i < self.bullets.len()
            invariant
                self@ == v,
                v.wf(),
                0 <= i <= v.bullets.len(),
                fills@ =~= seq![v.ship.rect()] + v.bullets.subrange(0, i as int).map_values(
                    |b: Bullet| b.rect(),
                ),
            decreases v.bullets.len() - i,
        {
            assert(bullet_in_scene(v.bullets[i as int]));
            fills.push(self.bullets[i].draw());
            i += 1;
            assert(v.bullets.subrange(0, i as int).map_values(|b: Bullet| b.rect())
                =~= v.bullets.subrange(0, i - 1).map_values(|b: Bullet| b.rect()).push(v.bullets[i - 1].rect()));
        }
        assert(v.bullets.subrange(0, v.bullets.len() as int) =~= v.bullets);
        let ghost head = fills@;
        let mut j: usize = 0;
        while j < self.enemies.len()
            invariant
                self@ == v,
                v.wf(),
                0 <= j <= v.enemies.len(),
                fills@ =~= head + v.enemies.subrange(0, j as int).map_values(|e: Enemy| e.rect()),
            decreases v.enemies.len() - j,
        {
            assert(v.enemies[j as int].wf());
            fills.push(self.enemies[j].draw());
            j += 1;
            assert(v.enemies.subrange(0, j as int).map_values(|e: Enemy| e.rect())
                =~= v.enemies.subrange(0, j - 1).map_values(|e: Enemy| e.rect()).push(v.enemies[j - 1].rect()));
        }
        assert(v.enemies.subrange(0, v.enemies.len() as int) =~= v.enemies);
        self.state_changed = false;
        let clear = Rect {
            x: 0,
            y: 0,
            width: self.width as i64 * UNIT,
            height: self.height as i64 * UNIT,
        };
        Some(Frame { clear, fills })
    }

    /// The craft.
    pub fn ship(&self) -> (r: &Ship)
        ensures
            *r == self@.ship,
    {
        &self.ship
    }

    /// The projectiles in flight, in the order they were fired.
    pub fn bullets(&self) -> (r: &Vec<Bullet>)
        ensures
            r@ == self@.bullets,
    {
        &self.bullets
    }

    /// The live targets.
    pub fn enemies(&self) -> (r: &Vec<Enemy>)
        ensures
            r@ == self@.enemies,
    {
        &self.enemies
    }

    /// The time of the last update, in milliseconds.
    pub fn last_updated(&self) -> (r: i64)
        ensures
            r == self@.last_updated,
    {
        self.last_updated
    }

    /// Width of the playfield, in units.
    pub fn width(&self) -> (r: u16)
        ensures
            r == self@.width,
    {
        self.width
    }

    /// Height of the playfield, in units.
    pub fn height(&self) -> (r: u16)
        ensures
            r == self@.height,
    {
        self.height
    }
}

/// From a scene ready to fire, two presses of the space bar less than the
/// cooldown apart add exactly one projectile, and two presses at least the
/// cooldown apart add two.
pub proof fn lemma_fire_cooldown(s: SceneView, t1: int, t2: int)
    requires
        fire_allowed(s.last_bullet_fired, t1),
    ensures
        abs(t2 - t1) < FIRE_COOLDOWN ==> s.after_key("Space"@, KeyDirection::Down, t1).after_key(
            "Space"@,
            KeyDirection::Down,
            t2,
        ).bullets.len() == s.bullets.len() + 1,
        abs(t2 - t1) >= FIRE_COOLDOWN ==> s.after_key("Space"@, KeyDirection::Down, t1).after_key(
            "Space"@,
            KeyDirection::Down,
            t2,
        ).bullets.len() == s.bullets.len() + 2,
{
    reveal_strlit("Space");
    reveal_strlit("ArrowLeft");
    reveal_strlit("ArrowRight");
    assert("Space"@.len() != "ArrowLeft"@.len());
    assert("Space"@.len() != "ArrowRight"@.len());
}

/// Drawing twice with no update in between draws one frame: the second call hands
/// back nothing and leaves the scene as the first left it.
pub proof fn lemma_render_once(s: SceneView, first: Option<Frame>, second: Option<Frame>)
    requires
        s.frame_matches(first),
        s.after_render().frame_matches(second),
    ensures
        second is None,
        s.after_render().after_render() == s.after_render(),
{
}

} // verus!
