use vstd::prelude::*;

use crate::geometry::{centered, centered_rect, Rect};

verus! {

/// Side of a target's square.
pub const ENEMY_SIZE: i64 = 20_000;

/// A stationary square target.
#[derive(Debug, Clone, Copy, PartialEq, Eq, Structural)]
pub struct Enemy {
    pub x: i64,
    pub y: i64,
    pub width: i64,
    pub height: i64,
    pub is_alive: bool,
}

impl Enemy {
    /// A target of the fixed size with its position in range.
    pub open spec fn wf(self) -> bool {
        &&& self.width == ENEMY_SIZE
        &&& self.height == ENEMY_SIZE
        &&& -crate::POS_LIMIT <= self.x <= crate::POS_LIMIT
        &&& -crate::POS_LIMIT <= self.y <= crate::POS_LIMIT
    }

    /// The same target, marked as destroyed.
    pub open spec fn killed(self) -> Enemy {
        Enemy { is_alive: false, ..self }
    }

    /// The rectangle that a target fills.
    pub open spec fn rect(self) -> Rect {
        centered(self.x as int, self.y as int, self.width as int, self.height as int)
    }

    /// A live target centered at `(x, y)`.
    pub fn new(x: i64, y: i64) -> (r: Enemy)
        ensures
            r == (Enemy { x, y, width: ENEMY_SIZE, height: ENEMY_SIZE, is_alive: true }),
    {
        Enemy { x, y, width: ENEMY_SIZE, height: ENEMY_SIZE, is_alive: true }
    }

    /// The rectangle to fill for this target.
    pub fn draw(&self) -> (r: Rect)
        requires
            self.wf(),
        ensures
            r == self.rect(),
    {
        centered_rect(self.x, self.y, self.width, self.height)
    }
}

/// The live targets of `es`, in order.
pub open spec fn live(es: Seq<Enemy>) -> Seq<Enemy>
    decreases es.len(),
{
    if es.len() == 0 {
        es
    } else if es.last().is_alive {
        live(es.drop_last()).push(es.last())
    } else {
        live(es.drop_last())
    }
}

/// Centers of the targets a new scene starts with: two staggered rows.
pub open spec fn initial_positions() -> Seq<(i64, i64)> {
    seq![
        (140_000i64, 60_000i64), (180_000i64, 60_000i64), (220_000i64, 60_000i64),
        (260_000i64, 60_000i64), (160_000i64, 140_000i64), (200_000i64, 140_000i64),
        (240_000i64, 140_000i64),
    ]
}

/// The targets a new scene starts with: one live target at each initial position.
pub open spec fn initial_enemies() -> Seq<Enemy> {
    initial_positions().map_values(
        |p: (i64, i64)| Enemy { x: p.0, y: p.1, width: ENEMY_SIZE, height: ENEMY_SIZE, is_alive: true },
    )
}

/// The live targets at the initial positions, in order.
pub fn get_initial_enemies() -> (r: Vec<Enemy>)
    ensures
        r@ == initial_enemies(),
        forall|i: int| 0 <= i < r@.len() ==> (#[trigger] r@[i]).wf() && r@[i].is_alive,
{
    let positions: Vec<(i64, i64)> = vec![
        (140_000, 60_000), (180_000, 60_000), (220_000, 60_000), (260_000, 60_000),
        (160_000, 140_000), (200_000, 140_000), (240_000, 140_000),
    ];
    assert(positions@ =~= initial_positions());
    let mut result: Vec<Enemy> = Vec::new();
    let mut i: usize = 0;
    while i < positions.len()
        invariant
            i <= positions@.len(),
            positions@ == initial_positions(),
            result@ =~= initial_enemies().subrange(0, i as int),
        decreases positions@.len() - i,
    {
        let (x, y) = positions[i];
        result.push(Enemy::new(x, y));
        i += 1;
        assert(result@ =~= initial_enemies().subrange(0, i as int));
    }
    assert(result@ =~= initial_enemies());
    result
}

} // verus!
