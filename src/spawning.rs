use rand::Rng;
use vstd::prelude::*;

verus! {

/// Asteroids kept on screen at a score of zero.
pub const ASTEROID_COUNT: usize = 10;

/// For every this many points one more asteroid is kept on screen.
pub const ASTEROID_DIFFICULTY_SCALING: usize = 2;

/// Stars kept on screen at all times.
pub const STAR_COUNT: usize = 3;

/// How many asteroids should be alive at the given score.
pub open spec fn asteroid_target_spec(score: nat) -> nat {
    ASTEROID_COUNT as nat + score / (ASTEROID_DIFFICULTY_SCALING as nat)
}

/// How many objects must be added to bring `current` up to `target`.
pub open spec fn shortfall(current: nat, target: nat) -> nat {
    if current < target {
        (target - current) as nat
    } else {
        0
    }
}

/// Number of asteroids that should be alive at the given score.
pub fn asteroid_target(score: u32) -> (r: usize)
    ensures
        r as nat == asteroid_target_spec(score as nat),
{
    ASTEROID_COUNT + (score as usize) / ASTEROID_DIFFICULTY_SCALING
}

/// Number of asteroids to spawn this tick, given how many are alive.
pub fn asteroids_to_spawn(current: usize, score: u32) -> (r: usize)
    ensures
        r as nat == shortfall(current as nat, asteroid_target_spec(score as nat)),
{
    let target = asteroid_target(score);
    if current < target {
        target - current
    } else {
        0
    }
}

/// Number of stars to spawn this tick, given how many are alive.
pub fn stars_to_spawn(current: usize) -> (r: usize)
    ensures
        r as nat == shortfall(current as nat, STAR_COUNT as nat),
{
    if current < STAR_COUNT {
        STAR_COUNT - current
    } else {
        0
    }
}

/// The screen edge past which a new asteroid enters.
#[derive(Clone, Copy, Debug, PartialEq, Eq, Structural)]
pub enum Side {
    Top,
    Right,
    Bottom,
    Left,
}

/// The edge that a drawn index selects: 0 to 2 pick top, right and bottom;
/// every other index picks the left edge.
pub open spec fn side_of(k: nat) -> Side {
    if k == 0 {
        Side::Top
    } else if k == 1 {
        Side::Right
    } else if k == 2 {
        Side::Bottom
    } else {
        Side::Left
    }
}

/// The edge that a drawn index selects.
pub fn side_from_index(k: u32) -> (r: Side)
    ensures
        r == side_of(k as nat),
{
    match k {
        0 => Side::Top,
        1 => Side::Right,
        2 => Side::Bottom,
        _ => Side::Left,
    }
}

/// Relies on rand::rng and Rng::random_range: for a half-open integer range
/// the value drawn lies in it; the call panics only on an empty range.
#[verifier::external_body]
fn random_below(n: u32) -> (r: u32)
    requires
        n > 0,
    ensures
        r < n,
{
    rand::rng().random_range(0..n)
}

/// Draws, with the thread-local generator, the edge through which the next
/// asteroid enters.
pub fn random_spawn_side() -> (r: Side)
    ensures
        exists|k: nat| k < 4 && r == side_of(k),
{
    let k = random_below(4);
    side_from_index(k)
}

} // verus!
