//! Per-player state and the deterministic physics of one simulation tick.
//!
//! All arithmetic is integer fixed point, so a tick is an exact function of
//! the previous state and the time delta: positions are in millionths of a
//! world unit, velocities in thousandths of a world unit per second, and
//! time deltas in milliseconds. With these scales no division is needed:
//! a velocity times a delta in milliseconds is already a position change in
//! millionths of a unit.

use vstd::prelude::*;

use crate::command::HorizontalIntent;

verus! {

/// Downward acceleration, in world units per second squared (equivalently,
/// thousandths of a unit per second gained per millisecond).
pub const GRAVITY: i64 = -600;

/// Vertical speed set by a jump, in thousandths of a unit per second.
pub const JUMP_STRENGTH: i64 = 300_000;

/// Height of the floor, in millionths of a unit.
pub const FLOOR: i64 = -100_000_000;

/// Horizontal displacement per tick while an input is held, in millionths
/// of a unit.
pub const STEP: i64 = 5_000_000;

/// Left edge of the playfield, in millionths of a unit.
pub const MIN_X: i64 = -500_000_000;

/// Right edge of the playfield, in millionths of a unit.
pub const MAX_X: i64 = 500_000_000;

/// The authoritative state of one player, owned by the simulation tick.
#[derive(Clone, Debug, PartialEq, Eq)]
pub struct PlayerState {
    /// Identifier of the player, stable for the session.
    pub id: String,
    /// Horizontal position, in millionths of a unit.
    pub pos_x: i64,
    /// Vertical position, in millionths of a unit.
    pub pos_y: i64,
    /// Horizontal velocity, in thousandths of a unit per second. The
    /// minimal model moves horizontally by a fixed step, so this stays 0.
    pub vel_x: i64,
    /// Vertical velocity, in thousandths of a unit per second.
    pub vel_y: i64,
    /// Whether the player rests on the floor.
    pub on_ground: bool,
    /// Whether a jump impulse is active and the player has not landed yet.
    pub is_jumping: bool,
    /// The horizontal input the player currently holds.
    pub intent: HorizontalIntent,
}

impl PlayerState {
    /// Bounds every reachable player state satisfies: the position is
    /// inside the playfield and above the floor, and no command or step
    /// ever raises the vertical speed past the jump impulse.
    pub open spec fn wf(self) -> bool {
        &&& MIN_X <= self.pos_x <= MAX_X
        &&& self.pos_y >= FLOOR
        &&& self.vel_y <= JUMP_STRENGTH
    }

    /// The vertical-axis invariant that holds between ticks: a grounded
    /// player has no vertical speed.
    pub open spec fn grounded_ok(self) -> bool {
        self.on_ground ==> self.vel_y == 0
    }

    /// The state a player joins in: the origin, at rest, airborne until the
    /// first tick settles it.
    pub open spec fn initial(id: String) -> PlayerState {
        PlayerState {
            id,
            pos_x: 0,
            pos_y: 0,
            vel_x: 0,
            vel_y: 0,
            on_ground: false,
            is_jumping: false,
            intent: HorizontalIntent::Still,
        }
    }

    /// Executable constructor for [`PlayerState::initial`].
    pub fn new_joined(id: String) -> (p: PlayerState)
        ensures
            p == PlayerState::initial(id),
    {
        PlayerState {
            id,
            pos_x: 0,
            pos_y: 0,
            vel_x: 0,
            vel_y: 0,
            on_ground: false,
            is_jumping: false,
            intent: HorizontalIntent::Still,
        }
    }
}

/// The same player with its horizontal input replaced.
pub open spec fn with_intent(p: PlayerState, h: HorizontalIntent) -> PlayerState {
    PlayerState { intent: h, ..p }
}

/// The same player with the jump impulse applied: the vertical speed is set
/// to [`JUMP_STRENGTH`] and the jump debounce is armed.
pub open spec fn with_jump(p: PlayerState) -> PlayerState {
    PlayerState { vel_y: JUMP_STRENGTH, is_jumping: true, ..p }
}

/// Vertical velocity after gravity acted for `dt` milliseconds.
pub open spec fn vel_after(p: PlayerState, dt: u32) -> int {
    p.vel_y + GRAVITY * dt
}

/// Vertical position after the new velocity acted for `dt` milliseconds,
/// before the floor clamp.
pub open spec fn pos_after_raw(p: PlayerState, dt: u32) -> int {
    p.pos_y + vel_after(p, dt) * dt
}

/// The machine limits under which one physics step stays inside `i64`.
pub open spec fn step_fits(p: PlayerState, dt: u32) -> bool {
    &&& i64::MIN <= vel_after(p, dt)
    &&& i64::MIN <= vel_after(p, dt) * dt <= i64::MAX
    &&& i64::MIN <= pos_after_raw(p, dt) <= i64::MAX
}

/// Sign of the held horizontal input.
pub open spec fn intent_sign(h: HorizontalIntent) -> int {
    match h {
        HorizontalIntent::Left => -1,
        HorizontalIntent::Right => 1,
        HorizontalIntent::Still => 0,
    }
}

/// Clamps a horizontal position to the playfield.
pub open spec fn clamp_x(x: int) -> int {
    if x < MIN_X {
        MIN_X as int
    } else if x > MAX_X {
        MAX_X as int
    } else {
        x
    }
}

/// What one tick of physics does to one player: gravity, vertical motion,
/// the floor clamp, then the horizontal step clamped to the playfield.
/// A pure function of the previous state and the delta alone, so the
/// trajectory under a fixed delta sequence is reproducible.
pub open spec fn step_model(p: PlayerState, dt: u32) -> PlayerState {
    let landed = pos_after_raw(p, dt) <= FLOOR;
    PlayerState {
        pos_x: clamp_x(p.pos_x + STEP * intent_sign(p.intent)) as i64,
        pos_y: if landed {
            FLOOR
        } else {
            pos_after_raw(p, dt) as i64
        },
        vel_y: if landed {
            0
        } else {
            vel_after(p, dt) as i64
        },
        on_ground: landed,
        is_jumping: if landed {
            false
        } else {
            p.is_jumping
        },
        ..p
    }
}

/// Advances one player by `dt` milliseconds of physics.
pub fn step_player(p: &mut PlayerState, dt: u32)
    requires
        old(p).wf(),
        step_fits(*old(p), dt),
    ensures
        *final(p) == step_model(*old(p), dt),
        final(p).wf(),
        final(p).grounded_ok(),
{
    let dv: i64 = GRAVITY * (dt as i64);
    let vy: i64 = p.vel_y + dv;
    let dy: i64 = vy * (dt as i64);
    let py: i64 = p.pos_y + dy;
    if py <= FLOOR {
        p.pos_y = FLOOR;
        p.vel_y = 0;
        p.on_ground = true;
        p.is_jumping = false;
    } else {
        p.pos_y = py;
        p.vel_y = vy;
        p.on_ground = false;
    }
    let moved: i64 = match p.intent {
        HorizontalIntent::Left => p.pos_x - STEP,
        HorizontalIntent::Right => p.pos_x + STEP,
        HorizontalIntent::Still => p.pos_x,
    };
    p.pos_x = if moved < MIN_X {
        MIN_X
    } else if moved > MAX_X {
        MAX_X
    } else {
        moved
    };
}

/// Decides [`step_fits`] for one player, computing in 128-bit arithmetic
/// so the test itself cannot overflow. This is how a caller establishes,
/// before integrating, that the physics of this delta stays inside `i64`.
pub fn check_step_fits(p: &PlayerState, dt: u32) -> (b: bool)
    ensures
        b == step_fits(*p, dt),
{
    let dtl: i128 = dt as i128;
    proof {
        assert((-0x100000000000i128) <= (GRAVITY as i128) * dtl <= 0i128) by (nonlinear_arith)
            requires
                (GRAVITY as i128) == -600i128,
                0i128 <= dtl <= 0x100000000i128,
        ;
    }
    let vy: i128 = (p.vel_y as i128) + (GRAVITY as i128) * dtl;
    proof {
        assert((-0x2000000000000000000000000i128) <= vy * dtl
            <= 0x2000000000000000000000000i128) by (nonlinear_arith)
            requires
                (-0x20000000000000000i128) <= vy <= 0x20000000000000000i128,
                0i128 <= dtl <= 0x100000000i128,
        ;
    }
    let dy: i128 = vy * dtl;
    let py: i128 = (p.pos_y as i128) + dy;
    let lo: i128 = i64::MIN as i128;
    let hi: i128 = i64::MAX as i128;
    vy >= lo && dy >= lo && dy <= hi && py >= lo && py <= hi
}

/// The machine limits for a whole trajectory: every step of the delta
/// sequence stays inside `i64`.
pub open spec fn run_fits(p: PlayerState, dts: Seq<u32>) -> bool
    decreases dts.len(),
{
    dts.len() == 0 || (step_fits(p, dts[0]) && run_fits(step_model(p, dts[0]), dts.drop_first()))
}

/// The trajectory model: the state after the physics of every delta in
/// the sequence acted in order, a pure function of the starting state and
/// the deltas alone.
pub open spec fn run_model(p: PlayerState, dts: Seq<u32>) -> PlayerState
    decreases dts.len(),
{
    if dts.len() == 0 {
        p
    } else {
        run_model(step_model(p, dts[0]), dts.drop_first())
    }
}

/// Advances one player through a whole sequence of time deltas. The
/// outcome equals [`run_model`] of the start and the deltas, so with no
/// further commands the trajectory is exactly reproducible.
pub fn run_steps(p: &mut PlayerState, dts: &Vec<u32>)
    requires
        old(p).wf(),
        run_fits(*old(p), dts@),
    ensures
        *final(p) == run_model(*old(p), dts@),
        final(p).wf(),
{
    proof {
        assert(dts@.skip(0) =~= dts@);
    }
    let n = dts.len();
    let mut i: usize = 0;
    while i < n
        invariant
            p.wf(),
            i <= n,
            n == dts@.len(),
            run_fits(*p, dts@.skip(i as int)),
            run_model(*old(p), dts@) == run_model(*p, dts@.skip(i as int)),
        decreases n - i,
    {
        proof {
            assert(dts@.skip(i as int)[0] == dts@[i as int]);
            assert(dts@.skip(i as int).drop_first() =~= dts@.skip((i + 1) as int));
        }
        step_player(p, dts[i]);
        i += 1;
    }
    proof {
        assert(dts@.skip(n as int) =~= Seq::<u32>::empty());
    }
}

/// Law: however large the overshoot, a step that would carry the player to
/// the floor or below lands it exactly on the floor, with no vertical
/// speed, grounded, and with the jump debounce cleared.
pub proof fn lemma_floor_clamp(p: PlayerState, dt: u32)
    requires
        pos_after_raw(p, dt) <= FLOOR,
    ensures
        step_model(p, dt).pos_y == FLOOR,
        step_model(p, dt).vel_y == 0,
        step_model(p, dt).on_ground,
        !step_model(p, dt).is_jumping,
{
}

} // verus!
