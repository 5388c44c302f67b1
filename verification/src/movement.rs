//! The blended joint-target controller.
//!
//! Every segment of the rig carries two weights between zero and one. `alpha`
//! says where the segment stands in its sweep between two targets; `blend`
//! says how strongly the swept value is applied to the motor. Weights, rates
//! and targets are whole millionths; time is whole microseconds.

use vstd::prelude::*;
use vstd::arithmetic::div_mod::lemma_fundamental_div_mod_converse;

verus! {

/// The weight `1.0`, in millionths.
pub const UNIT: u64 = 1_000_000;

/// Microseconds in a second.
pub const MICROS_PER_SECOND: u64 = 1_000_000;

/// How far a held key moves a weight in one second, in millionths.
pub const ALPHA_SPEED: u64 = 3_000_000;

/// The motor gain of a freshly made segment, in millionths.
pub const DEFAULT_STIFFNESS: u64 = 1_000_000_000;

/// `UNIT * UNIT`: the scale of a target that was weighted twice.
pub const UNIT_SQUARED: u128 = 1_000_000_000_000;

/// The state of one controllable segment.
#[derive(Clone, Copy, Debug, PartialEq, Eq, Structural)]
pub struct GolemImpulseMovement {
    /// Progress within the current sweep, in millionths.
    pub alpha: u64,
    /// Weight with which the swept value is applied, in millionths.
    pub blend: u64,
    /// The entry of the rig's target tables that this segment reads.
    pub index: usize,
    /// Motor gain, handed on unchanged.
    pub stiffness: u64,
}

/// What the motor of one segment is told.
#[derive(Clone, Copy, Debug, PartialEq, Eq, Structural)]
pub struct MotorCommand {
    /// Position of the segment in the list of segments.
    pub segment: usize,
    /// Target position, in millionths.
    pub target: i64,
    /// Motor gain, in millionths.
    pub stiffness: u64,
    /// Motor damping; always zero.
    pub damping: u64,
}

/// The two ends of every segment's sweep.
#[derive(Debug)]
pub struct ImpulseTargets {
    /// Target at `alpha == 0`, one entry for each segment index, in millionths.
    pub from: Vec<i64>,
    /// Target at `alpha == 1`, one entry for each segment index, in millionths.
    pub to: Vec<i64>,
}

/// `x` held to the range from zero to `UNIT`.
pub open spec fn clamp_unit(x: int) -> int {
    if x < 0 {
        0
    } else if x > UNIT as int {
        UNIT as int
    } else {
        x
    }
}

/// How far a weight moves in `dt_micros` microseconds at `rate` millionths
/// per second, rounded down to a whole millionth.
pub open spec fn sweep_step(rate: u64, dt_micros: u64) -> int {
    (rate as int * dt_micros as int) / (MICROS_PER_SECOND as int)
}

/// The motor target of a sweep from `from` to `to` that stands at `alpha` and
/// is applied with weight `blend`: `(from + (to - from) * alpha) * blend`,
/// rounded down to a whole millionth.
pub open spec fn blended_target(from: i64, to: i64, alpha: u64, blend: u64) -> int {
    ((from as int * (UNIT as int - alpha as int) + to as int * alpha as int) * blend as int) / (
    UNIT_SQUARED as int)
}

impl GolemImpulseMovement {
    /// Both weights lie between zero and one.
    pub open spec fn wf(&self) -> bool {
        self.alpha <= UNIT && self.blend <= UNIT
    }

    /// Where a sweep sets out from: from where `alpha` stands, or, for a
    /// segment that is not applied at all (`blend == 0`), from the end that
    /// the sweep moves away from.
    pub open spec fn sweep_start(self, upwards: bool) -> int {
        if self.blend != 0 {
            self.alpha as int
        } else if upwards {
            0
        } else {
            UNIT as int
        }
    }

    /// The state after one tick in which a weight moves by `step`.
    ///
    /// With no key held nothing changes. Otherwise the increase key wins over
    /// the decrease key, `alpha` moves by one step from where the sweep sets
    /// out, and `blend` rises by one step.
    pub open spec fn after_tick(self, increase: bool, decrease: bool, step: int) -> Self {
        if increase {
            GolemImpulseMovement {
                alpha: clamp_unit(self.sweep_start(true) + step) as u64,
                blend: clamp_unit(self.blend + step) as u64,
                ..self
            }
        } else if decrease {
            GolemImpulseMovement {
                alpha: clamp_unit(self.sweep_start(false) - step) as u64,
                blend: clamp_unit(self.blend + step) as u64,
                ..self
            }
        } else {
            self
        }
    }

    /// The state after `ticks` equal ticks.
    pub open spec fn after_ticks(self, increase: bool, decrease: bool, step: int, ticks: nat) -> Self
        decreases ticks,
    {
        if ticks == 0 {
            self
        } else {
            self.after_ticks(increase, decrease, step, (ticks - 1) as nat).after_tick(
                increase,
                decrease,
                step,
            )
        }
    }

    /// A resting segment that reads entry `index` of the target tables.
    pub fn from_index(index: usize) -> (segment: Self)
        ensures
            segment == (GolemImpulseMovement {
                alpha: 0,
                blend: 0,
                index,
                stiffness: DEFAULT_STIFFNESS,
            }),
            segment.wf(),
    {
        GolemImpulseMovement { alpha: 0, blend: 0, index, stiffness: DEFAULT_STIFFNESS }
    }

    /// Advances the segment by one tick of `dt_micros` microseconds and says
    /// whether its motor target has to be set again.
    pub fn tick(
        &mut self,
        increase_pressed: bool,
        decrease_pressed: bool,
        dt_micros: u64,
    ) -> (changed: bool)
        ensures
            *final(self) == old(self).after_tick(
                increase_pressed,
                decrease_pressed,
                sweep_step(ALPHA_SPEED, dt_micros),
            ),
            changed == (increase_pressed || decrease_pressed),
            changed ==> final(self).wf(),
            !changed ==> *final(self) == *old(self),
    {
        let step: u128 = step_for(ALPHA_SPEED, dt_micros);
        if increase_pressed {
            let start: u64 = if self.blend == 0 { 0 } else { self.alpha };
            self.alpha = raise(start, step);
        } else if decrease_pressed {
            let start: u64 = if self.blend == 0 { UNIT } else { self.alpha };
            self.alpha = lower(start, step);
        }
        let changed = increase_pressed || decrease_pressed;
        if changed {
            self.blend = raise(self.blend, step);
        }
        changed
    }

    /// The target that this segment's motor is driven to.
    pub fn motor_target(&self, targets: &ImpulseTargets) -> (target: i64)
        requires
            self.wf(),
            targets.wf(),
            self.index < targets.from@.len(),
        ensures
            target == blended_target(
                targets.from@[self.index as int],
                targets.to@[self.index as int],
                self.alpha,
                self.blend,
            ),
    {
        blend_target(targets.from[self.index], targets.to[self.index], self.alpha, self.blend)
    }
}

impl Default for GolemImpulseMovement {
    fn default() -> (segment: Self)
        ensures
            segment == (GolemImpulseMovement {
                alpha: 0,
                blend: 0,
                index: 0,
                stiffness: DEFAULT_STIFFNESS,
            }),
    {
        GolemImpulseMovement { alpha: 0, blend: 0, index: 0, stiffness: DEFAULT_STIFFNESS }
    }
}

impl ImpulseTargets {
    /// Both tables have an entry for the same segment indices.
    pub open spec fn wf(&self) -> bool {
        self.from@.len() == self.to@.len()
    }
}

/// The exact step of a weight for one tick.
pub fn step_for(rate: u64, dt_micros: u64) -> (step: u128)
    ensures
        step == sweep_step(rate, dt_micros),
{
    assert(rate as int * dt_micros as int <= 0xffff_ffff_ffff_ffff * 0xffff_ffff_ffff_ffff)
        by (nonlinear_arith)
        requires
            0 <= rate as int <= 0xffff_ffff_ffff_ffff,
            0 <= dt_micros as int <= 0xffff_ffff_ffff_ffff,
    ;
    (rate as u128 * dt_micros as u128) / (MICROS_PER_SECOND as u128)
}

/// `start + step`, held at `UNIT`.
pub fn raise(start: u64, step: u128) -> (weight: u64)
    ensures
        weight == clamp_unit(start + step),
{
    if step >= UNIT as u128 {
        UNIT
    } else {
        let sum: u128 = start as u128 + step;
        if sum >= UNIT as u128 {
            UNIT
        } else {
            sum as u64
        }
    }
}

/// `start - step`, held between zero and `UNIT`.
pub fn lower(start: u64, step: u128) -> (weight: u64)
    ensures
        weight == clamp_unit(start - step),
{
    if step >= start as u128 {
        0
    } else {
        let rest: u128 = start as u128 - step;
        if rest >= UNIT as u128 {
            UNIT
        } else {
            rest as u64
        }
    }
}

/// `n / d` rounded towards minus infinity.
fn floor_div(n: i128, d: u128) -> (q: i128)
    requires
        0 < d <= 0x1000_0000_0000_0000_0000_0000,
        -0x1000_0000_0000_0000_0000_0000_0000_0000 <= n <= 0x1000_0000_0000_0000_0000_0000_0000_0000,
    ensures
        q == (n as int) / (d as int),
{
    if n >= 0 {
        ((n as u128) / d) as i128
    } else {
        let m: u128 = (-n) as u128;
        let padded: u128 = m + (d - 1);
        let up: u128 = padded / d;
        proof {
            let r = (padded % d) as int;
            assert(padded as int == d as int * (padded as int / d as int) + r) by {
                vstd::arithmetic::div_mod::lemma_fundamental_div_mod(padded as int, d as int);
            }
            assert(n as int == (-(up as int)) * d as int + (d as int - 1 - r)) by (nonlinear_arith)
                requires
                    padded as int == d as int * (up as int) + r,
                    padded as int == -(n as int) + d as int - 1,
            ;
            lemma_fundamental_div_mod_converse(n as int, d as int, -(up as int), d as int - 1 - r);
        }
        -(up as i128)
    }
}

/// The least of the two ends of a sweep and zero.
pub open spec fn span_low(from: i64, to: i64) -> int {
    if from <= to {
        if from <= 0 {
            from as int
        } else {
            0
        }
    } else if to <= 0 {
        to as int
    } else {
        0
    }
}

/// The greatest of the two ends of a sweep and zero.
pub open spec fn span_high(from: i64, to: i64) -> int {
    if from >= to {
        if from >= 0 {
            from as int
        } else {
            0
        }
    } else if to >= 0 {
        to as int
    } else {
        0
    }
}

/// A weighted sweep never leaves the span of its two ends and zero.
pub proof fn lemma_blended_target_bounds(from: i64, to: i64, alpha: u64, blend: u64)
    requires
        alpha <= UNIT,
        blend <= UNIT,
    ensures
        span_low(from, to) <= blended_target(from, to, alpha, blend) <= span_high(from, to),
{
    let u = UNIT as int;
    let uu = UNIT_SQUARED as int;
    let f = from as int;
    let t = to as int;
    let a = alpha as int;
    let b = blend as int;
    let lo = span_low(from, to);
    let hi = span_high(from, to);
    let swept = f * (u - a) + t * a;
    let weighted = swept * b;
    assert(lo * u <= swept <= hi * u) by (nonlinear_arith)
        requires
            swept == f * (u - a) + t * a,
            0 <= a <= u,
            lo <= f <= hi,
            lo <= t <= hi,
    ;
    assert(lo * uu <= weighted <= hi * uu) by (nonlinear_arith)
        requires
            weighted == swept * b,
            lo * u <= swept <= hi * u,
            0 <= b <= u,
            lo <= 0 <= hi,
            uu == u * u,
            u > 0,
    ;
    let q = weighted / uu;
    vstd::arithmetic::div_mod::lemma_fundamental_div_mod(weighted, uu);
    assert(lo <= q <= hi) by (nonlinear_arith)
        requires
            weighted == uu * q + weighted % uu,
            0 <= weighted % uu < uu,
            lo * uu <= weighted <= hi * uu,
            uu > 0,
    ;
}

/// Computes the motor target of a sweep from `from` to `to` that stands at
/// `alpha` and is applied with weight `blend`.
pub fn blend_target(from: i64, to: i64, alpha: u64, blend: u64) -> (target: i64)
    requires
        alpha <= UNIT,
        blend <= UNIT,
    ensures
        target == blended_target(from, to, alpha, blend),
{
    let unit: i128 = UNIT as i128;
    let a: i128 = alpha as i128;
    let b: i128 = blend as i128;
    let f: i128 = from as i128;
    let t: i128 = to as i128;
    proof {
        lemma_blended_target_bounds(from, to, alpha, blend);
        assert(-0x8000_0000_0000_0000 * 1_000_000 <= f * (unit - a) <= 0x8000_0000_0000_0000
            * 1_000_000) by (nonlinear_arith)
            requires
                -0x8000_0000_0000_0000 <= f <= 0x8000_0000_0000_0000,
                0 <= unit - a <= 1_000_000,
        ;
        assert(-0x8000_0000_0000_0000 * 1_000_000 <= t * a <= 0x8000_0000_0000_0000 * 1_000_000)
            by (nonlinear_arith)
            requires
                -0x8000_0000_0000_0000 <= t <= 0x8000_0000_0000_0000,
                0 <= a <= 1_000_000,
        ;
        assert(-0x1_0000_0000_0000_0000 * 1_000_000 * 1_000_000 <= (f * (unit - a) + t * a) * b
            <= 0x1_0000_0000_0000_0000 * 1_000_000 * 1_000_000) by (nonlinear_arith)
            requires
                -0x1_0000_0000_0000_0000 * 1_000_000 <= f * (unit - a) + t * a
                    <= 0x1_0000_0000_0000_0000 * 1_000_000,
                0 <= b <= 1_000_000,
        ;
    }
    let swept: i128 = f * (unit - a) + t * a;
    let weighted: i128 = swept * b;
    let rounded: i128 = floor_div(weighted, UNIT_SQUARED);
    rounded as i64
}

/// The same blend on each of three axes.
pub fn blend_offset(from: [i64; 3], to: [i64; 3], alpha: u64, blend: u64) -> (offset: [i64; 3])
    requires
        alpha <= UNIT,
        blend <= UNIT,
    ensures
        forall|axis: int|
            0 <= axis < 3 ==> #[trigger] offset[axis] == blended_target(
                from[axis],
                to[axis],
                alpha,
                blend,
            ),
{
    [
        blend_target(from[0], to[0], alpha, blend),
        blend_target(from[1], to[1], alpha, blend),
        blend_target(from[2], to[2], alpha, blend),
    ]
}

/// The segments whose motor target has to be set again after a tick: all of
/// them, in order, when a key was held, and none otherwise.
pub open spec fn dirty_segments(count: nat, active: bool) -> Seq<usize> {
    if active {
        Seq::new(count, |i: int| i as usize)
    } else {
        Seq::empty()
    }
}

/// Every segment has weights in range and reads an entry that both target
/// tables have.
pub open spec fn rig_wf(segments: Seq<GolemImpulseMovement>, targets: &ImpulseTargets) -> bool {
    &&& targets.wf()
    &&& forall|i: int|
        0 <= i < segments.len() ==> (#[trigger] segments[i]).wf() && segments[i].index
            < targets.from@.len()
}

/// What the motor of segment number `segment` is told.
pub open spec fn command_for(
    state: GolemImpulseMovement,
    targets: &ImpulseTargets,
    segment: usize,
) -> MotorCommand {
    MotorCommand {
        segment,
        target: blended_target(
            targets.from@[state.index as int],
            targets.to@[state.index as int],
            state.alpha,
            state.blend,
        ) as i64,
        stiffness: state.stiffness,
        damping: 0,
    }
}

/// The motor commands that answer a queue of change notices, in the order of
/// the queue. A notice that names no segment is passed over.
pub open spec fn motor_commands(
    segments: Seq<GolemImpulseMovement>,
    targets: &ImpulseTargets,
    events: Seq<usize>,
) -> Seq<MotorCommand>
    decreases events.len(),
{
    if events.len() == 0 {
        Seq::empty()
    } else {
        let earlier = motor_commands(segments, targets, events.drop_last());
        let event = events.last();
        if event < segments.len() {
            earlier.push(command_for(segments[event as int], targets, event))
        } else {
            earlier
        }
    }
}

/// Advances every segment by one tick and returns the queue of change
/// notices: the positions of the segments that moved.
pub fn handle_move_body_key(
    segments: &mut Vec<GolemImpulseMovement>,
    increase_pressed: bool,
    decrease_pressed: bool,
    dt_micros: u64,
) -> (dirty: Vec<usize>)
    ensures
        final(segments)@.len() == old(segments)@.len(),
        forall|i: int|
            0 <= i < old(segments)@.len() ==> #[trigger] final(segments)@[i] == old(
                segments,
            )@[i].after_tick(increase_pressed, decrease_pressed, sweep_step(ALPHA_SPEED, dt_micros)),
        dirty@ == dirty_segments(old(segments)@.len(), increase_pressed || decrease_pressed),
{
    let ghost before = segments@;
    let ghost step = sweep_step(ALPHA_SPEED, dt_micros);
    let count: usize = segments.len();
    let mut dirty: Vec<usize> = Vec::new();
    let mut i: usize = 0;
    assert(dirty@ =~= dirty_segments(0, increase_pressed || decrease_pressed));
    while i < count
        invariant
            i <= count,
            segments@.len() == count,
            before.len() == count,
            step == sweep_step(ALPHA_SPEED, dt_micros),
            forall|j: int|
                0 <= j < i ==> #[trigger] segments@[j] == before[j].after_tick(
                    increase_pressed,
                    decrease_pressed,
                    step,
                ),
            forall|j: int| i <= j < count ==> #[trigger] segments@[j] == before[j],
            dirty@ == dirty_segments(i as nat, increase_pressed || decrease_pressed),
        decreases count - i,
    {
        let mut segment: GolemImpulseMovement = segments[i];
        let changed = segment.tick(increase_pressed, decrease_pressed, dt_micros);
        segments.set(i, segment);
        if changed {
            dirty.push(i);
        }
        i += 1;
        assert(dirty@ =~= dirty_segments(i as nat, increase_pressed || decrease_pressed));
    }
    dirty
}

/// Answers a queue of change notices with the command for each motor.
pub fn handle_movement(
    segments: &Vec<GolemImpulseMovement>,
    targets: &ImpulseTargets,
    events: &Vec<usize>,
) -> (commands: Vec<MotorCommand>)
    requires
        rig_wf(segments@, targets),
    ensures
        commands@ == motor_commands(segments@, targets, events@),
{
    let mut commands: Vec<MotorCommand> = Vec::new();
    let mut k: usize = 0;
    assert(events@.take(0) =~= Seq::empty());
    while k < events.len()
        invariant
            k <= events@.len(),
            rig_wf(segments@, targets),
            commands@ == motor_commands(segments@, targets, events@.take(k as int)),
        decreases events@.len() - k,
    {
        let event: usize = events[k];
        assert(events@.take(k + 1).drop_last() =~= events@.take(k as int));
        assert(events@.take(k + 1).last() == event);
        if event < segments.len() {
            let state: GolemImpulseMovement = segments[event];
            let target: i64 = state.motor_target(targets);
            commands.push(MotorCommand { segment: event, target, stiffness: state.stiffness, damping: 0 });
        }
        k += 1;
    }
    assert(events@.take(k as int) =~= events@);
    commands
}

/// At the rate of a held key a weight moves by exactly three millionths in
/// every microsecond, so no tick is rounded.
pub proof fn lemma_key_rate_is_exact(dt_micros: u64)
    ensures
        sweep_step(ALPHA_SPEED, dt_micros) == 3 * dt_micros,
{
    assert(ALPHA_SPEED as int * dt_micros as int == (3 * dt_micros) * (MICROS_PER_SECOND as int) + 0)
        by (nonlinear_arith)
        requires
            ALPHA_SPEED == 3_000_000,
            MICROS_PER_SECOND == 1_000_000,
    ;
    lemma_fundamental_div_mod_converse(
        ALPHA_SPEED as int * dt_micros as int,
        MICROS_PER_SECOND as int,
        3 * dt_micros,
        0,
    );
}

/// A tick with a key held leaves both weights between zero and one, and a
/// tick of any kind keeps them there.
pub proof fn lemma_tick_keeps_weights_in_range(
    state: GolemImpulseMovement,
    increase: bool,
    decrease: bool,
    step: int,
)
    ensures
        increase || decrease ==> state.after_tick(increase, decrease, step).wf(),
        state.wf() ==> state.after_tick(increase, decrease, step).wf(),
        state.after_tick(increase, decrease, step).index == state.index,
        state.after_tick(increase, decrease, step).stiffness == state.stiffness,
{
}

/// With no key held a segment stays as it is, however many ticks pass.
pub proof fn lemma_idle_ticks_change_nothing(state: GolemImpulseMovement, step: int, ticks: nat)
    ensures
        state.after_ticks(false, false, step, ticks) == state,
    decreases ticks,
{
    if ticks > 0 {
        lemma_idle_ticks_change_nothing(state, step, (ticks - 1) as nat);
    }
}

/// While the increase key is held, both weights have risen by the time
/// passed or have reached one.
pub proof fn lemma_held_increase_progress(
    state: GolemImpulseMovement,
    decrease: bool,
    step: int,
    ticks: nat,
)
    requires
        step > 0,
        ticks >= 1,
    ensures
        state.after_ticks(true, decrease, step, ticks).wf(),
        state.after_ticks(true, decrease, step, ticks).alpha >= ticks * step
            || state.after_ticks(true, decrease, step, ticks).alpha == UNIT,
        state.after_ticks(true, decrease, step, ticks).blend >= ticks * step
            || state.after_ticks(true, decrease, step, ticks).blend == UNIT,
    decreases ticks,
{
    let earlier = state.after_ticks(true, decrease, step, (ticks - 1) as nat);
    assert(state.after_ticks(true, decrease, step, ticks) == earlier.after_tick(
        true,
        decrease,
        step,
    ));
    if ticks == 1 {
        assert(earlier == state);
        assert(ticks * step == step) by (nonlinear_arith)
            requires
                ticks == 1,
        ;
    } else {
        lemma_held_increase_progress(state, decrease, step, (ticks - 1) as nat);
        assert(ticks * step == (ticks - 1) * step + step) by (nonlinear_arith);
        assert((ticks - 1) * step > 0) by (nonlinear_arith)
            requires
                ticks >= 2,
                step > 0,
        ;
    }
}

/// Holding the increase key long enough brings both weights to exactly one,
/// and further ticks keep them there.
pub proof fn lemma_held_increase_saturates(
    state: GolemImpulseMovement,
    decrease: bool,
    step: int,
    enough: nat,
    ticks: nat,
)
    requires
        enough * step >= UNIT,
        ticks >= enough,
    ensures
        state.after_ticks(true, decrease, step, ticks).alpha == UNIT,
        state.after_ticks(true, decrease, step, ticks).blend == UNIT,
{
    assert(step > 0 && enough >= 1) by (nonlinear_arith)
        requires
            enough * step >= 1_000_000,
            enough >= 0,
    ;
    assert(ticks * step >= enough * step) by (nonlinear_arith)
        requires
            ticks >= enough,
            step > 0,
    ;
    lemma_held_increase_progress(state, decrease, step, ticks);
}

/// Turning from increase to decrease in the middle of a sweep moves `alpha`
/// down from where it stands, by no more than one step, while `blend` goes on
/// rising.
pub proof fn lemma_reversal_is_smooth(state: GolemImpulseMovement, step: int)
    requires
        state.wf(),
        state.blend > 0,
        step >= 0,
    ensures
        state.after_tick(false, true, step).alpha == clamp_unit(state.alpha - step),
        state.after_tick(false, true, step).alpha <= state.alpha,
        state.alpha - state.after_tick(false, true, step).alpha <= step,
        state.after_tick(false, true, step).blend == clamp_unit(state.blend + step),
        state.after_tick(false, true, step).blend >= state.blend,
{
}

/// A segment that is not applied at all begins its sweep at the end it moves
/// away from, whatever `alpha` it was left with.
pub proof fn lemma_fresh_press_starts_at_end(
    state: GolemImpulseMovement,
    decrease: bool,
    step: int,
)
    requires
        state.blend == 0,
    ensures
        state.after_tick(true, decrease, step).alpha == clamp_unit(step),
        state.after_tick(false, true, step).alpha == clamp_unit(UNIT - step),
{
}

} // verus!
