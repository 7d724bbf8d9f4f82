//! Fading: taking a level to another one in steps of ten milliseconds.
//!
//! How much of the change is due at a step before the last is worked out in floating point, by a
//! function that the caller hands in. The last step takes the whole change.
use crate::clock::{Span, NANOS_PER_MILLI};
use vstd::prelude::*;

verus! {

/// The length of a step.
pub const TICK_MILLIS: u32 = 10;

/// The lowest level that a fade leads to.
pub const MIN_LEVEL: u8 = 0;

/// The highest level that a fade leads to.
pub const MAX_LEVEL: u8 = 100;

/// A fade in progress, or one that is over.
#[derive(Debug)]
pub struct Fader<Level, Delta> {
    pub active: bool,
    pub tick: u32,
    pub ticks: u32,
    pub initial_level: Level,
    pub delta_level: Delta,
}

/// The number of whole steps in a length of time, of which at most 2^32 - 1 milliseconds count.
pub open spec fn ticks_in(duration: Span) -> int {
    let millis = duration.nanos as int / NANOS_PER_MILLI as int;
    let counted = if millis <= u32::MAX {
        millis
    } else {
        u32::MAX as int
    };
    counted / TICK_MILLIS as int
}

impl<Level, Delta> Fader<Level, Delta> {
    pub open spec fn wf(self) -> bool {
        self.active ==> self.tick < self.ticks || (self.tick == 0 && self.ticks == 0)
    }

    /// How many more steps the fade takes.
    pub open spec fn remaining(self) -> nat {
        if !self.active {
            0
        } else if self.ticks == 0 {
            1
        } else {
            (self.ticks - self.tick) as nat
        }
    }

    /// Whether the next step is the last.
    pub open spec fn ends_next(self) -> bool {
        self.tick + 1 >= self.ticks
    }

    /// The fade after one more step.
    pub open spec fn stepped(self) -> Self {
        if !self.active {
            self
        } else {
            Fader {
                active: self.tick + 1 < self.ticks,
                tick: (self.tick + 1) as u32,
                ..self
            }
        }
    }

    /// A fade that is about to start.
    pub open spec fn started(initial_level: Level, delta_level: Delta, duration: Span) -> Self {
        Fader {
            active: true,
            tick: 0,
            ticks: ticks_in(duration) as u32,
            initial_level,
            delta_level,
        }
    }

    /// No fade.
    pub fn idle(initial_level: Level, delta_level: Delta) -> (fader: Self)
        ensures
            fader == (Fader { active: false, tick: 0, ticks: 0, initial_level, delta_level }),
            fader.wf(),
            fader.remaining() == 0,
    {
        Fader { active: false, tick: 0, ticks: 0, initial_level, delta_level }
    }

    /// Counts a step.
    fn step(&mut self)
        requires
            old(self).wf(),
            old(self).active,
        ensures
            *final(self) == old(self).stepped(),
    {
        self.tick += 1;
        if self.tick >= self.ticks {
            self.active = false;
        }
    }

    /// Starts to fade from one level by a given amount.
    fn start(&mut self, initial_level: Level, delta_level: Delta, duration: Span)
        ensures
            *final(self) == Self::started(initial_level, delta_level, duration),
    {
        let millis: u128 = duration.as_millis();
        let counted: u32 = if millis <= u32::MAX as u128 {
            millis as u32
        } else {
            u32::MAX
        };
        self.active = true;
        self.tick = 0;
        self.ticks = counted / TICK_MILLIS;
        self.initial_level = initial_level;
        self.delta_level = delta_level;
    }
}

/// A level taken as a signed number of eight bits.
pub open spec fn signed(level: u8) -> int {
    if level < 128 {
        level as int
    } else {
        level - 256
    }
}

/// A level taken as a signed number of eight bits.
fn signed_level(level: u8) -> (value: i8)
    ensures
        value == signed(level),
{
    if level < 128 {
        level as i8
    } else {
        (level as i16 - 256) as i8
    }
}

/// The level that is `delta` above `initial`, kept within bounds.
pub open spec fn level_at(initial: u8, delta: i8) -> u8 {
    let level = signed(initial) + delta;
    if level < MIN_LEVEL {
        MIN_LEVEL
    } else if level > MAX_LEVEL {
        MAX_LEVEL
    } else {
        level as u8
    }
}

/// The level that a fade to the given one leads to.
pub open spec fn goal(level: u8) -> u8 {
    if level <= MAX_LEVEL {
        level
    } else {
        MAX_LEVEL
    }
}

/// The level that a fade to the given one leads to.
pub fn fade_goal(level: u8) -> (level_goal: u8)
    ensures
        level_goal == goal(level),
{
    if level <= MAX_LEVEL {
        level
    } else {
        MAX_LEVEL
    }
}

/// Whether the change from one level to another is a signed number of eight bits.
pub open spec fn can_fade(current_level: u8, final_level: u8) -> bool {
    i8::MIN <= signed(final_level) - signed(current_level) <= i8::MAX
}

/// A fade from one level to another that is about to start.
pub open spec fn fade_of(current_level: u8, final_level: u8, duration: Span) -> Fader<u8, i8> {
    Fader::started(
        current_level,
        (signed(final_level) - signed(current_level)) as i8,
        duration,
    )
}

/// Whether a step of the fade may take a level from one to another, where `share` works out how
/// much of the change is due before the last step. At the last step, all of it is.
pub open spec fn level_steps<F: Fn(i8, u32, u32) -> i8>(
    fader: Fader<u8, i8>,
    share: F,
    before: u8,
    after: u8,
) -> bool {
    if !fader.active {
        after == before
    } else if fader.ends_next() {
        after == level_at(fader.initial_level, fader.delta_level)
    } else {
        exists|current_delta: i8| #[trigger]
            call_ensures(
                share,
                (fader.delta_level, fader.ticks, (fader.tick + 1) as u32),
                current_delta,
            ) && after == level_at(fader.initial_level, current_delta)
    }
}

/// A change of a fractional level: by how much, and to which level.
#[derive(Debug)]
pub struct Change<V> {
    pub by: V,
    pub to: V,
}

/// Whether a step of the fade may take a fractional level from one to another, where `place` works
/// out the level that is due before the last step and `differs` tells levels apart. The last step
/// leads to the level that the fade is for.
pub open spec fn float_steps<V, P: Fn(V, V, u32, u32, u8, u8) -> V, D: Fn(V, V) -> bool>(
    fader: Fader<V, Change<V>>,
    place: P,
    differs: D,
    before: V,
    after: V,
) -> bool {
    if !fader.active {
        after == before
    } else if fader.ends_next() {
        after == fader.delta_level.to
    } else {
        exists|new_level: V, differ: bool|
            {
                &&& #[trigger] call_ensures(
                    place,
                    (
                        fader.initial_level,
                        fader.delta_level.by,
                        fader.ticks,
                        (fader.tick + 1) as u32,
                        MIN_LEVEL,
                        MAX_LEVEL,
                    ),
                    new_level,
                )
                &&& #[trigger] call_ensures(differs, (before, new_level), differ)
                &&& after == if differ {
                    new_level
                } else {
                    before
                }
            }
    }
}

impl Default for Fader<u8, i8> {
    fn default() -> (fader: Self)
        ensures
            fader == (Fader {
                active: false,
                tick: 0u32,
                ticks: 0u32,
                initial_level: 0u8,
                delta_level: 0i8,
            }),
            fader.wf(),
    {
        Fader::idle(0, 0)
    }
}

impl Fader<u8, i8> {
    /// Takes a step of the fade, where one is in progress, and tells whether the level changed.
    ///
    /// `share` works out how much of the whole change, its first argument, is due at a step before
    /// the last: the second argument is the number of steps, the third is the step, counted from
    /// one.
    pub fn tick<F: Fn(i8, u32, u32) -> i8>(&mut self, level: &mut u8, share: F) -> (changed: bool)
        requires
            old(self).wf(),
            forall|delta: i8, ticks: u32, tick: u32| #[trigger]
                call_requires(share, (delta, ticks, tick)),
        ensures
            *final(self) == old(self).stepped(),
            final(self).wf(),
            level_steps(*old(self), share, *old(level), *final(level)),
            changed == (*final(level) != *old(level)),
    {
        if !self.active {
            return false;
        }
        let current_delta: i8 = if self.tick + 1 >= self.ticks {
            self.delta_level
        } else {
            share(self.delta_level, self.ticks, self.tick + 1)
        };
        self.tick_by(level, current_delta)
    }

    /// Takes a step of a fade in progress at which `current_delta` of the change is due, or all of
    /// it where the step is the last, and tells whether the level changed.
    pub fn tick_by(&mut self, level: &mut u8, current_delta: i8) -> (changed: bool)
        requires
            old(self).wf(),
            old(self).active,
        ensures
            *final(self) == old(self).stepped(),
            final(self).wf(),
            *final(level) == level_at(
                old(self).initial_level,
                if old(self).ends_next() {
                    old(self).delta_level
                } else {
                    current_delta
                },
            ),
            changed == (*final(level) != *old(level)),
    {
        let due: i8 = if self.tick + 1 >= self.ticks {
            self.delta_level
        } else {
            current_delta
        };
        let sum: i16 = signed_level(self.initial_level) as i16 + due as i16;
        let new_level: u8 = if sum < MIN_LEVEL as i16 {
            MIN_LEVEL
        } else if sum > MAX_LEVEL as i16 {
            MAX_LEVEL
        } else {
            sum as u8
        };
        let changed = *level != new_level;
        if changed {
            *level = new_level;
        }
        self.step();
        changed
    }

    /// Starts to fade from one level to another.
    pub fn fade(&mut self, current_level: u8, final_level: u8, duration: Span)
        requires
            can_fade(current_level, final_level),
        ensures
            *final(self) == fade_of(current_level, final_level, duration),
            final(self).wf(),
    {
        let delta: i8 = signed_level(final_level) - signed_level(current_level);
        self.start(current_level, delta, duration);
    }
}

impl<V: Copy> Fader<V, Change<V>> {
    /// Takes a step of the fade, where one is in progress.
    ///
    /// `place` works out the level at a step before the last from the level at the start, the whole
    /// change, the number of steps, the step, counted from one, and the lowest and the highest
    /// level. `differs` tells levels apart.
    pub fn tick_float<P: Fn(V, V, u32, u32, u8, u8) -> V, D: Fn(V, V) -> bool>(
        &mut self,
        level: &mut V,
        place: &P,
        differs: &D,
    )
        requires
            old(self).wf(),
            forall|initial: V, delta: V, ticks: u32, tick: u32, low: u8, high: u8| #[trigger]
                call_requires(*place, (initial, delta, ticks, tick, low, high)),
            forall|a: V, b: V| #[trigger] call_requires(*differs, (a, b)),
        ensures
            *final(self) == old(self).stepped(),
            final(self).wf(),
            float_steps(*old(self), *place, *differs, *old(level), *final(level)),
    {
        if !self.active {
            return;
        }
        if self.tick + 1 >= self.ticks {
            *level = self.delta_level.to;
        } else {
            let new_level = place(
                self.initial_level,
                self.delta_level.by,
                self.ticks,
                self.tick + 1,
                MIN_LEVEL,
                MAX_LEVEL,
            );
            let differ = differs(*level, new_level);
            if differ {
                *level = new_level;
            }
        }
        self.step();
    }

    /// Starts to fade from one level to another; `difference` takes the first of two levels away
    /// from the second.
    pub fn fade_float<M: Fn(V, V) -> V>(
        &mut self,
        current_level: V,
        final_level: V,
        duration: Span,
        difference: &M,
    )
        requires
            forall|from: V, to: V| #[trigger] call_requires(*difference, (from, to)),
        ensures
            exists|by: V| #[trigger]
                call_ensures(*difference, (current_level, final_level), by) && *final(self)
                    == Self::started(current_level, Change { by, to: final_level }, duration),
            final(self).wf(),
    {
        let by = difference(current_level, final_level);
        self.start(current_level, Change { by, to: final_level }, duration);
    }
}

/// A fade takes one step for each ten milliseconds of its duration, and at least one.
pub proof fn law_fade_takes_its_duration<Level, Delta>(
    initial_level: Level,
    delta_level: Delta,
    duration: Span,
)
    ensures
        ({
            let started = Fader::started(initial_level, delta_level, duration);
            &&& started.wf()
            &&& started.remaining() == if ticks_in(duration) == 0 {
                1
            } else {
                ticks_in(duration)
            }
        }),
{
}

/// Each step brings a fade one step closer to its end, where it stays.
pub proof fn law_fade_ends<Level, Delta>(fader: Fader<Level, Delta>)
    requires
        fader.wf(),
    ensures
        fader.stepped().wf(),
        fader.active <==> fader.remaining() > 0,
        fader.active ==> fader.stepped().remaining() == fader.remaining() - 1,
        !fader.active ==> fader.stepped() == fader,
{
}

/// The fade after a number of steps.
pub open spec fn after_steps<Level, Delta>(fader: Fader<Level, Delta>, steps: nat) -> Fader<
    Level,
    Delta,
>
    decreases steps,
{
    if steps == 0 {
        fader
    } else {
        after_steps(fader.stepped(), (steps - 1) as nat)
    }
}

/// A fade is in progress until it has taken all its steps, and not after.
pub proof fn law_fade_is_active_until_its_end<Level, Delta>(
    fader: Fader<Level, Delta>,
    steps: nat,
)
    requires
        fader.wf(),
    ensures
        after_steps(fader, steps).wf(),
        after_steps(fader, steps).active <==> steps < fader.remaining(),
    decreases steps,
{
    if steps > 0 {
        law_fade_is_active_until_its_end(fader.stepped(), (steps - 1) as nat);
    }
}

/// The step at which the whole change is due leads to the level that the fade is for.
pub proof fn law_whole_change_reaches_the_goal(current_level: u8, final_level: u8)
    requires
        can_fade(current_level, final_level),
        MIN_LEVEL <= final_level <= MAX_LEVEL,
    ensures
        level_at(current_level, (signed(final_level) - signed(current_level)) as i8) == final_level,
{
}

/// One more step is taken after the others.
proof fn lemma_one_more_step<Level, Delta>(fader: Fader<Level, Delta>, steps: nat)
    ensures
        after_steps(fader, steps + 1) == after_steps(fader, steps).stepped(),
    decreases steps,
{
    reveal_with_fuel(after_steps, 2);
    if steps > 0 {
        lemma_one_more_step(fader.stepped(), (steps - 1) as nat);
    }
}

/// A fade that is stepped from one of `faders` to the next has taken as many steps as there are
/// before it.
pub proof fn lemma_stepped_faders<Level, Delta>(faders: Seq<Fader<Level, Delta>>, steps: nat)
    requires
        steps < faders.len(),
        forall|i: int|
            0 <= i < faders.len() - 1 ==> faders[i + 1] == (#[trigger] faders[i]).stepped(),
    ensures
        faders[steps as int] == after_steps(faders[0], steps),
    decreases steps,
{
    if steps > 0 {
        lemma_stepped_faders(faders, (steps - 1) as nat);
        lemma_one_more_step(faders[0], (steps - 1) as nat);
        assert(faders[steps - 1 + 1] == faders[steps - 1].stepped());
    }
}

/// Steps leave alone where a fade comes from and goes to, and count up to its end.
proof fn lemma_after_steps<Level, Delta>(fader: Fader<Level, Delta>, steps: nat)
    requires
        fader.wf(),
    ensures
        after_steps(fader, steps).wf(),
        after_steps(fader, steps).initial_level == fader.initial_level,
        after_steps(fader, steps).delta_level == fader.delta_level,
        after_steps(fader, steps).ticks == fader.ticks,
        steps < fader.remaining() ==> {
            &&& after_steps(fader, steps).active
            &&& after_steps(fader, steps).tick == fader.tick + steps
            &&& after_steps(fader, steps).ends_next() == (steps + 1 == fader.remaining())
        },
        steps >= fader.remaining() ==> !after_steps(fader, steps).active,
    decreases steps,
{
    if steps > 0 {
        lemma_after_steps(fader.stepped(), (steps - 1) as nat);
    }
}

/// Whether step `i` of a fade may take the level where `levels` says.
pub open spec fn run_steps<F: Fn(i8, u32, u32) -> i8>(
    fader: Fader<u8, i8>,
    share: F,
    levels: Seq<u8>,
    i: int,
) -> bool {
    level_steps(after_steps(fader, i as nat), share, levels[i], levels[i + 1])
}

/// Whether `levels` may be the level before a fade and after each of its steps.
pub open spec fn is_run<F: Fn(i8, u32, u32) -> i8>(
    fader: Fader<u8, i8>,
    share: F,
    levels: Seq<u8>,
) -> bool {
    forall|i: int| 0 <= i < levels.len() - 1 ==> #[trigger] run_steps(fader, share, levels, i)
}

/// After all its steps, a fade has taken the level through the whole change and is over, and so it
/// stays, whatever was due before.
pub proof fn law_fade_takes_the_whole_change<F: Fn(i8, u32, u32) -> i8>(
    fader: Fader<u8, i8>,
    share: F,
    levels: Seq<u8>,
    steps: nat,
)
    requires
        fader.wf(),
        fader.active,
        is_run(fader, share, levels),
        fader.remaining() <= steps < levels.len(),
    ensures
        levels[steps as int] == level_at(fader.initial_level, fader.delta_level),
        !after_steps(fader, steps).active,
    decreases steps,
{
    lemma_after_steps(fader, steps);
    lemma_after_steps(fader, (steps - 1) as nat);
    assert(run_steps(fader, share, levels, steps - 1));
    if steps > fader.remaining() {
        law_fade_takes_the_whole_change(fader, share, levels, (steps - 1) as nat);
    }
}

/// After all its steps, a fade is at the level that it is for and is over, and so it stays,
/// whatever was due before.
pub proof fn law_fade_reaches_its_goal<F: Fn(i8, u32, u32) -> i8>(
    current_level: u8,
    final_level: u8,
    duration: Span,
    share: F,
    levels: Seq<u8>,
    steps: nat,
)
    requires
        can_fade(current_level, final_level),
        final_level <= MAX_LEVEL,
        ({
            let fader = fade_of(current_level, final_level, duration);
            &&& is_run(fader, share, levels)
            &&& fader.remaining() <= steps < levels.len()
        }),
    ensures
        levels[steps as int] == final_level,
        !after_steps(fade_of(current_level, final_level, duration), steps).active,
{
    law_fade_takes_the_whole_change(
        fade_of(current_level, final_level, duration),
        share,
        levels,
        steps,
    );
}

/// Whether `share` lets a change come about bit by bit: what is due lies between nothing and the
/// whole change, and is never taken back.
pub open spec fn is_gradual<F: Fn(i8, u32, u32) -> i8>(share: F, delta: i8, ticks: u32) -> bool {
    &&& forall|tick: u32, due: i8|
        1 <= tick < ticks && #[trigger] call_ensures(share, (delta, ticks, tick), due) ==> if delta
            >= 0 {
            0 <= due <= delta
        } else {
            delta <= due <= 0
        }
    &&& forall|tick: u32, later: u32, due: i8, due_later: i8|
        1 <= tick <= later < ticks && #[trigger] call_ensures(share, (delta, ticks, tick), due)
            && #[trigger] call_ensures(share, (delta, ticks, later), due_later) ==> if delta >= 0 {
            due <= due_later
        } else {
            due >= due_later
        }
}

/// Before the end of a fade, its level is what `share` says is due.
proof fn lemma_level_is_due<F: Fn(i8, u32, u32) -> i8>(
    current_level: u8,
    final_level: u8,
    duration: Span,
    share: F,
    levels: Seq<u8>,
    step: nat,
) -> (due: i8)
    requires
        current_level <= MAX_LEVEL,
        final_level <= MAX_LEVEL,
        ({
            let fader = fade_of(current_level, final_level, duration);
            &&& is_run(fader, share, levels)
            &&& is_gradual(share, fader.delta_level, fader.ticks)
            &&& 0 < step < fader.remaining()
            &&& step < levels.len()
        }),
    ensures
        levels[step as int] == current_level + due,
        ({
            let fader = fade_of(current_level, final_level, duration);
            &&& step < fader.ticks
            &&& call_ensures(share, (fader.delta_level, fader.ticks, step as u32), due)
        }),
{
    let fader = fade_of(current_level, final_level, duration);
    lemma_after_steps(fader, (step - 1) as nat);
    assert(run_steps(fader, share, levels, step - 1));
    choose|due: i8| #[trigger]
        call_ensures(share, (fader.delta_level, fader.ticks, step as u32), due)
            && levels[step as int] == level_at(current_level, due)
}

/// A fade moves one way only, and stays between where it starts and the level that it is for, where
/// `share` lets the change come about bit by bit.
pub proof fn law_fade_moves_one_way<F: Fn(i8, u32, u32) -> i8>(
    current_level: u8,
    final_level: u8,
    duration: Span,
    share: F,
    levels: Seq<u8>,
    i: nat,
    j: nat,
)
    requires
        current_level <= MAX_LEVEL,
        final_level <= MAX_LEVEL,
        i <= j < levels.len(),
        levels[0] == current_level,
        ({
            let fader = fade_of(current_level, final_level, duration);
            &&& is_run(fader, share, levels)
            &&& is_gradual(share, fader.delta_level, fader.ticks)
        }),
    ensures
        current_level <= final_level ==> current_level <= levels[i as int] <= levels[j as int]
            <= final_level,
        current_level >= final_level ==> current_level >= levels[i as int] >= levels[j as int]
            >= final_level,
{
    let fader = fade_of(current_level, final_level, duration);
    if i >= fader.remaining() {
        law_fade_reaches_its_goal(current_level, final_level, duration, share, levels, i);
    }
    if j >= fader.remaining() {
        law_fade_reaches_its_goal(current_level, final_level, duration, share, levels, j);
    }
    if 0 < i < fader.remaining() {
        let due = lemma_level_is_due(current_level, final_level, duration, share, levels, i);
        if j < fader.remaining() {
            let later = lemma_level_is_due(current_level, final_level, duration, share, levels, j);
        }
    } else if i == 0 && 0 < j < fader.remaining() {
        let later = lemma_level_is_due(current_level, final_level, duration, share, levels, j);
    }
}

/// Whether step `i` of a fractional fade may take the level where `levels` says.
pub open spec fn float_run_steps<V, P: Fn(V, V, u32, u32, u8, u8) -> V, D: Fn(V, V) -> bool>(
    fader: Fader<V, Change<V>>,
    place: P,
    differs: D,
    levels: Seq<V>,
    i: int,
) -> bool {
    float_steps(after_steps(fader, i as nat), place, differs, levels[i], levels[i + 1])
}

/// After all its steps, a fractional fade is at the level that it is for and is over, and so it
/// stays, whatever `place` and `differs` gave before.
pub proof fn law_fractional_fade_reaches_its_goal<
    V,
    P: Fn(V, V, u32, u32, u8, u8) -> V,
    D: Fn(V, V) -> bool,
>(fader: Fader<V, Change<V>>, place: P, differs: D, levels: Seq<V>, steps: nat)
    requires
        fader.wf(),
        fader.active,
        forall|i: int|
            0 <= i < levels.len() - 1 ==> #[trigger] float_run_steps(
                fader,
                place,
                differs,
                levels,
                i,
            ),
        fader.remaining() <= steps < levels.len(),
    ensures
        levels[steps as int] == fader.delta_level.to,
        !after_steps(fader, steps).active,
    decreases steps,
{
    lemma_after_steps(fader, steps);
    lemma_after_steps(fader, (steps - 1) as nat);
    assert(float_run_steps(fader, place, differs, levels, steps - 1));
    if steps > fader.remaining() {
        law_fractional_fade_reaches_its_goal(fader, place, differs, levels, (steps - 1) as nat);
    }
}

/// From a level within bounds, every level within bounds can be faded to.
pub proof fn law_levels_within_bounds_can_be_faded(current_level: u8, final_level: u8)
    requires
        current_level <= MAX_LEVEL,
        final_level <= MAX_LEVEL,
    ensures
        can_fade(current_level, final_level),
{
}

/// Whatever is due, a step leads to a level within bounds.
pub proof fn law_steps_stay_within_bounds(initial: u8, delta: i8)
    ensures
        MIN_LEVEL <= level_at(initial, delta) <= MAX_LEVEL,
{
}

/// The more is due, the higher the level.
pub proof fn law_level_follows_the_share(initial: u8, less: i8, more: i8)
    requires
        less <= more,
    ensures
        level_at(initial, less) <= level_at(initial, more),
{
}

/// A fade to a level of at most 100 is for that very level, and one to a higher level is for 100.
pub proof fn law_fade_is_for_the_level_asked_for(level: u8, level_goal: u8)
    requires
        call_ensures(fade_goal, (level,), level_goal),
    ensures
        level <= 100 ==> level_goal == level && goal(level) == level,
        level > 100 ==> level_goal == 100 && goal(level) == 100,
{
}

/// A fade starts with the first of its steps, from the level at the time and by what is missing to
/// the one that it is for. There are as many steps as whole tens of milliseconds fit into the
/// duration, of which at most 2^32 - 1 milliseconds count.
pub proof fn law_fade_starts_from_the_level(
    fader: &mut Fader<u8, i8>,
    current_level: u8,
    final_level: u8,
    duration: Span,
)
    requires
        current_level <= 100,
        final_level <= 100,
        call_ensures(
            Fader::<u8, i8>::fade,
            (fader, current_level, final_level, duration),
            (),
        ),
    ensures
        final(fader).active,
        final(fader).tick == 0,
        final(fader).initial_level == current_level,
        final(fader).initial_level + final(fader).delta_level == final_level,
        final(fader).ticks * 10_000_000 <= duration.nanos,
        final(fader).ticks * 10 <= u32::MAX,
        (final(fader).ticks + 1) * 10_000_000 > duration.nanos || (final(fader).ticks + 1) * 10
            > u32::MAX,
{
}

/// A step of a fade in progress counts, and the last one ends the fade. It takes the level to where
/// the fade started from and what is due: the whole change at the last step, and before it what
/// `share` gives for this very step; and it keeps the level from 0 to 100. Without a fade in
/// progress nothing changes.
pub proof fn law_step_takes_what_is_due<F: Fn(i8, u32, u32) -> i8>(
    fader: &mut Fader<u8, i8>,
    level: &mut u8,
    share: F,
    changed: bool,
)
    requires
        old(fader).tick < u32::MAX,
        old(fader).initial_level <= 100,
        call_ensures(Fader::<u8, i8>::tick::<F>, (fader, level, share), changed),
    ensures
        changed <==> *final(level) != *old(level),
        final(fader).initial_level == old(fader).initial_level,
        final(fader).delta_level == old(fader).delta_level,
        final(fader).ticks == old(fader).ticks,
        !old(fader).active ==> {
            &&& !final(fader).active
            &&& final(fader).tick == old(fader).tick
            &&& *final(level) == *old(level)
        },
        old(fader).active ==> {
            &&& final(fader).tick == old(fader).tick + 1
            &&& final(fader).active <==> final(fader).tick < final(fader).ticks
            &&& *final(level) <= 100
        },
        old(fader).active && !final(fader).active ==> {
            let sum = old(fader).initial_level + old(fader).delta_level;
            &&& 0 <= sum <= 100 ==> *final(level) == sum
            &&& sum < 0 ==> *final(level) == 0
            &&& sum > 100 ==> *final(level) == 100
        },
        final(fader).active ==> exists|due: i8|
            {
                let sum = old(fader).initial_level + due;
                &&& #[trigger] call_ensures(
                    share,
                    (old(fader).delta_level, old(fader).ticks, final(fader).tick),
                    due,
                )
                &&& 0 <= sum <= 100 ==> *final(level) == sum
                &&& sum < 0 ==> *final(level) == 0
                &&& sum > 100 ==> *final(level) == 100
            },
{
}

/// A step at which a given part of the change is due takes the level to where the fade started from
/// and that part, or the whole change at the last step.
pub proof fn law_step_takes_a_given_part(
    fader: &mut Fader<u8, i8>,
    level: &mut u8,
    current_delta: i8,
    changed: bool,
)
    requires
        old(fader).active,
        old(fader).tick < u32::MAX,
        old(fader).initial_level <= 100,
        call_ensures(Fader::<u8, i8>::tick_by, (fader, level, current_delta), changed),
    ensures
        changed <==> *final(level) != *old(level),
        final(fader).tick == old(fader).tick + 1,
        final(fader).active <==> final(fader).tick < old(fader).ticks,
        ({
            let due = if final(fader).active {
                current_delta
            } else {
                old(fader).delta_level
            };
            let sum = old(fader).initial_level + due;
            &&& 0 <= sum <= 100 ==> *final(level) == sum
            &&& sum < 0 ==> *final(level) == 0
            &&& sum > 100 ==> *final(level) == 100
        }),
        final(fader).initial_level == old(fader).initial_level,
        final(fader).delta_level == old(fader).delta_level,
        final(fader).ticks == old(fader).ticks,
{
}

/// A fractional fade starts with the first of its steps, from the level at the time, to the one
/// that it is for and by what `difference` gives between them. There are as many steps as whole
/// tens of milliseconds fit into the duration, of which at most 2^32 - 1 milliseconds count.
pub proof fn law_fractional_fade_starts_from_the_level<V: Copy, M: Fn(V, V) -> V>(
    fader: &mut Fader<V, Change<V>>,
    current_level: V,
    final_level: V,
    duration: Span,
    difference: &M,
)
    requires
        call_ensures(
            Fader::<V, Change<V>>::fade_float::<M>,
            (fader, current_level, final_level, duration, difference),
            (),
        ),
    ensures
        final(fader).active,
        final(fader).tick == 0,
        final(fader).initial_level == current_level,
        final(fader).delta_level.to == final_level,
        call_ensures(*difference, (current_level, final_level), final(fader).delta_level.by),
        final(fader).ticks * 10_000_000 <= duration.nanos,
        final(fader).ticks * 10 <= u32::MAX,
        (final(fader).ticks + 1) * 10_000_000 > duration.nanos || (final(fader).ticks + 1) * 10
            > u32::MAX,
{
}

/// A step of a fractional fade in progress counts, and the last one ends the fade, at the level
/// that the fade is for. Before it, the level is the one that `place` gives for this very step, or
/// stays where `differs` does not tell it from that one. Without a fade in progress nothing
/// changes.
pub proof fn law_fractional_step_takes_what_is_due<
    V: Copy,
    P: Fn(V, V, u32, u32, u8, u8) -> V,
    D: Fn(V, V) -> bool,
>(fader: &mut Fader<V, Change<V>>, level: &mut V, place: &P, differs: &D)
    requires
        old(fader).tick < u32::MAX,
        call_ensures(
            Fader::<V, Change<V>>::tick_float::<P, D>,
            (fader, level, place, differs),
            (),
        ),
    ensures
        final(fader).initial_level == old(fader).initial_level,
        final(fader).delta_level == old(fader).delta_level,
        final(fader).ticks == old(fader).ticks,
        !old(fader).active ==> {
            &&& !final(fader).active
            &&& final(fader).tick == old(fader).tick
            &&& *final(level) == *old(level)
        },
        old(fader).active ==> {
            &&& final(fader).tick == old(fader).tick + 1
            &&& final(fader).active <==> final(fader).tick < final(fader).ticks
        },
        old(fader).active && !final(fader).active ==> *final(level) == old(fader).delta_level.to,
        final(fader).active ==> exists|due: V|
            {
                &&& #[trigger] call_ensures(
                    *place,
                    (
                        old(fader).initial_level,
                        old(fader).delta_level.by,
                        old(fader).ticks,
                        final(fader).tick,
                        0,
                        100,
                    ),
                    due,
                )
                &&& *final(level) == due || (*final(level) == *old(level) && call_ensures(
                    *differs,
                    (*old(level), due),
                    false,
                ))
            },
{
}

/// A fade is in progress as long as it was asked to take: at least until its first step, and before
/// each step of ten milliseconds that fits into its duration.
pub proof fn law_fade_lasts_as_long_as_asked_for<Level, Delta>(
    initial_level: Level,
    delta_level: Delta,
    duration: Span,
    steps: nat,
)
    ensures
        after_steps(Fader::started(initial_level, delta_level, duration), steps).active <==> steps
            == 0 || ((steps + 1) * 10_000_000 <= duration.nanos && (steps + 1) * 10 <= u32::MAX),
{
    law_fade_is_active_until_its_end(Fader::started(initial_level, delta_level, duration), steps);
}

/// After each step of a fade but the last, the level is where the fade started from and what
/// `share` gives for this very step, kept from 0 to 100.
pub proof fn law_level_is_due_at_each_step<F: Fn(i8, u32, u32) -> i8>(
    current_level: u8,
    final_level: u8,
    duration: Span,
    share: F,
    levels: Seq<u8>,
    step: nat,
) -> (due: i8)
    requires
        current_level <= 100,
        final_level <= 100,
        is_run(fade_of(current_level, final_level, duration), share, levels),
        0 < step < levels.len(),
        (step + 1) * 10_000_000 <= duration.nanos,
        (step + 1) * 10 <= u32::MAX,
    ensures
        call_ensures(
            share,
            (
                (final_level - current_level) as i8,
                fade_of(current_level, final_level, duration).ticks,
                step as u32,
            ),
            due,
        ),
        0 <= current_level + due <= 100 ==> levels[step as int] == current_level + due,
        current_level + due < 0 ==> levels[step as int] == 0,
        current_level + due > 100 ==> levels[step as int] == 100,
{
    let fader = fade_of(current_level, final_level, duration);
    lemma_after_steps(fader, (step - 1) as nat);
    assert(run_steps(fader, share, levels, step - 1));
    choose|due: i8| #[trigger]
        call_ensures(share, (fader.delta_level, fader.ticks, step as u32), due)
            && levels[step as int] == level_at(current_level, due)
}

/// After each step of a fractional fade but the last, the level is the one that `place` gives for
/// this very step, or stays where `differs` does not tell it from that one.
pub proof fn law_fractional_level_is_due_at_each_step<
    V,
    P: Fn(V, V, u32, u32, u8, u8) -> V,
    D: Fn(V, V) -> bool,
>(
    fader: Fader<V, Change<V>>,
    place: P,
    differs: D,
    levels: Seq<V>,
    step: nat,
) -> (due: V)
    requires
        fader.active,
        fader.tick == 0,
        forall|i: int|
            0 <= i < levels.len() - 1 ==> #[trigger] float_run_steps(
                fader,
                place,
                differs,
                levels,
                i,
            ),
        0 < step < fader.ticks,
        step < levels.len(),
    ensures
        call_ensures(
            place,
            (fader.initial_level, fader.delta_level.by, fader.ticks, step as u32, 0, 100),
            due,
        ),
        levels[step as int] == due || (levels[step as int] == levels[step - 1] && call_ensures(
            differs,
            (levels[step - 1], due),
            false,
        )),
{
    lemma_after_steps(fader, (step - 1) as nat);
    assert(float_run_steps(fader, place, differs, levels, step - 1));
    let now = after_steps(fader, (step - 1) as nat);
    let (due, differ) = choose|due: V, differ: bool|
        {
            &&& #[trigger] call_ensures(
                place,
                (
                    now.initial_level,
                    now.delta_level.by,
                    now.ticks,
                    (now.tick + 1) as u32,
                    MIN_LEVEL,
                    MAX_LEVEL,
                ),
                due,
            )
            &&& #[trigger] call_ensures(differs, (levels[step - 1], due), differ)
            &&& levels[step as int] == if differ {
                due
            } else {
                levels[step - 1]
            }
        };
    due
}

/// A fractional fade moves one way only, from where it starts to the level that it is for, where
/// `precedes` is an order in which `place` gives levels in between, later ones for later steps, and
/// in which `differs` misses no difference.
pub proof fn law_fractional_fade_moves_one_way<
    V,
    P: Fn(V, V, u32, u32, u8, u8) -> V,
    D: Fn(V, V) -> bool,
>(
    fader: Fader<V, Change<V>>,
    place: P,
    differs: D,
    precedes: spec_fn(V, V) -> bool,
    levels: Seq<V>,
    i: nat,
    j: nat,
)
    requires
        fader.active,
        fader.tick == 0,
        levels.len() > 0,
        levels[0] == fader.initial_level,
        forall|k: int|
            0 <= k < levels.len() - 1 ==> #[trigger] float_run_steps(
                fader,
                place,
                differs,
                levels,
                k,
            ),
        forall|a: V| #[trigger] precedes(a, a),
        forall|a: V, b: V, c: V| #[trigger]
            precedes(a, b) && #[trigger] precedes(b, c) ==> precedes(a, c),
        precedes(fader.initial_level, fader.delta_level.to),
        forall|a: V, b: V| #[trigger]
            call_ensures(differs, (a, b), false) ==> precedes(a, b) && precedes(b, a),
        forall|step: u32, due: V|
            0 < step < fader.ticks && #[trigger] call_ensures(
                place,
                (fader.initial_level, fader.delta_level.by, fader.ticks, step, 0, 100),
                due,
            ) ==> precedes(fader.initial_level, due) && precedes(due, fader.delta_level.to),
        forall|step: u32, later: u32, due: V, due_later: V|
            0 < step <= later < fader.ticks && #[trigger] call_ensures(
                place,
                (fader.initial_level, fader.delta_level.by, fader.ticks, step, 0, 100),
                due,
            ) && #[trigger] call_ensures(
                place,
                (fader.initial_level, fader.delta_level.by, fader.ticks, later, 0, 100),
                due_later,
            ) ==> precedes(due, due_later),
        i <= j < levels.len(),
    ensures
        precedes(fader.initial_level, levels[i as int]),
        precedes(levels[i as int], levels[j as int]),
        precedes(levels[j as int], fader.delta_level.to),
{
    if i >= fader.remaining() {
        law_fractional_fade_reaches_its_goal(fader, place, differs, levels, i);
    }
    if j >= fader.remaining() {
        law_fractional_fade_reaches_its_goal(fader, place, differs, levels, j);
    }
    if 0 < i < fader.remaining() {
        let due = law_fractional_level_is_due_at_each_step(fader, place, differs, levels, i);
        assert(precedes(levels[i as int], due) && precedes(due, levels[i as int]));
    }
    if 0 < j < fader.remaining() {
        let due = law_fractional_level_is_due_at_each_step(fader, place, differs, levels, j);
        assert(precedes(levels[j as int], due) && precedes(due, levels[j as int]));
        if 0 < i {
            let first = law_fractional_level_is_due_at_each_step(fader, place, differs, levels, i);
            assert(precedes(first, due));
            assert(precedes(levels[i as int], due));
        }
    }
}

/// After all its steps, and from then on, a fade is at the level that it is for: all its steps have
/// been taken once as many tens of milliseconds have passed as fit into its duration, and at least
/// one.
pub proof fn law_fade_is_over_after_its_duration<F: Fn(i8, u32, u32) -> i8>(
    current_level: u8,
    final_level: u8,
    duration: Span,
    share: F,
    levels: Seq<u8>,
    steps: nat,
)
    requires
        current_level <= 100,
        final_level <= 100,
        is_run(fade_of(current_level, final_level, duration), share, levels),
        0 < steps < levels.len(),
        (steps + 1) * 10_000_000 > duration.nanos || (steps + 1) * 10 > u32::MAX,
    ensures
        levels[steps as int] == final_level,
{
    law_fade_reaches_its_goal(current_level, final_level, duration, share, levels, steps);
}

/// A level counts as the signed number of eight bits that it is: it differs from that by a multiple
/// of 256. Whatever is due is added to that, and the sum is kept from 0 to 100.
pub proof fn law_levels_count_as_signed(level: u8, due: i8)
    ensures
        -128 <= signed(level) <= 127,
        (level - signed(level)) % 256 == 0,
        0 <= signed(level) + due <= 100 ==> level_at(level, due) == signed(level) + due,
        signed(level) + due < 0 ==> level_at(level, due) == 0,
        signed(level) + due > 100 ==> level_at(level, due) == 100,
{
}

} // verus!
