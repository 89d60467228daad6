//! The audio state machine that the periodic timer interrupt drives.
//!
//! Every tick the handler applies the waveform preset of its current cycle
//! position to the speaker, watches the shared speaker-off flag, and — once
//! the flag is observed true — shuts the speaker and the timer's counter
//! down for good. The cycle position advances 0 → 1 → 2 → 0 after 5, 8 and
//! 20 ticks respectively. The machine here computes what each tick decides;
//! the driver pokes the peripherals with the returned action.

use vstd::prelude::*;

verus! {

/// Ticks spent in each cycle position before it advances.
pub open spec fn cycle_ticks(cycle: int) -> int {
    if cycle == 0 {
        5
    } else if cycle == 1 {
        8
    } else {
        20
    }
}

/// The mathematical state of the handler: the cycle position in [0, 2],
/// the ticks spent in it so far, and whether the machine has shut down.
pub ghost struct AudioModel {
    pub cycle: int,
    pub ticks: int,
    pub done: bool,
}

impl AudioModel {
    pub open spec fn wf(self) -> bool {
        &&& 0 <= self.cycle < 3
        &&& 0 <= self.ticks < cycle_ticks(self.cycle)
    }
}

/// The state the handler starts in: cycle position zero, no ticks spent,
/// not shut down.
pub open spec fn initial_audio() -> AudioModel {
    AudioModel { cycle: 0, ticks: 0, done: false }
}

/// One tick of the handler, given the speaker-off flag it observes. A
/// shut-down machine never changes again (the timer's counter is disabled,
/// so in the device no further tick even fires). Otherwise the tick count
/// rises, the cycle position advances modulo three once the count reaches
/// the position's share of ticks, and an observed off flag shuts the
/// machine down.
pub open spec fn tick_model(m: AudioModel, speaker_off: bool) -> AudioModel {
    if m.done {
        m
    } else if m.ticks + 1 >= cycle_ticks(m.cycle) {
        AudioModel { cycle: (m.cycle + 1) % 3, ticks: 0, done: speaker_off }
    } else {
        AudioModel { cycle: m.cycle, ticks: m.ticks + 1, done: speaker_off }
    }
}

/// The state after `n` ticks on which the off flag was never raised.
pub open spec fn run_quiet_ticks(m: AudioModel, n: nat) -> AudioModel
    decreases n,
{
    if n == 0 {
        m
    } else {
        tick_model(run_quiet_ticks(m, (n - 1) as nat), false)
    }
}

/// The state after one tick per entry of `offs`, each entry the off flag
/// that tick observed.
pub open spec fn run_ticks_over(m: AudioModel, offs: Seq<bool>) -> AudioModel
    decreases offs.len(),
{
    if offs.len() == 0 {
        m
    } else {
        run_ticks_over(tick_model(m, offs[0]), offs.drop_first())
    }
}

/// One waveform preset: the clock divider, the waveform's frequency, and
/// the divisor of the maximum duty cycle that sets the duty fraction.
#[derive(Clone, Copy, Debug, PartialEq, Eq, Structural)]
pub struct AudioPreset {
    pub clock_divider: u16,
    pub period_hz: u16,
    pub duty_divisor: u8,
}

/// The preset each cycle position applies: a low tone at quarter duty, a
/// mid tone at quarter duty, then a higher tone at eighth duty.
pub open spec fn preset_spec(cycle: int) -> AudioPreset {
    if cycle == 0 {
        AudioPreset { clock_divider: 128, period_hz: 2, duty_divisor: 4 }
    } else if cycle == 1 {
        AudioPreset { clock_divider: 128, period_hz: 80, duty_divisor: 4 }
    } else {
        AudioPreset { clock_divider: 64, period_hz: 400, duty_divisor: 8 }
    }
}

/// What the driver must do to the hardware after one tick: apply `preset`
/// to the waveform generator and, when `shutdown` is set, disable the
/// speaker and the timer's counter in the same invocation. Acknowledging
/// the tick interrupt is the driver's own unconditional duty.
pub struct TickAction {
    pub preset: AudioPreset,
    pub shutdown: bool,
}

/// The handler's live state, persisting across interrupt invocations.
pub struct AudioState {
    /// The cycle position, in [0, 2].
    pub cycle: u8,
    /// Ticks spent in the current cycle position.
    pub ticks: u8,
    /// Whether the machine has shut the speaker and timer down.
    pub done: bool,
}

impl AudioState {
    /// The mathematical state this value holds.
    pub open spec fn model(self) -> AudioModel {
        AudioModel { cycle: self.cycle as int, ticks: self.ticks as int, done: self.done }
    }

    pub open spec fn wf(self) -> bool {
        self.model().wf()
    }

    /// The state the handler is installed with.
    pub fn new() -> (s: AudioState)
        ensures
            s.wf(),
            s.model() == initial_audio(),
    {
        AudioState { cycle: 0, ticks: 0, done: false }
    }

    /// The waveform preset of the current cycle position.
    pub fn current_preset(&self) -> (p: AudioPreset)
        requires
            self.wf(),
        ensures
            p == preset_spec(self.model().cycle),
    {
        if self.cycle == 0 {
            AudioPreset { clock_divider: 128, period_hz: 2, duty_divisor: 4 }
        } else if self.cycle == 1 {
            AudioPreset { clock_divider: 128, period_hz: 80, duty_divisor: 4 }
        } else {
            AudioPreset { clock_divider: 64, period_hz: 400, duty_divisor: 8 }
        }
    }

    /// One timer tick: decides the preset to apply (the current cycle
    /// position's), whether to shut the speaker and timer down (exactly
    /// when the off flag is first observed), and advances the state as
    /// `tick_model` states. On a machine already shut down nothing
    /// changes and no action is owed.
    pub fn on_tick(&mut self, speaker_off: bool) -> (a: TickAction)
        requires
            old(self).wf(),
        ensures
            final(self).wf(),
            final(self).model() == tick_model(old(self).model(), speaker_off),
            a.preset == preset_spec(old(self).model().cycle),
            a.shutdown == (!old(self).done && speaker_off),
    {
        let preset = self.current_preset();
        if self.done {
            return TickAction { preset, shutdown: false };
        }
        let shutdown = speaker_off;
        self.done = speaker_off;
        let limit: u8 = if self.cycle == 0 {
            5
        } else if self.cycle == 1 {
            8
        } else {
            20
        };
        self.ticks = self.ticks + 1;
        if self.ticks >= limit {
            self.ticks = 0;
            self.cycle = (self.cycle + 1) % 3;
        }
        TickAction { preset, shutdown }
    }
}

/// Law: running ticks splits — the state after `a + b` quiet ticks is the
/// state after `b` quiet ticks from the state after `a`.
pub proof fn lemma_quiet_ticks_add(m: AudioModel, a: nat, b: nat)
    ensures
        run_quiet_ticks(m, a + b) == run_quiet_ticks(run_quiet_ticks(m, a), b),
    decreases b,
{
    if b > 0 {
        lemma_quiet_ticks_add(m, a, (b - 1) as nat);
    }
}

/// Law: from the start of a cycle position, while the off flag stays
/// false, the position holds for exactly its share of ticks — `n` ticks
/// short of the share leave the position unchanged with `n` ticks spent,
/// and the share-th tick advances the position modulo three with the
/// count back at zero.
pub proof fn lemma_cycle_advance(m: AudioModel, n: nat)
    requires
        m.wf(),
        !m.done,
        m.ticks == 0,
        n <= cycle_ticks(m.cycle),
    ensures
        n < cycle_ticks(m.cycle) ==> run_quiet_ticks(m, n) == (AudioModel {
            cycle: m.cycle,
            ticks: n as int,
            done: false,
        }),
        n == cycle_ticks(m.cycle) ==> run_quiet_ticks(m, n) == (AudioModel {
            cycle: (m.cycle + 1) % 3,
            ticks: 0,
            done: false,
        }),
    decreases n,
{
    if n > 0 {
        lemma_cycle_advance(m, (n - 1) as nat);
    }
}

/// Law: from its starting state, while the off flag stays false, the
/// cycle position runs 0 → 1 → 2 → 0 after exactly 5, then 8, then 20
/// ticks, and after those 33 ticks the machine is back in its starting
/// state — so the pattern repeats indefinitely.
pub proof fn lemma_audio_period()
    ensures
        run_quiet_ticks(initial_audio(), 5) == (AudioModel { cycle: 1, ticks: 0, done: false }),
        run_quiet_ticks(initial_audio(), 13) == (AudioModel { cycle: 2, ticks: 0, done: false }),
        run_quiet_ticks(initial_audio(), 33) == initial_audio(),
{
    let m0 = initial_audio();
    let m1 = AudioModel { cycle: 1, ticks: 0, done: false };
    let m2 = AudioModel { cycle: 2, ticks: 0, done: false };
    lemma_cycle_advance(m0, 5);
    lemma_cycle_advance(m1, 8);
    lemma_cycle_advance(m2, 20);
    lemma_quiet_ticks_add(m0, 5, 8);
    lemma_quiet_ticks_add(m0, 13, 20);
}

/// Law: the shutdown is terminal and idempotent — a tick that observes
/// the off flag shuts the machine down, and a shut-down machine never
/// changes again, whatever later ticks would observe.
pub proof fn lemma_shutdown_terminal(m: AudioModel, offs: Seq<bool>)
    requires
        m.done,
    ensures
        run_ticks_over(m, offs) == m,
    decreases offs.len(),
{
    if offs.len() > 0 {
        lemma_shutdown_terminal(m, offs.drop_first());
    }
}

/// Law: a tick that observes the off flag leaves the machine shut down.
pub proof fn lemma_off_observed(m: AudioModel)
    ensures
        tick_model(m, true).done,
{
}

} // verus!
