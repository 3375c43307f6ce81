use crate::CORE_CLOCK_FREQ;
use vstd::prelude::*;

verus! {

/// The buzzer's timer as plain values: the timer ticks left before the pin toggles, how many
/// ticks make a toggle, the toggles left (none: until stopped), the pin's level, and whether
/// the timer runs.
#[derive(Clone, Copy, Debug, PartialEq, Eq, Structural)]
pub struct ToneState {
    pub cycles_left: u8,
    pub cycles_per_toggle: u8,
    pub toggles_left: Option<u64>,
    pub pin_high: bool,
    pub enabled: bool,
}

/// What the timer is set up with for a tone: its clock divider (1 or 2), the power of two of
/// ticks per toggle, the compare value, and the toggles to make (none: until stopped).
#[derive(Clone, Copy, Debug, PartialEq, Eq, Structural)]
pub struct TimerSetup {
    pub clock_divider: u8,
    pub division_factor: u8,
    pub compare_value: u16,
    pub toggle_count: Option<u64>,
}

/// The buzzer after it is stopped: the pin low, no toggles left, the timer off.
pub open spec fn stopped(s: ToneState) -> ToneState {
    ToneState { pin_high: false, toggles_left: None, enabled: false, ..s }
}

/// The buzzer after one tick of its timer: every `cycles_per_toggle` ticks the pin toggles and
/// one toggle is used up (wrapping below 0, as the device's counter does); with none left the
/// buzzer stops.
pub open spec fn tick_step(s: ToneState) -> ToneState {
    let c = (s.cycles_left - 1) as u8;
    if c == 0 {
        let s1 = ToneState { cycles_left: s.cycles_per_toggle, pin_high: !s.pin_high, ..s };
        match s.toggles_left {
            Some(t) => {
                let t1 = t.wrapping_sub(1);
                if t1 == 0 {
                    stopped(s1)
                } else {
                    ToneState { toggles_left: Some(t1), ..s1 }
                }
            },
            None => s1,
        }
    } else {
        ToneState { cycles_left: c, ..s }
    }
}

impl ToneState {
    /// A silent buzzer with its timer off.
    pub fn new() -> (r: Self)
        ensures
            r == (ToneState {
                cycles_left: 0,
                cycles_per_toggle: 0,
                toggles_left: None,
                pin_high: false,
                enabled: false,
            }),
    {
        ToneState {
            cycles_left: 0,
            cycles_per_toggle: 0,
            toggles_left: None,
            pin_high: false,
            enabled: false,
        }
    }

    /// Starts the timer: the pin low, `2^division_factor` ticks per toggle, `toggle_count`
    /// toggles to make. The clock divider and compare value go to the timer itself.
    pub fn enable(
        &mut self,
        clock_divider: u8,
        division_factor: u8,
        compare_value: u16,
        toggle_count: Option<u64>,
    )
        requires
            division_factor < 8,
        ensures
            *final(self) == (ToneState {
                cycles_left: final(self).cycles_per_toggle,
                cycles_per_toggle: final(self).cycles_per_toggle,
                toggles_left: toggle_count,
                pin_high: false,
                enabled: true,
            }),
            final(self).cycles_per_toggle as nat == crate::modes::tunnel::pow2_7(
                division_factor as nat,
            ),
    {
        self.pin_high = false;
        self.toggles_left = toggle_count;
        self.cycles_per_toggle = 1u8 << division_factor;
        proof {
            lemma_shift_pow2(division_factor);
        }
        self.cycles_left = self.cycles_per_toggle;
        self.enabled = true;
    }

    /// Stops the timer (see `stopped`).
    pub fn disable(&mut self)
        ensures
            *final(self) == stopped(*old(self)),
    {
        self.pin_high = false;
        self.toggles_left = None;
        self.enabled = false;
    }

    /// One tick of the timer (see `tick_step`).
    pub fn int_tick(&mut self)
        requires
            old(self).cycles_left >= 1,
            old(self).cycles_per_toggle >= 1,
        ensures
            *final(self) == tick_step(*old(self)),
            final(self).cycles_left >= 1,
            final(self).cycles_per_toggle >= 1,
    {
        self.cycles_left = self.cycles_left - 1;
        if self.cycles_left == 0 {
            self.cycles_left = self.cycles_per_toggle;
            self.pin_high = !self.pin_high;
            if let Some(toggles_left) = self.toggles_left {
                let toggles_left = toggles_left.wrapping_sub(1);
                if toggles_left == 0 {
                    self.disable();
                } else {
                    self.toggles_left = Some(toggles_left);
                }
            }
        }
    }
}

/// `1 << d` is `2^d` for the division factors.
proof fn lemma_shift_pow2(d: u8)
    requires
        d < 8,
    ensures
        (1u8 << d) as nat == crate::modes::tunnel::pow2_7(d as nat),
{
    reveal_with_fuel(crate::modes::tunnel::pow2_7, 9);
    if d == 0 {
        assert(1u8 << 0u8 == 1u8) by (bit_vector);
    } else if d == 1 {
        assert(1u8 << 1u8 == 2u8) by (bit_vector);
    } else if d == 2 {
        assert(1u8 << 2u8 == 4u8) by (bit_vector);
    } else if d == 3 {
        assert(1u8 << 3u8 == 8u8) by (bit_vector);
    } else if d == 4 {
        assert(1u8 << 4u8 == 16u8) by (bit_vector);
    } else if d == 5 {
        assert(1u8 << 5u8 == 32u8) by (bit_vector);
    } else if d == 6 {
        assert(1u8 << 6u8 == 64u8) by (bit_vector);
    } else {
        assert(1u8 << 7u8 == 128u8) by (bit_vector);
    }
}

/// Half the timer ticks of a period of `frequency`, at the core clock.
pub open spec fn base_compare(frequency: u32) -> nat {
    (CORE_CLOCK_FREQ as nat / frequency as nat) / 2
}

/// The compare value halved, and the division factor raised, while the value is above
/// `0x10000` and the factor below 6.
pub open spec fn scaled(c: nat, df: nat) -> (nat, nat)
    decreases 6 - df,
{
    if c > 0x10000 && df < 6 {
        scaled(c / 2, df + 1)
    } else {
        (c, df)
    }
}

/// How the timer is set up for a tone of `frequency` Hz lasting `duration` ms (0: until
/// stopped): a compare value that fits 16 bits takes the undivided clock and two ticks per
/// toggle; a larger one takes the clock divided by 2 and is halved, doubling the ticks per
/// toggle, up to 64 ticks; one less, at most `0xFFFF`, is the compare value. A tone of limited
/// length toggles `frequency * duration / 500` times.
pub open spec fn tone_timer(frequency: u32, duration: u32) -> TimerSetup {
    let c0 = base_compare(frequency);
    let (clock_divider, df0) = if c0 < 0x10000 {
        (1u8, 1nat)
    } else {
        (2u8, 0nat)
    };
    let (c, df) = scaled(c0, df0);
    TimerSetup {
        clock_divider,
        division_factor: df as u8,
        compare_value: if c - 1 > 0xFFFF {
            0xFFFFu16
        } else {
            (c - 1) as u16
        },
        toggle_count: if duration > 0 {
            Some((frequency as nat * duration as nat / 500) as u64)
        } else {
            None
        },
    }
}

/// The timer set-up for a tone (see `tone_timer`).
pub fn timer_setup(frequency: u32, duration: u32) -> (r: TimerSetup)
    requires
        0 < frequency <= 5_000_000,
    ensures
        r == tone_timer(frequency, duration),
        r.division_factor <= 6,
{
    assert(frequency as u64 * duration as u64 <= u64::MAX) by (nonlinear_arith);
    let toggle_count = if duration > 0 {
        Some(frequency as u64 * duration as u64 / 500)
    } else {
        None
    };
    let mut division_factor = 1u8;
    let periods = CORE_CLOCK_FREQ / frequency;
    let mut compare_value = periods >> 1u32;
    assert((periods >> 1u32) == periods / 2) by (bit_vector);
    let clock_divider: u8 = if compare_value < 0x0001_0000 {
        1
    } else {
        division_factor = division_factor - 1;
        2
    };
    let ghost c0 = compare_value as nat;
    let ghost df0 = division_factor as nat;
    assert(compare_value >= 1) by (nonlinear_arith)
        requires
            compare_value == periods / 2,
            periods == CORE_CLOCK_FREQ / frequency,
            0 < frequency <= 5_000_000,
            CORE_CLOCK_FREQ == 10_000_000,
    ;
    while compare_value > 0x0001_0000 && division_factor < 6
        invariant
            division_factor <= 6,
            compare_value >= 1,
            scaled(compare_value as nat, division_factor as nat) == scaled(c0, df0),
        decreases 6 - division_factor,
    {
        let c = compare_value;
        compare_value = compare_value >> 1u32;
        assert((c >> 1u32) == c / 2) by (bit_vector);
        division_factor = division_factor + 1;
    }
    compare_value = compare_value - 1;
    if compare_value > 0x0000_FFFF {
        compare_value = 0x0000_FFFF;
    }
    TimerSetup {
        clock_divider,
        division_factor,
        compare_value: compare_value as u16,
        toggle_count,
    }
}

/// The buzzer.
pub struct Tone {
    pub state: ToneState,
}

impl Tone {
    /// A silent buzzer.
    pub fn new() -> (r: Self)
        ensures
            r.state == (ToneState {
                cycles_left: 0,
                cycles_per_toggle: 0,
                toggles_left: None,
                pin_high: false,
                enabled: false,
            }),
    {
        Tone { state: ToneState::new() }
    }

    /// Sounds `frequency` Hz for `duration` ms (0: until stopped), or stops the buzzer for a
    /// frequency of 0. Gives how to set up the timer for the tone (none when it stops).
    pub fn tone(&mut self, frequency: u32, duration: u32) -> (r: Option<TimerSetup>)
        requires
            frequency <= 5_000_000,
        ensures
            frequency == 0 ==> r is None && final(self).state == stopped(old(self).state),
            frequency > 0 ==> {
                let t = tone_timer(frequency, duration);
                &&& r == Some(t)
                &&& final(self).state.toggles_left == t.toggle_count
                &&& final(self).state.cycles_per_toggle as nat == crate::modes::tunnel::pow2_7(
                    t.division_factor as nat,
                )
                &&& final(self).state.cycles_left == final(self).state.cycles_per_toggle
                &&& !final(self).state.pin_high
                &&& final(self).state.enabled
            },
    {
        if frequency == 0 {
            self.no_tone();
            return None;
        }
        let setup = timer_setup(frequency, duration);
        self.state.enable(
            setup.clock_divider,
            setup.division_factor,
            setup.compare_value,
            setup.toggle_count,
        );
        Some(setup)
    }

    /// Stops the buzzer.
    pub fn no_tone(&mut self)
        ensures
            final(self).state == stopped(old(self).state),
    {
        self.state.disable();
    }
}

} // verus!
