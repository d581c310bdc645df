//! The audio processing unit: two square channels (the first with a frequency
//! sweep), a wave channel and a noise channel, with envelopes, length timers,
//! the DIV-APU sequencer and stereo routing. Samples are produced as integer
//! mix levels, 0 to `MAX_LEVEL` per side, interleaved left and right.
use vstd::prelude::*;

use crate::memory::{BusView, MemoryBus, lemma_plain_write_frame, lemma_plain_write_read};

verus! {

/// The loudest mix level of one side: three channels at volume 15 with the
/// master volume at 7 (15 * 8 * 3).
pub const MAX_LEVEL: u16 = 360;

/// A sample is taken every `SAMPLE_PERIOD` clock cycles (4 MHz / 44.1 kHz).
pub const SAMPLE_PERIOD: u64 = 95;

#[derive(Clone, Copy, Debug)]
pub struct EnvelopeState {
    pub volume: u8,
    pub env_timer: u8,
    pub env_period: u8,
    pub env_direction: bool,
}

#[derive(Clone, Copy, Debug)]
pub struct SweepState {
    pub sweep_timer: u16,
    pub sweep_direction: bool,
    pub sweep_shift: u8,
    pub sweep_frec: u16,
    pub sweep_pace: u8,
}

#[derive(Clone, Copy, Debug)]
pub struct SquareChannel {
    pub active: bool,
    pub timer: u32,
    pub frequency: u16,
    pub duty: u8,
    pub duty_pos: u8,
    pub length_timer: u8,
    pub length_enable: bool,
    pub sweep: Option<SweepState>,
    pub envelope: EnvelopeState,
}

#[derive(Clone, Copy, Debug)]
pub struct WaveChannel {
    pub active: bool,
    pub timer: u32,
    pub sample_pos: u8,
    pub volume: u8,  // 1, 2, 4
    pub length_timer: u8,
}

#[derive(Clone, Copy, Debug)]
pub struct NoiseChannel {
    pub active: bool,
    pub timer: u32,
    pub timer_period: u32,
    pub lfsr: u16,
    pub short_mode: bool,  //whether lfsr uses 7 or 15 bits
    pub length_timer: u8,
    pub length_enable: bool,
    pub envelope: EnvelopeState,
}

#[derive(Clone, Copy, Debug)]
pub struct Panning {
    pub left: bool,
    pub right: bool,
}

#[derive(Clone, Copy, Debug)]
pub struct ChannelRouting {
    pub channel_1: Panning,
    pub channel_2: Panning,
    pub channel_3: Panning,
    pub channel_4: Panning,
}

// ----------------------------------------------------------------------------
// The model of the channels
// ----------------------------------------------------------------------------

/// One envelope step (every eighth DIV-APU tick): when the period is not 0,
/// the timer counts down and on reaching 0 reloads and moves the volume one
/// step up (to at most 15) or down (to at least 0).
pub open spec fn envelope_step(e: EnvelopeState) -> EnvelopeState {
    if e.env_period == 0 {
        e
    } else {
        let t = if e.env_timer > 0 {
            (e.env_timer - 1) as u8
        } else {
            e.env_timer
        };
        if t == 0 {
            EnvelopeState {
                env_timer: e.env_period,
                volume: if e.env_direction {
                    if e.volume < 15 {
                        (e.volume + 1) as u8
                    } else {
                        15
                    }
                } else {
                    if e.volume > 0 {
                        (e.volume - 1) as u8
                    } else {
                        0
                    }
                },
                ..e
            }
        } else {
            EnvelopeState { env_timer: t, ..e }
        }
    }
}

/// One length step: an enabled length timer counts down and silences the
/// channel when it reaches 0.
pub open spec fn length_step(ch: SquareChannel) -> SquareChannel {
    if ch.length_enable {
        let t = if ch.length_timer > 0 {
            (ch.length_timer - 1) as u8
        } else {
            0
        };
        SquareChannel { length_timer: t, active: if t == 0 {
            false
        } else {
            ch.active
        }, ..ch }
    } else {
        ch
    }
}

/// The frequency the sweep unit computes from its shadow frequency.
pub open spec fn sweep_target(sweep: SweepState) -> int {
    if sweep.sweep_direction {
        sweep.sweep_frec - (sweep.sweep_frec >> sweep.sweep_shift)
    } else {
        sweep.sweep_frec + (sweep.sweep_frec >> sweep.sweep_shift)
    }
}

/// One sweep step of channel 1: the sweep timer reloads or counts down; with
/// a nonzero shift the new frequency is computed, kept as the shadow
/// frequency below 2047, applied up to 2047, and above 2047 the channel is
/// silenced.
pub open spec fn sweep_step(ch: SquareChannel) -> SquareChannel {
    match ch.sweep {
        Some(sweep) => {
            let timer = if sweep.sweep_timer == 0 {
                sweep.sweep_pace as u16
            } else {
                (sweep.sweep_timer - 1) as u16
            };
            if sweep.sweep_shift > 0 {
                let new_freq = sweep_target(sweep);
                let frec = if new_freq < 2047 {
                    new_freq as u16
                } else {
                    sweep.sweep_frec
                };
                let ch1 = SquareChannel {
                    sweep: Some(SweepState { sweep_timer: timer, sweep_frec: frec, ..sweep }),
                    ..ch
                };
                if new_freq > 2047 {
                    SquareChannel { active: false, ..ch1 }
                } else {
                    SquareChannel { frequency: new_freq as u16, ..ch1 }
                }
            } else {
                SquareChannel { sweep: Some(SweepState { sweep_timer: timer, ..sweep }), ..ch }
            }
        },
        None => ch,
    }
}

/// The duty pattern of wave duty code `d`: 1, 2, 4 and 6 high steps of 8
/// (12.5%, 25%, 50%, 75%).
pub open spec fn duty_pattern(d: u8) -> u8 {
    if d == 0 {
        0b00000001
    } else if d == 1 {
        0b10000001
    } else if d == 2 {
        0b10000111
    } else {
        0b01111110
    }
}

/// A square channel after its registers NRx1 (duty), NRx3 (frequency low) and
/// NRx4 (frequency high, length enable) are read.
pub open spec fn update_square(ch: SquareChannel, nr1: u8, nr3: u8, nr4: u8) -> SquareChannel {
    SquareChannel {
        frequency: ((nr4 % 8) * 256 + nr3) as u16,
        length_enable: nr4 & 0b01000000 != 0,
        duty: duty_pattern(nr1 / 64),
        ..ch
    }
}

/// The envelope loaded from an NRx2 register.
pub open spec fn envelope_from(e: EnvelopeState, nr2: u8) -> EnvelopeState {
    EnvelopeState {
        volume: nr2 / 16,
        env_direction: nr2 & 0b00001000 != 0,
        env_timer: nr2 % 8,
        env_period: nr2 % 8,
    }
}

/// A square channel after a trigger with envelope register `nr2`.
pub open spec fn trigger_square(ch: SquareChannel, nr2: u8) -> SquareChannel {
    SquareChannel {
        active: true,
        envelope: envelope_from(ch.envelope, nr2),
        timer: ((2048 - ch.frequency) * 4) as u32,
        duty_pos: 0,
        ..ch
    }
}

/// The sweep unit after NR10 is read.
pub open spec fn sweep_loaded(sweep: SweepState, nr10: u8) -> SweepState {
    SweepState {
        sweep_timer: ((nr10 / 16) % 8) as u16,
        sweep_direction: nr10 & 0b00001000 != 0,
        sweep_shift: nr10 % 8,
        sweep_pace: (nr10 / 16) % 8,
        ..sweep
    }
}

/// A square channel after `cycles` clock cycles: when the timer runs out the
/// duty position advances and the timer reloads from the frequency.
pub open spec fn square_tick(ch: SquareChannel, cycles: u32) -> SquareChannel {
    let t = if ch.timer > cycles {
        (ch.timer - cycles) as u32
    } else {
        0
    };
    if t == 0 {
        SquareChannel {
            duty_pos: ((ch.duty_pos + 1) % 8) as u8,
            timer: ((2048 - ch.frequency) * 4) as u32,
            ..ch
        }
    } else {
        SquareChannel { timer: t, ..ch }
    }
}

/// The current volume of a square channel: the envelope volume on a high
/// duty step, 0 otherwise.
pub open spec fn square_output(ch: SquareChannel) -> u8 {
    if (ch.duty >> ch.duty_pos) & 1 != 0 {
        ch.envelope.volume
    } else {
        0
    }
}

/// The noise shift register after one clock: bits 0 and 1 are XORed into bit
/// 14 (and bit 6 in short mode) as the register shifts right.
pub open spec fn lfsr_next(lfsr: u16, short_mode: bool) -> u16 {
    let xor = (lfsr & 0b000000001) ^ (lfsr & 0b00000010) >> 1u16;
    let shifted = (lfsr >> 1u16) & !(1u16 << 14u16) | (xor << 14u16);
    if short_mode {
        shifted & !(1u16 << 6u16) | (xor << 6u16)
    } else {
        shifted
    }
}

/// The noise channel after `cycles` clock cycles.
pub open spec fn noise_tick(ch: NoiseChannel, cycles: u32) -> NoiseChannel {
    let t = if ch.timer > cycles {
        (ch.timer - cycles) as u32
    } else {
        0
    };
    if t == 0 {
        NoiseChannel { lfsr: lfsr_next(ch.lfsr, ch.short_mode), timer: ch.timer_period, ..ch }
    } else {
        NoiseChannel { timer: t, ..ch }
    }
}

/// The current volume of the noise channel: the envelope volume when bit 0 of
/// the shift register is clear.
pub open spec fn noise_output(ch: NoiseChannel) -> u8 {
    if ch.lfsr & 1 == 0 {
        ch.envelope.volume
    } else {
        0
    }
}

/// The noise channel after a trigger with NR42 (envelope) and NR43 (clock
/// shift and divisor code).
pub open spec fn trigger_noise(ch: NoiseChannel, nr2: u8, nr3: u8) -> NoiseChannel {
    let r = nr3 % 8;
    let s = nr3 / 16;
    let divisor: u32 = if r == 0 {
        8
    } else {
        (r * 16) as u32
    };
    NoiseChannel {
        active: true,
        envelope: envelope_from(ch.envelope, nr2),
        timer: divisor << s,
        timer_period: divisor << s,
        lfsr: 0x7FFF,
        ..ch
    }
}

/// The abstract state of the APU.
pub struct ApuView {
    pub active: bool,
    pub divider: u64,
    pub l_master: u8,
    pub r_master: u8,
    pub buffer: Seq<u16>,
    pub channel_1: SquareChannel,
    pub channel_2: SquareChannel,
    pub channel_3: WaveChannel,
    pub channel_4: NoiseChannel,
    pub channel_routing: ChannelRouting,
    pub div_apu: u8,
    pub last_div: u8,
}

/// The invariant of a square channel: an 11-bit frequency, a duty position
/// within the pattern and a 4-bit volume.
pub open spec fn square_wf(ch: SquareChannel) -> bool {
    &&& ch.frequency <= 2047
    &&& ch.duty_pos < 8
    &&& ch.envelope.volume <= 15
    &&& ch.sweep matches Some(sw) ==> sw.sweep_frec <= 2047 && sw.sweep_shift <= 7
}

impl ApuView {
    /// The invariant of the APU: channels within their register ranges, a
    /// 3-bit master volume per side, and a buffer of whole left/right pairs
    /// whose every level is within 0..=MAX_LEVEL.
    pub open spec fn wf(self) -> bool {
        &&& square_wf(self.channel_1)
        &&& square_wf(self.channel_2)
        &&& self.channel_4.envelope.volume <= 15
        &&& self.l_master <= 7
        &&& self.r_master <= 7
        &&& self.div_apu < 8
        &&& self.buffer.len() % 2 == 0
        &&& forall|i: int| 0 <= i < self.buffer.len() ==> #[trigger] self.buffer[i] <= MAX_LEVEL
    }

    /// The DIV-APU sequencer events of step `div_apu`: length timers on steps
    /// 0, 2, 4 and 6, the sweep on steps 2 and 6, envelopes on step 7.
    pub open spec fn div_apu_events(self) -> ApuView {
        let s = self.div_apu;
        if s == 0 || s == 4 {
            ApuView {
                channel_1: length_step(self.channel_1),
                channel_2: length_step(self.channel_2),
                ..self
            }
        } else if s == 2 || s == 6 {
            ApuView {
                channel_1: sweep_step(length_step(self.channel_1)),
                channel_2: length_step(self.channel_2),
                ..self
            }
        } else if s == 7 {
            ApuView {
                channel_1: SquareChannel {
                    envelope: envelope_step(self.channel_1.envelope),
                    ..self.channel_1
                },
                channel_2: SquareChannel {
                    envelope: envelope_step(self.channel_2.envelope),
                    ..self.channel_2
                },
                channel_4: NoiseChannel {
                    envelope: envelope_step(self.channel_4.envelope),
                    ..self.channel_4
                },
                ..self
            }
        } else {
            self
        }
    }

    /// The channel timers after `cycles` clock cycles (only active channels
    /// run).
    pub open spec fn update_timers(self, cycles: u32) -> ApuView {
        ApuView {
            divider: (self.divider + cycles) as u64,
            channel_1: if self.channel_1.active {
                square_tick(self.channel_1, cycles)
            } else {
                self.channel_1
            },
            channel_2: if self.channel_2.active {
                square_tick(self.channel_2, cycles)
            } else {
                self.channel_2
            },
            channel_3: if self.channel_3.active {
                WaveChannel {
                    timer: (if self.channel_3.timer >= cycles {
                        self.channel_3.timer - cycles
                    } else {
                        self.channel_3.timer - cycles + 0x1_0000_0000
                    }) as u32,
                    ..self.channel_3
                }
            } else {
                self.channel_3
            },
            channel_4: if self.channel_4.active {
                noise_tick(self.channel_4, cycles)
            } else {
                self.channel_4
            },
            ..self
        }
    }

    /// The level one side receives from a channel outputting `volume` when
    /// routed to it, scaled by the side's master volume.
    pub open spec fn side_level(routed: bool, volume: u8, master: u8) -> int {
        if routed {
            volume * (master + 1)
        } else {
            0
        }
    }

    /// The current left and right mix levels of channels 1, 2 and 4.
    pub open spec fn mix(self) -> (u16, u16) {
        let ch1 = if self.channel_1.active {
            square_output(self.channel_1)
        } else {
            0
        };
        let ch2 = if self.channel_2.active {
            square_output(self.channel_2)
        } else {
            0
        };
        let ch4 = if self.channel_4.active {
            noise_output(self.channel_4)
        } else {
            0
        };
        let r = self.channel_routing;
        let left = ApuView::side_level(r.channel_1.left, ch1, self.l_master) + ApuView::side_level(
            r.channel_2.left,
            ch2,
            self.l_master,
        ) + ApuView::side_level(r.channel_4.left, ch4, self.l_master);
        let right = ApuView::side_level(r.channel_1.right, ch1, self.r_master)
            + ApuView::side_level(r.channel_2.right, ch2, self.r_master) + ApuView::side_level(
            r.channel_4.right,
            ch4,
            self.r_master,
        );
        (left as u16, right as u16)
    }

    /// The APU after one stereo sample is appended to the buffer.
    pub open spec fn generate_sample(self) -> ApuView {
        ApuView { buffer: self.buffer.push(self.mix().0).push(self.mix().1), ..self }
    }
}

/// The bus byte of a sound register.
pub open spec fn reg(bus: BusView, address: u16) -> u8 {
    bus.read_at(address)
}

/// Channel 1 with its current frequency copied into the sweep unit's shadow
/// frequency, as a trigger does.
pub open spec fn shadow_loaded(c: SquareChannel) -> SquareChannel {
    SquareChannel {
        sweep: match c.sweep {
            Some(sw) => Some(SweepState { sweep_frec: c.frequency, ..sw }),
            None => None,
        },
        ..c
    }
}

/// Channel 1 and the bus after NR10-NR14 are read; a set trigger bit (NR14
/// bit 7) starts the channel, loads the sweep's shadow frequency, and is
/// cleared on the bus so that a write triggers once.
pub open spec fn channel_1_registers(c: SquareChannel, bus: BusView) -> (SquareChannel, BusView) {
    let nr10 = reg(bus, 0xFF10);
    let nr12 = reg(bus, 0xFF12);
    let nr14 = reg(bus, 0xFF14);
    let c1 = update_square(c, reg(bus, 0xFF11), reg(bus, 0xFF13), nr14);
    let trig = nr14 & 0b10000000 != 0;
    let c1t = if trig {
        trigger_square(shadow_loaded(c1), nr12)
    } else {
        c1
    };
    let c1s = SquareChannel {
        sweep: match c1t.sweep {
            Some(sw) => Some(sweep_loaded(sw, nr10)),
            None => None,
        },
        ..c1t
    };
    let b1 = if trig {
        bus.write_at(0xFF14, nr14 & !(1u8 << 7u8))
    } else {
        bus
    };
    (c1s, b1)
}

/// Channel 2 and the bus after NR21-NR24 are read.
pub open spec fn channel_2_registers(c: SquareChannel, bus: BusView) -> (SquareChannel, BusView) {
    let nr24 = reg(bus, 0xFF19);
    let c2 = update_square(c, reg(bus, 0xFF16), reg(bus, 0xFF18), nr24);
    if nr24 & 0b10000000 != 0 {
        (trigger_square(c2, reg(bus, 0xFF17)), bus.write_at(0xFF19, nr24 & !(1u8 << 7u8)))
    } else {
        (c2, bus)
    }
}

/// Channel 4 and the bus after NR41-NR44 are read.
pub open spec fn channel_4_registers(c: NoiseChannel, bus: BusView) -> (NoiseChannel, BusView) {
    let nr44 = reg(bus, 0xFF23);
    let c4 = NoiseChannel {
        length_timer: reg(bus, 0xFF20) & 0b00111111,
        length_enable: nr44 & 0b01000000 != 0,
        ..c
    };
    if nr44 & 0b10000000 != 0 {
        (
            trigger_noise(c4, reg(bus, 0xFF21), reg(bus, 0xFF22)),
            bus.write_at(0xFF23, nr44 & !(1u8 << 7u8)),
        )
    } else {
        (c4, bus)
    }
}

/// The stereo routing selected by NR51: bits 4-7 send channels 1-4 to the
/// left, bits 0-3 to the right.
pub open spec fn routing_from(nr51: u8) -> ChannelRouting {
    ChannelRouting {
        channel_1: Panning { left: nr51 & (1u8 << 4u8) != 0, right: nr51 & (1u8 << 0u8) != 0 },
        channel_2: Panning { left: nr51 & (1u8 << 5u8) != 0, right: nr51 & (1u8 << 1u8) != 0 },
        channel_3: Panning { left: nr51 & (1u8 << 6u8) != 0, right: nr51 & (1u8 << 2u8) != 0 },
        channel_4: Panning { left: nr51 & (1u8 << 7u8) != 0, right: nr51 & (1u8 << 3u8) != 0 },
    }
}

/// The APU and bus after the sound registers are read: master volume (NR50),
/// channels 1, 2 and 4, and panning (NR51).
pub open spec fn update_channel_registers(a: ApuView, bus: BusView) -> (ApuView, BusView) {
    let nr50 = reg(bus, 0xFF24);
    let r1 = channel_1_registers(a.channel_1, bus);
    let r2 = channel_2_registers(a.channel_2, r1.1);
    let r4 = channel_4_registers(a.channel_4, r2.1);
    (
        ApuView {
            l_master: (nr50 / 16) % 8,
            r_master: nr50 % 8,
            channel_1: r1.0,
            channel_2: r2.0,
            channel_4: r4.0,
            channel_routing: routing_from(reg(r4.1, 0xFF25)),
            ..a
        },
        r4.1,
    )
}

/// The APU and bus after `cycles` clock cycles. The DIV-APU sequencer
/// advances when bit 4 of DIV falls; with sound off (NR52 bit 7 clear)
/// nothing else happens; otherwise the sequencer events run, the registers
/// are read, the timers run and, once `SAMPLE_PERIOD` cycles have gathered,
/// one sample is produced.
pub open spec fn apu_step(a: ApuView, bus: BusView, cycles: u32) -> (ApuView, BusView) {
    let nr52 = reg(bus, 0xFF26);
    let div = reg(bus, 0xFF04);
    let ticked = a.last_div & 0b00010000 != 0 && div & 0b00010000 == 0;
    let a1 = ApuView {
        div_apu: if ticked {
            ((a.div_apu + 1) % 256 % 8) as u8
        } else {
            a.div_apu
        },
        last_div: div,
        ..a
    };
    if nr52 & 0x80 == 0 {
        (a1, bus)
    } else {
        apu_run(a1, bus, cycles, ticked)
    }
}

/// The work of a step with sound on: the sequencer events when the DIV-APU
/// `ticked`, the register reads, the timers and, once `SAMPLE_PERIOD` cycles
/// have gathered, one sample.
pub open spec fn apu_run(a: ApuView, bus: BusView, cycles: u32, ticked: bool) -> (ApuView, BusView) {
    let a2 = if ticked {
        a.div_apu_events()
    } else {
        a
    };
    let r = update_channel_registers(a2, bus);
    let a4 = r.0.update_timers(cycles);
    if a4.divider >= SAMPLE_PERIOD {
        let a5 = a4.generate_sample();
        (ApuView { divider: (a5.divider - SAMPLE_PERIOD) as u64, ..a5 }, r.1)
    } else {
        (a4, r.1)
    }
}


// ----------------------------------------------------------------------------
// Laws of the model
// ----------------------------------------------------------------------------

/// With sound off (NR52 bit 7 clear) a step produces no sample and leaves the
/// bus alone.
pub proof fn lemma_sound_off(a: ApuView, bus: BusView, cycles: u32)
    requires
        reg(bus, 0xFF26) & 0x80 == 0,
    ensures
        apu_step(a, bus, cycles).0.buffer == a.buffer,
        apu_step(a, bus, cycles).1 == bus,
{
}

/// The number of high steps of an 8-step duty pattern.
pub open spec fn high_steps(pattern: u8) -> int {
    (pattern & 1) as int + (pattern >> 1u8 & 1) as int + (pattern >> 2u8 & 1) as int + (pattern
        >> 3u8 & 1) as int + (pattern >> 4u8 & 1) as int + (pattern >> 5u8 & 1) as int + (pattern
        >> 6u8 & 1) as int + (pattern >> 7u8 & 1) as int
}

/// The duty codes 0-3 give 1, 2, 4 and 6 high steps out of 8: duty cycles of
/// 12.5%, 25%, 50% and 75%.
pub proof fn lemma_duty_widths()
    ensures
        high_steps(duty_pattern(0)) == 1,
        high_steps(duty_pattern(1)) == 2,
        high_steps(duty_pattern(2)) == 4,
        high_steps(duty_pattern(3)) == 6,
{
    assert(high_steps(0b00000001) == 1) by (bit_vector);
    assert(high_steps(0b10000001) == 2) by (bit_vector);
    assert(high_steps(0b10000111) == 4) by (bit_vector);
    assert(high_steps(0b01111110) == 6) by (bit_vector);
}

/// An envelope step: with period 0 nothing changes; otherwise the volume
/// moves at most one step in the envelope's direction and stays within
/// 0..=15, a change of volume reloads the timer from the period, and the
/// period and direction never change.
pub proof fn lemma_envelope_step(e: EnvelopeState)
    requires
        e.volume <= 15,
    ensures
        envelope_step(e).volume <= 15,
        e.env_period == 0 ==> envelope_step(e) == e,
        e.env_direction ==> e.volume <= envelope_step(e).volume <= e.volume + 1,
        !e.env_direction ==> envelope_step(e).volume <= e.volume <= envelope_step(e).volume + 1,
        envelope_step(e).volume != e.volume ==> envelope_step(e).env_timer == e.env_period,
        envelope_step(e).env_period == e.env_period,
        envelope_step(e).env_direction == e.env_direction,
{
}

/// The volume a square channel contributes to the mix: its output while
/// active, 0 otherwise.
pub open spec fn square_contribution(ch: SquareChannel) -> int {
    if ch.active {
        square_output(ch) as int
    } else {
        0
    }
}

/// The volume the noise channel contributes to the mix.
pub open spec fn noise_contribution(ch: NoiseChannel) -> int {
    if ch.active {
        noise_output(ch) as int
    } else {
        0
    }
}

/// The channel volumes one side receives: channels 1, 2 and 4 where they are
/// routed to it.
pub open spec fn routed_volume(a: ApuView, left: bool) -> int {
    let r = a.channel_routing;
    (if (if left { r.channel_1.left } else { r.channel_1.right }) {
        square_contribution(a.channel_1)
    } else {
        0
    }) + (if (if left { r.channel_2.left } else { r.channel_2.right }) {
        square_contribution(a.channel_2)
    } else {
        0
    }) + (if (if left { r.channel_4.left } else { r.channel_4.right }) {
        noise_contribution(a.channel_4)
    } else {
        0
    })
}

/// Each side of a sample is the sum of the volumes routed to it times that
/// side's master volume plus one: the left side scales by NR50 bits 4-6, the
/// right side by NR50 bits 0-2. So changing one side's master volume never
/// changes the other side, and with a master volume of 0 a lone channel at
/// volume v gives the level v.
pub proof fn lemma_mix_sides(a: ApuView, m: u8)
    requires
        a.wf(),
        m <= 7,
    ensures
        a.mix().0 == routed_volume(a, true) * (a.l_master + 1),
        a.mix().1 == routed_volume(a, false) * (a.r_master + 1),
        (ApuView { l_master: m, ..a }).mix().1 == a.mix().1,
        (ApuView { r_master: m, ..a }).mix().0 == a.mix().0,
{
    let v1 = square_contribution(a.channel_1);
    let v2 = square_contribution(a.channel_2);
    let v4 = noise_contribution(a.channel_4);
    assert(0 <= v1 <= 15 && 0 <= v2 <= 15 && 0 <= v4 <= 15);
    let l = a.l_master as int;
    let r = a.r_master as int;
    assert(0 <= routed_volume(a, true) <= 45);
    assert(0 <= routed_volume(a, false) <= 45);
    lemma_side_sum(a, true, l);
    lemma_side_sum(a, false, r);
    lemma_side_sum(a, true, m as int);
    lemma_side_sum(a, false, m as int);
}

/// The three side levels of one side add up to the routed volume times the
/// master volume plus one, and fit in 0..=360.
proof fn lemma_side_sum(a: ApuView, left: bool, master: int)
    requires
        a.wf(),
        0 <= master <= 7,
    ensures
        ({
            let rt = a.channel_routing;
            let v1 = square_contribution(a.channel_1);
            let v2 = square_contribution(a.channel_2);
            let v4 = noise_contribution(a.channel_4);
            let t = (if (if left { rt.channel_1.left } else { rt.channel_1.right }) {
                v1 * (master + 1)
            } else {
                0
            }) + (if (if left { rt.channel_2.left } else { rt.channel_2.right }) {
                v2 * (master + 1)
            } else {
                0
            }) + (if (if left { rt.channel_4.left } else { rt.channel_4.right }) {
                v4 * (master + 1)
            } else {
                0
            });
            &&& t == routed_volume(a, left) * (master + 1)
            &&& 0 <= t <= 360
        }),
{
    let rt = a.channel_routing;
    let v1 = square_contribution(a.channel_1);
    let v2 = square_contribution(a.channel_2);
    let v4 = noise_contribution(a.channel_4);
    let b1: int = if (if left { rt.channel_1.left } else { rt.channel_1.right }) { v1 } else { 0 };
    let b2: int = if (if left { rt.channel_2.left } else { rt.channel_2.right }) { v2 } else { 0 };
    let b4: int = if (if left { rt.channel_4.left } else { rt.channel_4.right }) { v4 } else { 0 };
    assert(0 <= b1 <= 15 && 0 <= b2 <= 15 && 0 <= b4 <= 15);
    assert(b1 * (master + 1) + b2 * (master + 1) + b4 * (master + 1) == (b1 + b2 + b4) * (master
        + 1)) by (nonlinear_arith);
    assert(0 <= (b1 + b2 + b4) * (master + 1) <= 360) by (nonlinear_arith)
        requires
            0 <= b1 <= 15,
            0 <= b2 <= 15,
            0 <= b4 <= 15,
            0 <= master <= 7,
    ;
}

/// NR50 sets the master volumes: bits 4-6 the left one, bits 0-2 the right
/// one.
pub proof fn lemma_master_volume(a: ApuView, bus: BusView)
    ensures
        update_channel_registers(a, bus).0.l_master == (reg(bus, 0xFF24) >> 4u8) & 0x07,
        update_channel_registers(a, bus).0.r_master == reg(bus, 0xFF24) & 0x07,
{
    let v = reg(bus, 0xFF24);
    assert((v / 16) % 8 == (v >> 4u8) & 0x07) by (bit_vector);
    assert(v % 8 == v & 0x07) by (bit_vector);
}

/// A write to a sound register with bit 7 cleared reads back with bit 7 clear,
/// and leaves the other registers and the bus's invariant alone.
proof fn lemma_acknowledge(bus: BusView, address: u16, value: u8, other: u16)
    requires
        bus.wf(),
        0xFF10 <= address <= 0xFF26,
        0xFF10 <= other <= 0xFF26,
        other != address,
    ensures
        bus.write_at(address, value & !(1u8 << 7u8)).read_at(address) & 0x80 == 0,
        bus.write_at(address, value & !(1u8 << 7u8)).read_at(other) == bus.read_at(other),
        bus.write_at(address, value & !(1u8 << 7u8)).wf(),
{
    let v = value & !(1u8 << 7u8);
    assert(v & 0x80 == 0) by (bit_vector)
        requires
            v == value & !(1u8 << 7u8),
    ;
    lemma_plain_write_read(bus, address, v);
    lemma_plain_write_frame(bus, address, v, other);
}

/// A channel trigger fires once: after the registers are read, the trigger
/// bits of NR14, NR24 and NR44 read as clear.
pub proof fn lemma_trigger_fires_once(a: ApuView, bus: BusView)
    requires
        bus.wf(),
    ensures
        reg(update_channel_registers(a, bus).1, 0xFF14) & 0x80 == 0,
        reg(update_channel_registers(a, bus).1, 0xFF19) & 0x80 == 0,
        reg(update_channel_registers(a, bus).1, 0xFF23) & 0x80 == 0,
        update_channel_registers(a, bus).1.wf(),
{
    let nr14 = reg(bus, 0xFF14);
    let b1 = channel_1_registers(a.channel_1, bus).1;
    if nr14 & 0b10000000 != 0 {
        lemma_acknowledge(bus, 0xFF14, nr14, 0xFF19);
        lemma_acknowledge(bus, 0xFF14, nr14, 0xFF23);
    } else {
        assert(nr14 & 0x80 == 0);
    }
    let nr24 = reg(b1, 0xFF19);
    let b2 = channel_2_registers(a.channel_2, b1).1;
    if nr24 & 0b10000000 != 0 {
        lemma_acknowledge(b1, 0xFF19, nr24, 0xFF14);
        lemma_acknowledge(b1, 0xFF19, nr24, 0xFF23);
    } else {
        assert(nr24 & 0x80 == 0);
    }
    let nr44 = reg(b2, 0xFF23);
    if nr44 & 0b10000000 != 0 {
        lemma_acknowledge(b2, 0xFF23, nr44, 0xFF14);
        lemma_acknowledge(b2, 0xFF23, nr44, 0xFF19);
    } else {
        assert(nr44 & 0x80 == 0);
    }
}

// ----------------------------------------------------------------------------
// The channels
// ----------------------------------------------------------------------------

/// Starts a square channel: the envelope is loaded from NRx2, the timer from
/// the frequency, and the duty position restarts.
fn trigger_square_channel(channel: &mut SquareChannel, nr2: u8)
    requires
        old(channel).frequency <= 2047,
    ensures
        *final(channel) == trigger_square(*old(channel), nr2),
{
    channel.active = true;
    channel.envelope.volume = nr2 / 16;
    channel.envelope.env_direction = nr2 & 0b00001000 != 0;
    channel.envelope.env_timer = nr2 % 8;
    channel.envelope.env_period = nr2 % 8;
    channel.timer = (2048 - channel.frequency as u32) * 4;
    channel.duty_pos = 0;
}

/// Reads the duty (NRx1), frequency (NRx3, NRx4) and length enable (NRx4)
/// of a square channel.
fn update_square_channel(channel: &mut SquareChannel, nr1: u8, nr3: u8, nr4: u8)
    ensures
        *final(channel) == update_square(*old(channel), nr1, nr3, nr4),
        final(channel).frequency <= 2047,
{
    channel.frequency = (nr4 as u16 % 8) * 256 + nr3 as u16;
    channel.length_enable = (nr4 & 0b01000000) != 0;
    let wave_duty = nr1 / 64;
    // Value        Duty cycle
    //  0b00          12.5%
    //  0b01          25%
    //  0b10          50%
    //  0b11          75%
    channel.duty = if wave_duty == 0 {
        0b00000001
    } else if wave_duty == 1 {
        0b10000001
    } else if wave_duty == 2 {
        0b10000111
    } else {
        0b01111110
    };
}

/// Reads the sweep pace, direction and step from NR10.
fn update_sweep(sweep: &mut SweepState, nr10: u8)
    ensures
        *final(sweep) == sweep_loaded(*old(sweep), nr10),
        final(sweep).sweep_shift <= 7,
{
    sweep.sweep_timer = (nr10 as u16 / 16) % 8;
    sweep.sweep_direction = (nr10 & 0b00001000) != 0;
    sweep.sweep_shift = nr10 % 8;
    sweep.sweep_pace = (nr10 / 16) % 8;
}

/// One envelope step.
fn tick_envelopes(envelope: &mut EnvelopeState)
    ensures
        *final(envelope) == envelope_step(*old(envelope)),
{
    if envelope.env_period == 0 {
        return;
    }
    if envelope.env_timer > 0 {
        envelope.env_timer = envelope.env_timer - 1;
    }
    if envelope.env_timer == 0 {
        envelope.env_timer = envelope.env_period;
        envelope.volume = if envelope.env_direction {
            let up = envelope.volume.saturating_add(1);
            if up < 15 {
                up
            } else {
                15
            }
        } else {
            envelope.volume.saturating_sub(1)
        }
    }
}

/// One length step of a square channel.
fn tick_length_timers(channel: &mut SquareChannel)
    ensures
        *final(channel) == length_step(*old(channel)),
{
    if channel.length_enable {
        channel.length_timer = channel.length_timer.saturating_sub(1);
        if channel.length_timer == 0 {
            channel.active = false;
        }
    }
}

/// One sweep step of channel 1.
fn tick_sweep(channel_1: &mut SquareChannel)
    requires
        square_wf(*old(channel_1)),
    ensures
        *final(channel_1) == sweep_step(*old(channel_1)),
        square_wf(*final(channel_1)),
{
    match channel_1.sweep {
        Some(current) => {
            let mut sweep = current;
            if sweep.sweep_timer == 0 {
                sweep.sweep_timer = sweep.sweep_pace as u16;
            } else {
                sweep.sweep_timer = sweep.sweep_timer - 1;
            }
            if sweep.sweep_shift > 0 {
                let delta = sweep.sweep_frec >> sweep.sweep_shift;
                proof {
                    crate::bits::lemma_shift_right_le(sweep.sweep_frec, sweep.sweep_shift);
                }
                let new_freq = if sweep.sweep_direction {
                    sweep.sweep_frec - delta
                } else {
                    sweep.sweep_frec + delta
                };
                if new_freq < 2047 {
                    sweep.sweep_frec = new_freq;
                }
                channel_1.sweep = Some(sweep);
                if new_freq > 2047 {
                    channel_1.active = false;
                } else {
                    channel_1.frequency = new_freq;
                }
            } else {
                channel_1.sweep = Some(sweep);
            }
        },
        None => {},
    }
}

impl SquareChannel {
    /// Runs the channel for `cycles` clock cycles.
    fn tick(&mut self, cycles: u32)
        requires
            square_wf(*old(self)),
        ensures
            *final(self) == square_tick(*old(self), cycles),
            square_wf(*final(self)),
    {
        self.timer = self.timer.saturating_sub(cycles);
        if self.timer == 0 {
            self.duty_pos = (self.duty_pos + 1) % 8;  //wraps at 8
            self.timer = self.timer + (2048 - self.frequency as u32) * 4;
        }
    }

    /// The channel's current volume.
    fn output(&self) -> (volume: u8)
        requires
            self.duty_pos < 8,
        ensures
            volume == square_output(*self),
    {
        if (self.duty >> self.duty_pos) & 1 != 0 {
            self.envelope.volume
        } else {
            0
        }
    }
}

impl NoiseChannel {
    /// Runs the channel for `cycles` clock cycles, clocking the shift register
    /// each time the timer runs out.
    fn tick(&mut self, cycles: u32)
        ensures
            *final(self) == noise_tick(*old(self), cycles),
    {
        self.timer = self.timer.saturating_sub(cycles);
        if self.timer == 0 {
            let cur_lfsr = self.lfsr;
            let xor = (cur_lfsr & 0b000000001) ^ (cur_lfsr & 0b00000010) >> 1u16;
            self.lfsr = cur_lfsr >> 1u16;
            self.lfsr = self.lfsr & !(1u16 << 14u16);
            self.lfsr = self.lfsr | (xor << 14u16);
            if self.short_mode {
                self.lfsr = self.lfsr & !(1u16 << 6u16);
                self.lfsr = self.lfsr | (xor << 6u16);
            }
            self.timer = self.timer_period;
        }
    }

    /// The channel's current volume.
    fn output(&self) -> (volume: u8)
        ensures
            volume == noise_output(*self),
    {
        if (self.lfsr & 0b00000001) == 0 {
            self.envelope.volume
        } else {
            0
        }
    }
}

// ----------------------------------------------------------------------------
// The unit
// ----------------------------------------------------------------------------

pub struct APU {
    pub active: bool,
    pub divider: u64,  // cpu works at 4Mhz and sample rate is 44.1Khz (4MHz / 44.1KHz = ~95)
    pub l_master: u8,
    pub r_master: u8,
    pub buffer: Vec<u16>,
    pub channel_1: SquareChannel,
    pub channel_2: SquareChannel,
    pub channel_3: WaveChannel,
    pub channel_4: NoiseChannel,
    pub channel_routing: ChannelRouting,
    pub div_apu: u8,
    pub last_div: u8,
}

impl View for APU {
    type V = ApuView;

    open spec fn view(&self) -> ApuView {
        ApuView {
            active: self.active,
            divider: self.divider,
            l_master: self.l_master,
            r_master: self.r_master,
            buffer: self.buffer@,
            channel_1: self.channel_1,
            channel_2: self.channel_2,
            channel_3: self.channel_3,
            channel_4: self.channel_4,
            channel_routing: self.channel_routing,
            div_apu: self.div_apu,
            last_div: self.last_div,
        }
    }
}

/// A silent envelope.
pub open spec fn silent_envelope() -> EnvelopeState {
    EnvelopeState { volume: 0, env_timer: 0, env_direction: false, env_period: 0 }
}

/// A panning that sends a channel nowhere.
pub open spec fn unrouted() -> Panning {
    Panning { left: false, right: false }
}

/// A channel's mix level on one side, `volume * (master + 1)` when routed
/// there, is at most 120.
proof fn lemma_level(volume: u8, master: u8)
    requires
        volume <= 15,
        master <= 7,
    ensures
        volume * (master + 1) <= 120,
{
    assert(volume * (master + 1) <= 120) by (nonlinear_arith)
        requires
            volume <= 15,
            master <= 7,
    ;
}

impl APU {
    pub open spec fn initial() -> ApuView {
        ApuView {
            active: false,
            divider: 0,
            l_master: 0,
            r_master: 0,
            buffer: Seq::empty(),
            channel_1: SquareChannel {
                active: false,
                timer: 0,
                duty: 0,
                frequency: 0,
                duty_pos: 0,
                length_timer: 0,
                length_enable: false,
                sweep: Some(
                    SweepState {
                        sweep_timer: 0,
                        sweep_direction: false,
                        sweep_shift: 0,
                        sweep_frec: 0,
                        sweep_pace: 0,
                    },
                ),
                envelope: silent_envelope(),
            },
            channel_2: SquareChannel {
                active: false,
                timer: 0,
                duty: 0,
                frequency: 0,
                duty_pos: 0,
                length_timer: 0,
                length_enable: false,
                sweep: None,
                envelope: silent_envelope(),
            },
            channel_3: WaveChannel {
                active: false,
                timer: 0,
                sample_pos: 0,
                volume: 0,
                length_timer: 0,
            },
            channel_4: NoiseChannel {
                active: false,
                timer: 0,
                timer_period: 0,
                lfsr: 0x7FFF,
                short_mode: false,
                length_timer: 0,
                length_enable: false,
                envelope: silent_envelope(),
            },
            channel_routing: ChannelRouting {
                channel_1: unrouted(),
                channel_2: unrouted(),
                channel_3: unrouted(),
                channel_4: unrouted(),
            },
            div_apu: 0,
            last_div: 0,
        }
    }

    /// A silent APU with every channel off and an empty sample buffer.
    pub fn new() -> (apu: APU)
        ensures
            apu@ == APU::initial(),
            apu@.wf(),
    {
        APU {
            active: false,
            divider: 0,
            l_master: 0,
            r_master: 0,
            buffer: Vec::new(),
            channel_1: SquareChannel {
                active: false,
                timer: 0,
                duty: 0,
                frequency: 0,
                duty_pos: 0,
                length_timer: 0,
                length_enable: false,
                sweep: Some(
                    SweepState {
                        sweep_timer: 0,
                        sweep_direction: false,
                        sweep_shift: 0,
                        sweep_frec: 0,
                        sweep_pace: 0,
                    },
                ),
                envelope: EnvelopeState {
                    volume: 0,
                    env_timer: 0,
                    env_direction: false,
                    env_period: 0,
                },
            },
            channel_2: SquareChannel {
                active: false,
                timer: 0,
                duty: 0,
                frequency: 0,
                duty_pos: 0,
                length_timer: 0,
                length_enable: false,
                sweep: None,
                envelope: EnvelopeState {
                    volume: 0,
                    env_timer: 0,
                    env_direction: false,
                    env_period: 0,
                },
            },
            channel_3: WaveChannel {
                active: false,
                timer: 0,
                sample_pos: 0,
                volume: 0,
                length_timer: 0,
            },
            channel_4: NoiseChannel {
                active: false,
                timer: 0,
                timer_period: 0,
                lfsr: 0x7FFF,
                short_mode: false,
                length_timer: 0,
                length_enable: false,
                envelope: EnvelopeState {
                    volume: 0,
                    env_timer: 0,
                    env_direction: false,
                    env_period: 0,
                },
            },
            channel_routing: ChannelRouting {
                channel_1: Panning { left: false, right: false },
                channel_2: Panning { left: false, right: false },
                channel_3: Panning { left: false, right: false },
                channel_4: Panning { left: false, right: false },
            },
            div_apu: 0,
            last_div: 0,
        }
    }

    /// Advances the APU by `cycles` clock cycles, reading and acknowledging
    /// the sound registers on the bus.
    pub fn step(&mut self, memory_bus: &mut MemoryBus, cycles: u32)
        requires
            old(self)@.wf(),
            old(memory_bus)@.wf(),
            old(self).divider + cycles <= u64::MAX,
        ensures
            (final(self)@, final(memory_bus)@) == apu_step(old(self)@, old(memory_bus)@, cycles),
            final(self)@.wf(),
            final(memory_bus)@.wf(),
    {
        let nr52 = memory_bus.read(0xFF26);  // audio master control

        let mut ticked = false;
        //div-apu is increased every time DIV's bit goes from 0 to 1.
        if (self.last_div & 0b00010000) != 0 && (memory_bus.read(0xFF04) & 0b00010000) == 0 {
            self.div_apu = self.div_apu.wrapping_add(1) % 8;
            ticked = true;
        }
        self.last_div = memory_bus.read(0xFF04);
        assert(self@.buffer == old(self)@.buffer);

        //bit 7: audio on/off
        if nr52 & 0x80 == 0 {
            return;
        }
        self.run(memory_bus, cycles, ticked);
    }

    /// The work of a step with sound on: the sequencer events when the
    /// DIV-APU `ticked`, the register reads, the timers and, once
    /// `SAMPLE_PERIOD` cycles have gathered, one sample.
    fn run(&mut self, memory_bus: &mut MemoryBus, cycles: u32, ticked: bool)
        requires
            old(self)@.wf(),
            old(memory_bus)@.wf(),
            old(self).divider + cycles <= u64::MAX,
        ensures
            (final(self)@, final(memory_bus)@) == apu_run(old(self)@, old(memory_bus)@, cycles, ticked),
            final(self)@.wf(),
            final(memory_bus)@.wf(),
    {
        if ticked {
            self.div_apu_events();
        }
        self.update_channel_registers(memory_bus);
        self.update_timers(cycles);
        if self.divider >= SAMPLE_PERIOD {
            self.generate_sample();
            let ghost sampled = self@;
            self.divider = self.divider - SAMPLE_PERIOD;
            assert(self@.buffer == sampled.buffer);
        }
    }

    /// Runs the DIV-APU sequencer events of the current step.
    fn div_apu_events(&mut self)
        requires
            old(self)@.wf(),
        ensures
            final(self)@ == old(self)@.div_apu_events(),
            final(self)@.wf(),
    {
        if self.div_apu == 0 || self.div_apu == 4 {
            tick_length_timers(&mut self.channel_1);
            tick_length_timers(&mut self.channel_2);
        } else if self.div_apu == 2 || self.div_apu == 6 {
            tick_length_timers(&mut self.channel_1);
            tick_length_timers(&mut self.channel_2);
            tick_sweep(&mut self.channel_1);
        } else if self.div_apu == 7 {
            tick_envelopes(&mut self.channel_1.envelope);
            tick_envelopes(&mut self.channel_2.envelope);
            tick_envelopes(&mut self.channel_4.envelope);
        }
    }

    /// Runs the channel timers for `cycles` clock cycles.
    fn update_timers(&mut self, cycles: u32)
        requires
            old(self)@.wf(),
            old(self).divider + cycles <= u64::MAX,
        ensures
            final(self)@ == old(self)@.update_timers(cycles),
            final(self)@.wf(),
    {
        self.divider = self.divider + cycles as u64;
        if self.channel_1.active {
            self.channel_1.tick(cycles);
        }
        if self.channel_2.active {
            self.channel_2.tick(cycles);
        }
        if self.channel_3.active {
            self.channel_3.timer = self.channel_3.timer.wrapping_sub(cycles);
        }
        if self.channel_4.active {
            self.channel_4.tick(cycles);
        }
    }

    /// Reads the sound registers: master volume, channels 1, 2 and 4, and
    /// the panning.
    fn update_channel_registers(&mut self, memory_bus: &mut MemoryBus)
        requires
            old(self)@.wf(),
            old(memory_bus)@.wf(),
        ensures
            (final(self)@, final(memory_bus)@) == update_channel_registers(
                old(self)@,
                old(memory_bus)@,
            ),
            final(self)@.wf(),
            final(memory_bus)@.wf(),
    {
        self.update_master_volume(memory_bus);
        self.update_channel_1(memory_bus);
        self.update_channel_2(memory_bus);
        self.update_channel_4(memory_bus);
        self.update_channel_routing(memory_bus);
    }

    /// Reads the left and right master volumes from NR50.
    fn update_master_volume(&mut self, memory_bus: &MemoryBus)
        ensures
            final(self)@ == (ApuView {
                l_master: (reg(memory_bus@, 0xFF24) / 16) % 8,
                r_master: reg(memory_bus@, 0xFF24) % 8,
                ..old(self)@
            }),
    {
        let nr50 = memory_bus.read(0xFF24);
        self.l_master = (nr50 / 16) % 8;
        self.r_master = nr50 % 8;
    }

    /// Reads channel 1's registers NR10-NR14; a trigger is acknowledged by
    /// clearing NR14 bit 7 on the bus.
    fn update_channel_1(&mut self, memory_bus: &mut MemoryBus)
        requires
            old(memory_bus)@.wf(),
            square_wf(old(self).channel_1),
        ensures
            (final(self).channel_1, final(memory_bus)@) == channel_1_registers(
                old(self).channel_1,
                old(memory_bus)@,
            ),
            final(self)@ == (ApuView { channel_1: final(self).channel_1, ..old(self)@ }),
            square_wf(final(self).channel_1),
            final(memory_bus)@.wf(),
    {
        //          SWEEP
        //          7     6 5 4    3     2 1 0
        //nr10      ~      pace   dir    Individual setp
        let nr10 = memory_bus.read(0xFF10);
        //          LENGTH TIMER & DUTY CYCLE
        //          7 6         5 4 3 2 1 0
        //nr11      wave duty   initial length timer
        let nr11 = memory_bus.read(0xFF11);
        //          VOLUME & ENVELOPE
        //          7 6 5 4          3          2 1 0
        //nr12    initial volume    env dir    sweep race
        let nr12 = memory_bus.read(0xFF12);
        //nr13 = low 8 bits of channel 1 frequency
        let nr13 = memory_bus.read(0xFF13);
        //          7           6            5 4 3     2 1 0
        //nr14  trigger     Length enable   -------     high 3 bits of ch1 freq
        let nr14 = memory_bus.read(0xFF14);

        update_square_channel(&mut self.channel_1, nr11, nr13, nr14);
        if nr14 & 0b10000000 != 0 {
            self.trigger_channel_1(nr12);
            //game only triggers channel once
            memory_bus.write(0xFF14, nr14 & !(1u8 << 7u8));
        }
        match self.channel_1.sweep {
            Some(current) => {
                let mut sweep = current;
                update_sweep(&mut sweep, nr10);
                self.channel_1.sweep = Some(sweep);
            },
            None => {},
        }
    }

    /// Reads channel 2's registers NR21-NR24.
    fn update_channel_2(&mut self, memory_bus: &mut MemoryBus)
        requires
            old(memory_bus)@.wf(),
            square_wf(old(self).channel_2),
        ensures
            (final(self).channel_2, final(memory_bus)@) == channel_2_registers(
                old(self).channel_2,
                old(memory_bus)@,
            ),
            final(self)@ == (ApuView { channel_2: final(self).channel_2, ..old(self)@ }),
            square_wf(final(self).channel_2),
            final(memory_bus)@.wf(),
    {
        //          7 6         5 4 3 2 1 0
        //nr21      wave duty   initial length timer
        let nr21 = memory_bus.read(0xFF16);
        //          7 6 5 4          3          2 1 0
        //nr22    initial volume    env dir    sweep race
        let nr22 = memory_bus.read(0xFF17);
        //nr23 = low 8 bits of channel 2 frequency
        let nr23 = memory_bus.read(0xFF18);
        //          7           6            5 4 3     2 1 0
        //nr24  trigger     Length enable   -------     high 3 bits of ch2 freq
        let nr24 = memory_bus.read(0xFF19);
        update_square_channel(&mut self.channel_2, nr21, nr23, nr24);
        if nr24 & 0b10000000 != 0 {
            self.trigger_channel_2(nr22);
            //game only triggers channel once
            memory_bus.write(0xFF19, nr24 & !(1u8 << 7u8));
        }
    }

    /// Reads channel 4's registers NR41-NR44.
    fn update_channel_4(&mut self, memory_bus: &mut MemoryBus)
        requires
            old(memory_bus)@.wf(),
            old(self).channel_4.envelope.volume <= 15,
        ensures
            (final(self).channel_4, final(memory_bus)@) == channel_4_registers(
                old(self).channel_4,
                old(memory_bus)@,
            ),
            final(self)@ == (ApuView { channel_4: final(self).channel_4, ..old(self)@ }),
            final(self).channel_4.envelope.volume <= 15,
            final(memory_bus)@.wf(),
    {
        let nr41 = memory_bus.read(0xFF20);
        let nr42 = memory_bus.read(0xFF21);
        let nr43 = memory_bus.read(0xFF22);
        let nr44 = memory_bus.read(0xFF23);
        self.channel_4.length_timer = nr41 & 0b00111111;
        self.channel_4.length_enable = nr44 & 0b01000000 != 0;
        if nr44 & 0b10000000 != 0 {
            self.trigger_channel_4(nr42, nr43);
            memory_bus.write(0xFF23, nr44 & !(1u8 << 7u8));
        }
    }

    /// Triggers channel 1, loading the sweep's shadow frequency first.
    fn trigger_channel_1(&mut self, nr2: u8)
        requires
            old(self).channel_1.frequency <= 2047,
        ensures
            final(self).channel_1 == trigger_square(shadow_loaded(old(self).channel_1), nr2),
            final(self)@ == (ApuView { channel_1: final(self).channel_1, ..old(self)@ }),
    {
        let frequency = self.channel_1.frequency;
        match self.channel_1.sweep {
            Some(current) => {
                let mut sweep = current;
                sweep.sweep_frec = frequency;
                self.channel_1.sweep = Some(sweep);
            },
            None => {},
        }
        trigger_square_channel(&mut self.channel_1, nr2);
    }

    /// Triggers channel 2.
    fn trigger_channel_2(&mut self, nr2: u8)
        requires
            old(self).channel_2.frequency <= 2047,
        ensures
            final(self).channel_2 == trigger_square(old(self).channel_2, nr2),
            final(self)@ == (ApuView { channel_2: final(self).channel_2, ..old(self)@ }),
    {
        trigger_square_channel(&mut self.channel_2, nr2);
    }

    /// Triggers the noise channel with envelope NR42 and clock NR43.
    fn trigger_channel_4(&mut self, nr2: u8, nr3: u8)
        ensures
            final(self).channel_4 == trigger_noise(old(self).channel_4, nr2, nr3),
            final(self)@ == (ApuView { channel_4: final(self).channel_4, ..old(self)@ }),
    {
        let r = nr3 % 8;
        let s = nr3 / 16;
        let divisor: u32 = if r == 0 {
            8
        } else {
            r as u32 * 16
        };
        self.channel_4.active = true;
        self.channel_4.envelope.volume = nr2 / 16;
        self.channel_4.envelope.env_direction = nr2 & 0b00001000 != 0;
        self.channel_4.envelope.env_timer = nr2 % 8;
        self.channel_4.envelope.env_period = nr2 % 8;
        self.channel_4.timer = divisor << s;
        self.channel_4.timer_period = divisor << s;
        self.channel_4.lfsr = 0x7FFF;
    }

    /// Reads the panning register NR51.
    fn update_channel_routing(&mut self, memory_bus: &MemoryBus)
        ensures
            final(self)@ == (ApuView {
                channel_routing: routing_from(reg(memory_bus@, 0xFF25)),
                ..old(self)@
            }),
    {
        // NR51(0xFF25) controls which channels are active on each speaker
        // bit 7: ch4 -> left channel
        // bit 6: ch3 -> left channel
        // bit 5: ch2 -> left channel
        // bit 4: ch1 -> left channel
        //
        // bit 3: ch4 -> right channel
        // bit 2: ch3 -> right channel
        // bit 1: ch2 -> right channel
        // bit 0: ch1 -> right channel
        let nr51 = memory_bus.read(0xFF25);
        self.channel_routing.channel_4.left = nr51 & (1u8 << 7u8) != 0;
        self.channel_routing.channel_3.left = nr51 & (1u8 << 6u8) != 0;
        self.channel_routing.channel_2.left = nr51 & (1u8 << 5u8) != 0;
        self.channel_routing.channel_1.left = nr51 & (1u8 << 4u8) != 0;
        self.channel_routing.channel_4.right = nr51 & (1u8 << 3u8) != 0;
        self.channel_routing.channel_3.right = nr51 & (1u8 << 2u8) != 0;
        self.channel_routing.channel_2.right = nr51 & (1u8 << 1u8) != 0;
        self.channel_routing.channel_1.right = nr51 & (1u8 << 0u8) != 0;
    }

    /// Mixes channels 1, 2 and 4 and appends the left and right levels to the
    /// sample buffer.
    fn generate_sample(&mut self)
        requires
            old(self)@.wf(),
        ensures
            final(self)@ == old(self)@.generate_sample(),
            final(self)@.wf(),
    {
        let ch1_output: u8 = if self.channel_1.active {
            self.channel_1.output()
        } else {
            0
        };
        let ch2_output: u8 = if self.channel_2.active {
            self.channel_2.output()
        } else {
            0
        };
        let ch4_output: u8 = if self.channel_4.active {
            self.channel_4.output()
        } else {
            0
        };
        proof {
            lemma_level(ch1_output, self.l_master);
            lemma_level(ch2_output, self.l_master);
            lemma_level(ch4_output, self.l_master);
            lemma_level(ch1_output, self.r_master);
            lemma_level(ch2_output, self.r_master);
            lemma_level(ch4_output, self.r_master);
        }
        let ch1_left: u16 = if self.channel_routing.channel_1.left {
            ch1_output as u16 * (self.l_master as u16 + 1)
        } else {
            0
        };
        let ch1_right: u16 = if self.channel_routing.channel_1.right {
            ch1_output as u16 * (self.r_master as u16 + 1)
        } else {
            0
        };
        let ch2_left: u16 = if self.channel_routing.channel_2.left {
            ch2_output as u16 * (self.l_master as u16 + 1)
        } else {
            0
        };
        let ch2_right: u16 = if self.channel_routing.channel_2.right {
            ch2_output as u16 * (self.r_master as u16 + 1)
        } else {
            0
        };
        let ch4_left: u16 = if self.channel_routing.channel_4.left {
            ch4_output as u16 * (self.l_master as u16 + 1)
        } else {
            0
        };
        let ch4_right: u16 = if self.channel_routing.channel_4.right {
            ch4_output as u16 * (self.r_master as u16 + 1)
        } else {
            0
        };
        let l_sample = ch1_left + ch2_left + ch4_left;
        let r_sample = ch1_right + ch2_right + ch4_right;
        self.buffer.push(l_sample);
        self.buffer.push(r_sample);
    }
}

} // verus!
