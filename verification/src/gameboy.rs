//! The emulator as a whole: the CPU with its bus, the PPU and the APU, driven
//! one instruction at a time, with the frontend's view of it: cartridge and
//! save data in, frames, audio and button presses across.
use vstd::prelude::*;

use crate::apu::{APU, ApuView, MAX_LEVEL, SAMPLE_PERIOD, apu_step};
use crate::cpu::{CPU, CpuView, Registers, implemented, step_cycles, step_state};
use crate::memory::{BusView, JoyPad, MemoryBus, bit_of, joypad_register, lemma_joypad_lines};
use crate::ppu::{PPU, PpuView, SCREEN_SIZE, mode_length, ppu_step};

verus! {

/// The eight buttons of the console.
#[derive(Clone, Copy, PartialEq, Eq, Structural, Debug)]
pub enum Buttons {
    Up,
    Down,
    Left,
    Right,
    A,
    B,
    Start,
    Select,
}

impl Buttons {
    /// The button a frontend names by number: 1 Up, 2 Down, 3 Left, 4 Right,
    /// 5 A, 6 B, 7 Select, 8 Start; no button for any other number.
    pub fn from_code(code: u8) -> (button: Option<Buttons>)
        ensures
            code == 1 <==> button == Some(Buttons::Up),
            code == 2 <==> button == Some(Buttons::Down),
            code == 3 <==> button == Some(Buttons::Left),
            code == 4 <==> button == Some(Buttons::Right),
            code == 5 <==> button == Some(Buttons::A),
            code == 6 <==> button == Some(Buttons::B),
            code == 7 <==> button == Some(Buttons::Select),
            code == 8 <==> button == Some(Buttons::Start),
            button is None <==> !(1 <= code <= 8),
    {
        match code {
            1 => Some(Buttons::Up),
            2 => Some(Buttons::Down),
            3 => Some(Buttons::Left),
            4 => Some(Buttons::Right),
            5 => Some(Buttons::A),
            6 => Some(Buttons::B),
            7 => Some(Buttons::Select),
            8 => Some(Buttons::Start),
            _ => None,
        }
    }
}

/// The joypad with `button` set to `is_pressed`.
pub open spec fn press(j: JoyPad, button: Buttons, is_pressed: bool) -> JoyPad {
    match button {
        Buttons::Up => JoyPad { up: is_pressed, ..j },
        Buttons::Down => JoyPad { down: is_pressed, ..j },
        Buttons::Left => JoyPad { left: is_pressed, ..j },
        Buttons::Right => JoyPad { right: is_pressed, ..j },
        Buttons::A => JoyPad { a_button: is_pressed, ..j },
        Buttons::B => JoyPad { b_button: is_pressed, ..j },
        Buttons::Select => JoyPad { select: is_pressed, ..j },
        Buttons::Start => JoyPad { start: is_pressed, ..j },
    }
}

/// The abstract state of the emulator.
pub struct GameBoyView {
    pub cpu: CpuView,
    pub ppu: PpuView,
    pub apu: ApuView,
}

impl GameBoyView {
    /// The invariant of the emulator: each unit well formed, the PPU inside
    /// its current mode, and less than one sample period of cycles gathered by
    /// the APU.
    pub open spec fn wf(self) -> bool {
        &&& self.cpu.bus.wf()
        &&& self.ppu.wf()
        &&& self.ppu.cycles < mode_length(self.ppu.mode)
        &&& self.apu.wf()
        &&& self.apu.divider < SAMPLE_PERIOD
    }

    pub open spec fn with_bus(self, bus: BusView) -> GameBoyView {
        GameBoyView { cpu: CpuView { bus: bus, ..self.cpu }, ..self }
    }

    /// One step: the CPU runs the instruction at PC, then the PPU and the APU
    /// advance by the cycles it took.
    pub open spec fn step(self) -> GameBoyView {
        let cpu = step_state(self.cpu);
        let cycles = step_cycles(self.cpu);
        let p = ppu_step(self.ppu, cpu.bus, cycles);
        let a = apu_step(self.apu, p.1, cycles);
        GameBoyView { cpu: CpuView { bus: a.1, ..cpu }, ppu: p.0, apu: a.0 }
    }

    /// Whether the instruction at PC is one the CPU implements.
    pub open spec fn can_step(self) -> bool {
        implemented(self.cpu.rd(self.cpu.regs.pc))
    }

    /// The emulator after the save image `sav` is offered: taken when its size
    /// is that of the cartridge RAM, rejected otherwise.
    pub open spec fn with_save(self, sav: Seq<u8>) -> GameBoyView {
        if sav.len() == self.cpu.bus.ram.len() {
            self.with_bus(BusView { ram: sav, ..self.cpu.bus })
        } else {
            self
        }
    }

    /// The emulator after the current frame is taken.
    pub open spec fn frame_taken(self) -> GameBoyView {
        GameBoyView { ppu: PpuView { frame_ready: false, ..self.ppu }, ..self }
    }

    /// The emulator after the pending audio is taken.
    pub open spec fn audio_drained(self) -> GameBoyView {
        GameBoyView { apu: ApuView { buffer: Seq::empty(), ..self.apu }, ..self }
    }
}

/// Main Game Boy (DMG) emulator. Encapsulates the CPU, PPU, and APU.
pub struct GameBoy {
    cpu: CPU,
    ppu: PPU,
    apu: APU,
}

impl View for GameBoy {
    type V = GameBoyView;

    closed spec fn view(&self) -> GameBoyView {
        GameBoyView { cpu: self.cpu@, ppu: self.ppu@, apu: self.apu@ }
    }
}

impl GameBoy {
    pub open spec fn initial() -> GameBoyView {
        GameBoyView {
            cpu: CpuView { regs: Registers::initial(), bus: MemoryBus::initial() },
            ppu: PPU::initial(),
            apu: APU::initial(),
        }
    }

    /// A powered-on console with no cartridge.
    pub fn new() -> (gb: GameBoy)
        ensures
            gb@ == GameBoy::initial(),
            gb@.wf(),
    {
        GameBoy { cpu: CPU::new(), ppu: PPU::new(), apu: APU::new() }
    }

    /// Loads a ROM from a byte vector. Execution starts at the cartridge
    /// entry point 0x0100.
    pub fn load_rom(&mut self, rom: Vec<u8>)
        requires
            old(self)@.wf(),
            rom@.len() >= 0x4000,
        ensures
            final(self)@ == old(self)@.with_bus(old(self)@.cpu.bus.after_load_rom(rom@, None)),
            final(self)@.wf(),
    {
        proof {
            use_view(self);
        }
        self.cpu.memory_bus.load_rom(rom, None);
        proof {
            use_view(self);
        }
    }

    /// Loads a ROM from a byte vector together with the DMG boot ROM, which a
    /// DMG cartridge sees mapped over 0x0000-0x00FF until 0xFF50 is written.
    pub fn load_rom_with_boot_rom(&mut self, rom: Vec<u8>, boot_rom: [u8; 256])
        requires
            old(self)@.wf(),
            rom@.len() >= 0x4000,
        ensures
            final(self)@ == old(self)@.with_bus(
                old(self)@.cpu.bus.after_load_rom(rom@, Some(boot_rom@)),
            ),
            final(self)@.wf(),
    {
        proof {
            use_view(self);
        }
        self.cpu.memory_bus.load_rom(rom, Some(boot_rom));
        proof {
            use_view(self);
        }
    }

    /// Loads external RAM (save data) from a byte vector. If its size does not
    /// match the cartridge RAM size, the save is rejected.
    pub fn load_save(&mut self, sav: Vec<u8>)
        ensures
            final(self)@ == old(self)@.with_save(sav@),
            old(self)@.wf() ==> final(self)@.wf(),
    {
        proof {
            use_view(self);
        }
        self.cpu.memory_bus.load_ram(sav);
        proof {
            use_view(self);
        }
    }

    /// Returns true if external RAM was modified since the last
    /// `clear_save_dirty()` call.
    pub fn is_save_dirty(&self) -> (dirty: bool)
        ensures
            dirty == self@.cpu.bus.ram_dirty,
    {
        proof {
            use_view(self);
        }
        self.cpu.memory_bus.ram_dirty
    }

    /// Resets the dirty flag after save data has been persisted.
    pub fn clear_save_dirty(&mut self)
        ensures
            final(self)@ == old(self)@.with_bus(BusView { ram_dirty: false, ..old(self)@.cpu.bus }),
            old(self)@.wf() ==> final(self)@.wf(),
    {
        proof {
            use_view(self);
        }
        self.cpu.memory_bus.ram_dirty = false;
        proof {
            use_view(self);
        }
    }

    /// Returns a copy of the current external RAM contents.
    pub fn get_save_data(&mut self) -> (data: Vec<u8>)
        ensures
            data@ == old(self)@.cpu.bus.ram,
            final(self)@ == old(self)@,
    {
        proof {
            use_view(self);
        }
        self.cpu.memory_bus.save_ram()
    }

    /// Whether the instruction at PC is one the CPU implements; `step`
    /// may only be called when it is.
    pub fn can_step(&self) -> (ok: bool)
        ensures
            ok == self@.can_step(),
    {
        proof {
            use_view(self);
        }
        self.cpu.can_step()
    }

    /// Advances the emulator by one CPU instruction.
    /// Returns `true` when a full frame (160x144 pixels) has been rendered and is ready to display.
    pub fn step(&mut self) -> (frame_ready: bool)
        requires
            old(self)@.wf(),
            old(self)@.can_step(),
        ensures
            final(self)@ == old(self)@.step(),
            final(self)@.wf(),
            frame_ready == final(self)@.ppu.frame_ready,
    {
        proof {
            use_view(self);
        }
        let cycles = self.cpu.step();
        self.ppu.step(&mut self.cpu.memory_bus, cycles);
        self.apu.step(&mut self.cpu.memory_bus, cycles);
        proof {
            use_view(self);
        }
        self.ppu.frame_ready
    }

    /// Returns the current framebuffer as a 160x144 array of color indices (0-3).
    /// Marks the frame as consumed.
    pub fn framebuffer(&mut self) -> (frame: [u8; SCREEN_SIZE])
        ensures
            frame@ == old(self)@.ppu.framebuffer,
            final(self)@ == old(self)@.frame_taken(),
            old(self)@.wf() ==> final(self)@.wf(),
            old(self)@.wf() ==> forall|i: int| 0 <= i < SCREEN_SIZE ==> #[trigger] frame@[i] <= 3,
    {
        proof {
            use_view(self);
        }
        self.ppu.frame_ready = false;
        proof {
            use_view(self);
        }
        self.ppu.framebuffer
    }

    /// Drains and returns all pending audio samples as interleaved stereo
    /// mix levels [left, right, left, right, ...], each 0 to `MAX_LEVEL`,
    /// in the order they were produced.
    pub fn drain_audio(&mut self) -> (samples: Vec<u16>)
        ensures
            samples@ == old(self)@.apu.buffer,
            final(self)@ == old(self)@.audio_drained(),
            old(self)@.wf() ==> final(self)@.wf(),
            old(self)@.wf() ==> samples@.len() % 2 == 0,
            old(self)@.wf() ==> forall|i: int|
                0 <= i < samples@.len() ==> #[trigger] samples@[i] <= MAX_LEVEL,
    {
        proof {
            use_view(self);
        }
        let mut samples: Vec<u16> = Vec::new();
        std::mem::swap(&mut samples, &mut self.apu.buffer);
        proof {
            use_view(self);
            if old(self)@.wf() {
                assert forall|i: int| 0 <= i < samples@.len() implies samples@[i] <= MAX_LEVEL by {
                    assert(old(self)@.apu.buffer[i] == samples@[i]);
                }
            }
        }
        samples
    }

    /// Sets the pressed state of a Game Boy button.
    pub fn set_button(&mut self, button: Buttons, is_pressed: bool)
        ensures
            final(self)@ == old(self)@.with_bus(
                BusView {
                    joypad: press(old(self)@.cpu.bus.joypad, button, is_pressed),
                    ..old(self)@.cpu.bus
                },
            ),
            old(self)@.wf() ==> final(self)@.wf(),
    {
        proof {
            use_view(self);
        }
        let joypad = press_button(self.cpu.memory_bus.joypad, button, is_pressed);
        self.cpu.memory_bus.joypad = joypad;
        proof {
            use_view(self);
        }
    }
}

/// A save image of the cartridge RAM's size is taken whole: the save data
/// read afterwards is that image. One of another size is rejected and
/// changes nothing.
pub proof fn lemma_save_round_trip(g: GameBoyView, sav: Seq<u8>)
    ensures
        sav.len() == g.cpu.bus.ram.len() ==> g.with_save(sav).cpu.bus.ram == sav,
        sav.len() != g.cpu.bus.ram.len() ==> g.with_save(sav) == g,
        g.wf() ==> g.with_save(sav).wf(),
{
}

/// Taking the frame only marks it consumed: taking it again gives the same
/// pixels until the PPU draws more.
pub proof fn lemma_frame_repeatable(g: GameBoyView)
    ensures
        g.frame_taken().ppu.framebuffer == g.ppu.framebuffer,
        !g.frame_taken().ppu.frame_ready,
        g.frame_taken().frame_taken() == g.frame_taken(),
{
}

/// Audio is handed out once: after a drain the buffer is empty, so a second
/// drain gives nothing.
pub proof fn lemma_drain_once(g: GameBoyView)
    ensures
        g.audio_drained().apu.buffer.len() == 0,
        g.audio_drained().audio_drained() == g.audio_drained(),
{
}

/// Whether the joypad holds `button` down.
pub open spec fn is_pressed(j: JoyPad, button: Buttons) -> bool {
    match button {
        Buttons::Up => j.up,
        Buttons::Down => j.down,
        Buttons::Left => j.left,
        Buttons::Right => j.right,
        Buttons::A => j.a_button,
        Buttons::B => j.b_button,
        Buttons::Select => j.select,
        Buttons::Start => j.start,
    }
}

/// Setting a button changes that button's state alone: afterwards it reads
/// as set, and every other button as before.
pub proof fn lemma_press_one_button(j: JoyPad, button: Buttons, pressed: bool)
    ensures
        is_pressed(press(j, button, pressed), button) == pressed,
        forall|other: Buttons|
            other != button ==> #[trigger] is_pressed(press(j, button, pressed), other)
                == is_pressed(j, other),
{
}

/// A pressed button is what the game reads: with the direction group
/// selected (P1 bit 4 low) Right, Left, Up and Down are reported on bits 0-3,
/// with the action group alone selected (bit 5 low, bit 4 high) A, B, Select
/// and Start; a line reads 0 exactly when its button is held.
pub proof fn lemma_press_reported(j: JoyPad, pressed: bool, value: u8)
    ensures
        value & 0x10 == 0 ==> (joypad_register(press(j, Buttons::Right, pressed), value) & 0x01
            == 0) == pressed,
        value & 0x10 == 0 ==> (joypad_register(press(j, Buttons::Left, pressed), value) & 0x02
            == 0) == pressed,
        value & 0x10 == 0 ==> (joypad_register(press(j, Buttons::Up, pressed), value) & 0x04 == 0)
            == pressed,
        value & 0x10 == 0 ==> (joypad_register(press(j, Buttons::Down, pressed), value) & 0x08
            == 0) == pressed,
        value & 0x30 == 0x10 ==> (joypad_register(press(j, Buttons::A, pressed), value) & 0x01
            == 0) == pressed,
        value & 0x30 == 0x10 ==> (joypad_register(press(j, Buttons::B, pressed), value) & 0x02
            == 0) == pressed,
        value & 0x30 == 0x10 ==> (joypad_register(press(j, Buttons::Select, pressed), value)
            & 0x04 == 0) == pressed,
        value & 0x30 == 0x10 ==> (joypad_register(press(j, Buttons::Start, pressed), value) & 0x08
            == 0) == pressed,
{
    lemma_lines_of(press(j, Buttons::Right, pressed), value);
    lemma_lines_of(press(j, Buttons::Left, pressed), value);
    lemma_lines_of(press(j, Buttons::Up, pressed), value);
    lemma_lines_of(press(j, Buttons::Down, pressed), value);
    lemma_lines_of(press(j, Buttons::A, pressed), value);
    lemma_lines_of(press(j, Buttons::B, pressed), value);
    lemma_lines_of(press(j, Buttons::Select, pressed), value);
    lemma_lines_of(press(j, Buttons::Start, pressed), value);
}

/// Each line of the joypad register reads 0 exactly when its button is held,
/// in the group that is selected.
proof fn lemma_lines_of(j: JoyPad, value: u8)
    ensures
        value & 0x10 == 0 ==> (joypad_register(j, value) & 0x01 == 0) == j.right,
        value & 0x10 == 0 ==> (joypad_register(j, value) & 0x02 == 0) == j.left,
        value & 0x10 == 0 ==> (joypad_register(j, value) & 0x04 == 0) == j.up,
        value & 0x10 == 0 ==> (joypad_register(j, value) & 0x08 == 0) == j.down,
        value & 0x30 == 0x10 ==> (joypad_register(j, value) & 0x01 == 0) == j.a_button,
        value & 0x30 == 0x10 ==> (joypad_register(j, value) & 0x02 == 0) == j.b_button,
        value & 0x30 == 0x10 ==> (joypad_register(j, value) & 0x04 == 0) == j.select,
        value & 0x30 == 0x10 ==> (joypad_register(j, value) & 0x08 == 0) == j.start,
{
    lemma_joypad_lines(j, value);
    let r = joypad_register(j, value);
    if value & 0x10 == 0 {
        lemma_nibble_lines(r, bit_of(!j.right), bit_of(!j.left), bit_of(!j.up), bit_of(!j.down));
    }
    if value & 0x30 == 0x10 {
        lemma_nibble_lines(
            r,
            bit_of(!j.a_button),
            bit_of(!j.b_button),
            bit_of(!j.select),
            bit_of(!j.start),
        );
    }
}

/// A byte whose low nibble is made of the bits d0-d3 has d0-d3 as its bits
/// 0-3.
proof fn lemma_nibble_lines(r: u8, d0: u8, d1: u8, d2: u8, d3: u8)
    requires
        d0 <= 1,
        d1 <= 1,
        d2 <= 1,
        d3 <= 1,
        r & 0x0F == d3 * 8 + d2 * 4 + d1 * 2 + d0,
    ensures
        (r & 0x01 == 0) == (d0 == 0),
        (r & 0x02 == 0) == (d1 == 0),
        (r & 0x04 == 0) == (d2 == 0),
        (r & 0x08 == 0) == (d3 == 0),
{
    assert((r & 0x01 == 0) == (d0 == 0) && (r & 0x02 == 0) == (d1 == 0) && (r & 0x04 == 0) == (d2
        == 0) && (r & 0x08 == 0) == (d3 == 0)) by (bit_vector)
        requires
            d0 <= 1,
            d1 <= 1,
            d2 <= 1,
            d3 <= 1,
            r & 0x0F == d3 * 8 + d2 * 4 + d1 * 2 + d0,
    ;
}

/// `joypad` with `button` set to `is_pressed`.
fn press_button(joypad: JoyPad, button: Buttons, is_pressed: bool) -> (j: JoyPad)
    ensures
        j == press(joypad, button, is_pressed),
{
    let mut j = joypad;
    match button {
        Buttons::Up => j.up = is_pressed,
        Buttons::Down => j.down = is_pressed,
        Buttons::Left => j.left = is_pressed,
        Buttons::Right => j.right = is_pressed,
        Buttons::A => j.a_button = is_pressed,
        Buttons::B => j.b_button = is_pressed,
        Buttons::Select => j.select = is_pressed,
        Buttons::Start => j.start = is_pressed,
    }
    j
}

/// The view of the emulator is made of the views of its units.
proof fn use_view(gb: &GameBoy)
    ensures
        gb@ == (GameBoyView { cpu: gb.cpu@, ppu: gb.ppu@, apu: gb.apu@ }),
{
}

} // verus!
