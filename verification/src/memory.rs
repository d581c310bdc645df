//! The memory bus: flat memory, cartridge ROM banking through the memory bank
//! controllers (MBC1, MBC2, MBC3, MBC5), external RAM, the boot ROM overlay,
//! OAM DMA and the joypad register.
use vstd::prelude::*;

use crate::hardware::HardwareMode;

verus! {

pub const MEMORY_BUS_SIZE: usize = 65536;

/// The state of the eight buttons; `true` means pressed.
#[derive(Clone, Copy, PartialEq, Eq, Structural, Debug)]
pub struct JoyPad {
    pub up: bool,
    pub down: bool,
    pub right: bool,
    pub left: bool,
    pub select: bool,
    pub start: bool,
    pub a_button: bool,
    pub b_button: bool,
}

impl JoyPad {
    pub open spec fn released() -> JoyPad {
        JoyPad {
            up: false,
            down: false,
            right: false,
            left: false,
            select: false,
            start: false,
            a_button: false,
            b_button: false,
        }
    }

    /// A joypad with no button pressed.
    pub fn new() -> (j: JoyPad)
        ensures
            j == JoyPad::released(),
    {
        JoyPad {
            up: false,
            down: false,
            right: false,
            left: false,
            select: false,
            start: false,
            a_button: false,
            b_button: false,
        }
    }
}

/// The bit value of a line level.
pub open spec fn bit_of(b: bool) -> u8 {
    if b {
        1
    } else {
        0
    }
}

/// The byte read from the joypad register P1 (0xFF00) when the stored byte is
/// `value`: bit 5 low selects the action buttons, bit 4 low the directions
/// (which win when both are selected); a pressed button reads as 0 and an
/// unselected line keeps the stored bit. Bits 6 and 7 read as 0.
pub open spec fn joypad_register(joypad: JoyPad, value: u8) -> u8 {
    let buttons = value & 0x20 == 0;
    let directions = value & 0x10 == 0;
    let bit_0 = if directions {
        !joypad.right
    } else if buttons {
        !joypad.a_button
    } else {
        value & 0x1 != 0
    };
    let bit_1 = if directions {
        !joypad.left
    } else if buttons {
        !joypad.b_button
    } else {
        value & 0x2 != 0
    };
    let bit_2 = if directions {
        !joypad.up
    } else if buttons {
        !joypad.select
    } else {
        value & 0x4 != 0
    };
    let bit_3 = if directions {
        !joypad.down
    } else if buttons {
        !joypad.start
    } else {
        value & 0x8 != 0
    };
    value & 0x30 | bit_of(bit_3) << 3u8 | bit_of(bit_2) << 2u8 | bit_of(bit_1) << 1u8 | bit_of(
        bit_0,
    )
}

/// External RAM size selected by the cartridge header byte 0x0149.
pub open spec fn ram_size_for(code: u8) -> nat {
    if code == 0x01 {
        0x800
    } else if code == 0x02 {
        0x2000
    } else if code == 0x03 {
        0x8000
    } else if code == 0x04 {
        0x20000
    } else if code == 0x05 {
        0x10000
    } else {
        0
    }
}

/// The abstract state of the memory bus.
pub struct BusView {
    pub memory: Seq<u8>,
    pub joypad: JoyPad,
    pub rom: Seq<u8>,
    pub rom_bank: u16,
    pub mbc_type: u8,
    pub ram_enabled: bool,
    pub ram: Seq<u8>,
    pub ram_bank: u8,
    pub ram_dirty: bool,
    pub hardware_mode: HardwareMode,
    pub boot_rom: Option<Seq<u8>>,
    pub boot_rom_active: bool,
}

impl BusView {
    /// The index into the cartridge ROM that a read of the switchable bank
    /// region (0x4000-0x7FFF) reaches.
    pub open spec fn rom_index(self, address: u16) -> int {
        self.rom_bank * 0x4000 + (address - 0x4000)
    }

    /// The index into external RAM that an access to 0xA000-0xBFFF reaches.
    pub open spec fn ram_index(self, address: u16) -> int {
        self.ram_bank * 0x2000 + (address - 0xA000)
    }

    /// What a read of `address` returns. Its rule is `read_rule`; it is kept
    /// closed so that large proofs do not unfold it, and `lemma_read_at`
    /// states it.
    pub closed spec fn read_at(self, address: u16) -> u8 {
        self.read_rule(address)
    }

    /// The rule of a read: the boot ROM over 0x0000-0x00FF while it is mapped,
    /// the selected ROM bank at 0x4000-0x7FFF (0xFF past the image), external
    /// RAM at 0xA000-0xBFFF (0xFF while disabled or past its end), the joypad
    /// lines at 0xFF00, and flat memory elsewhere.
    pub open spec fn read_rule(self, address: u16) -> u8 {
        if self.boot_rom_active && self.boot_rom is Some && address < 0x0100 {
            self.boot_rom->0[address as int]
        } else {
            let value = if 0x4000 <= address <= 0x7FFF {
                if self.rom_index(address) < self.rom.len() {
                    self.rom[self.rom_index(address)]
                } else {
                    0xFF
                }
            } else if 0xA000 <= address <= 0xBFFF {
                if self.ram_enabled && self.ram_index(address) < self.ram.len() {
                    self.ram[self.ram_index(address)]
                } else {
                    0xFF
                }
            } else {
                self.memory[address as int]
            };
            if address == 0xFF00 {
                joypad_register(self.joypad, value)
            } else {
                value
            }
        }
    }

    /// The ROM bank selected after a write of `value` to the bank register
    /// area 0x2000-0x3FFF. ROM-only and MBC2 cartridges, and cartridge types
    /// the bus does not know, keep their bank.
    pub open spec fn bank_after(self, address: u16, value: u8) -> u16 {
        let mbc = self.mbc_type;
        if 0x01 <= mbc <= 0x03 {
            // MBC1: five bits, bank 0 selects bank 1
            if value % 32 == 0 {
                1
            } else {
                (value % 32) as u16
            }
        } else if 0x0F <= mbc <= 0x13 {
            // MBC3: seven bits
            (value % 128) as u16
        } else if 0x19 <= mbc <= 0x1E {
            // MBC5: low eight bits at 0x2000-0x2FFF, bit 8 at 0x3000-0x3FFF
            if address <= 0x2FFF {
                ((self.rom_bank / 256 % 2) * 256 + value) as u16
            } else {
                ((value % 2) * 256 + self.rom_bank % 256) as u16
            }
        } else {
            self.rom_bank
        }
    }

    /// The flat memory after an OAM DMA transfer from page `page`.
    pub open spec fn dma(self, page: u8) -> Seq<u8> {
        Seq::new(
            self.memory.len(),
            |i: int|
                if 0xFE00 <= i < 0xFEA0 {
                    self.memory[page * 256 + (i - 0xFE00)]
                } else {
                    self.memory[i]
                },
        )
    }

    /// The bus after a write of `value` to `address`. Its rule is
    /// `write_rule`, stated by `lemma_write_at`.
    pub closed spec fn write_at(self, address: u16, value: u8) -> BusView {
        self.write_rule(address, value)
    }

    /// The rule of a write: 0x0000-0x1FFF enables external RAM (0x0A in the
    /// low nibble, on a cartridge with a controller), 0x2000-0x3FFF selects
    /// the ROM bank, 0x4000-0x5FFF the RAM bank (0-3), 0xA000-0xBFFF writes
    /// external RAM while enabled, 0xFF50 unmaps the boot ROM; elsewhere flat
    /// memory stores the byte, DIV (0xFF04) resets to 0, and 0xFF46 starts an
    /// OAM DMA.
    pub open spec fn write_rule(self, address: u16, value: u8) -> BusView {
        if address <= 0x1FFF {
            BusView { ram_enabled: value & 0x0F == 0x0A && self.mbc_type != 0, ..self }
        } else if address <= 0x3FFF {
            BusView { rom_bank: self.bank_after(address, value), ..self }
        } else if address <= 0x5FFF {
            if value <= 3 {
                BusView { ram_bank: value, ..self }
            } else {
                self
            }
        } else if 0xA000 <= address <= 0xBFFF {
            if self.ram_enabled && self.ram_index(address) < self.ram.len() {
                BusView {
                    ram: self.ram.update(self.ram_index(address), value),
                    ram_dirty: true,
                    ..self
                }
            } else {
                self
            }
        } else if address == 0xFF50 {
            BusView { boot_rom_active: false, ..self }
        } else {
            let moved = if address == 0xFF46 {
                self.dma(value)
            } else {
                self.memory
            };
            let stored = if address == 0xFF04 {
                0u8
            } else {
                value
            };
            BusView { memory: moved.update(address as int, stored), ..self }
        }
    }

    /// The invariant of the bus: a full address space, a boot ROM of 256
    /// bytes, and external RAM of the size the cartridge header asks for.
    pub open spec fn wf(self) -> bool {
        &&& self.memory.len() == MEMORY_BUS_SIZE
        &&& (self.boot_rom matches Some(b) ==> b.len() == 256)
        &&& (self.rom.len() > 0x149 ==> self.ram.len() == ram_size_for(self.rom[0x149]))
    }

    /// The bus after a cartridge image is inserted.
    pub open spec fn after_load_rom(self, rom: Seq<u8>, boot_rom: Option<Seq<u8>>) -> BusView {
        let mode = if rom[0x147] == 0xC0 {
            HardwareMode::GBC
        } else {
            HardwareMode::DMG
        };
        let boots = mode == HardwareMode::DMG && boot_rom is Some;
        BusView {
            memory: Seq::new(
                self.memory.len(),
                |i: int|
                    if i < 0x4000 {
                        rom[i]
                    } else {
                        self.memory[i]
                    },
            ),
            rom: rom,
            hardware_mode: mode,
            boot_rom: if boots {
                boot_rom
            } else {
                self.boot_rom
            },
            boot_rom_active: if boots {
                true
            } else {
                self.boot_rom_active
            },
            ram: Seq::new(ram_size_for(rom[0x149]), |i: int| 0u8),
            mbc_type: rom[0x147],
            ..self
        }
    }
}

/// An address whose byte behaves as plain RAM: a write stores the value and
/// touches nothing else, and a read gives the stored byte back.
pub open spec fn plain_address(address: u16) -> bool {
    ||| (0x8000 <= address <= 0x9FFF)
    ||| (0xC000 <= address <= 0xFEFF)
    ||| (0xFF01 <= address && address != 0xFF04 && address != 0xFF46 && address != 0xFF50)
}

pub struct MemoryBus {
    pub memory: [u8; MEMORY_BUS_SIZE],
    pub joypad: JoyPad,
    pub rom: Vec<u8>,
    pub rom_bank: u16,
    pub mbc_type: u8,
    pub ram_enabled: bool,
    pub ram: Vec<u8>,
    pub ram_bank: u8,
    pub ram_dirty: bool,
    pub hardware_mode: HardwareMode,
    pub boot_rom: Option<[u8; 256]>,
    pub boot_rom_active: bool,
}

impl View for MemoryBus {
    type V = BusView;

    open spec fn view(&self) -> BusView {
        BusView {
            memory: self.memory@,
            joypad: self.joypad,
            rom: self.rom@,
            rom_bank: self.rom_bank,
            mbc_type: self.mbc_type,
            ram_enabled: self.ram_enabled,
            ram: self.ram@,
            ram_bank: self.ram_bank,
            ram_dirty: self.ram_dirty,
            hardware_mode: self.hardware_mode,
            boot_rom: match self.boot_rom {
                Some(b) => Some(b@),
                None => None,
            },
            boot_rom_active: self.boot_rom_active,
        }
    }
}

impl MemoryBus {
    pub open spec fn initial() -> BusView {
        BusView {
            memory: Seq::new(MEMORY_BUS_SIZE as nat, |i: int| 0u8),
            joypad: JoyPad::released(),
            rom: Seq::empty(),
            rom_bank: 1,
            mbc_type: 0,
            ram_enabled: false,
            ram: Seq::empty(),
            ram_bank: 0,
            ram_dirty: false,
            hardware_mode: HardwareMode::DMG,
            boot_rom: None,
            boot_rom_active: false,
        }
    }

    /// An empty bus: zeroed memory, no cartridge, bank 1 selected.
    pub fn new() -> (bus: MemoryBus)
        ensures
            bus@ == MemoryBus::initial(),
            bus@.wf(),
    {
        let bus = MemoryBus {
            memory: [0; MEMORY_BUS_SIZE],
            joypad: JoyPad::new(),
            rom: Vec::new(),
            rom_bank: 1,
            mbc_type: 0,
            ram_enabled: false,
            ram: Vec::new(),
            ram_bank: 0,
            ram_dirty: false,
            hardware_mode: HardwareMode::DMG,
            boot_rom: None,
            boot_rom_active: false,
        };
        assert(bus@.memory =~= MemoryBus::initial().memory);
        bus
    }

    /// Reads the byte at `address` as the CPU sees it.
    pub fn read(&self, address: u16) -> (value: u8)
        ensures
            value == self@.read_at(address),
    {
        if self.boot_rom_active {
            if let Some(boot) = &self.boot_rom {
                if address < 0x0100 {
                    return boot[address as usize];
                }
            }
        }
        let value = if 0x4000 <= address && address <= 0x7FFF {
            let index = self.rom_bank as usize * 0x4000 + (address as usize - 0x4000);
            if index < self.rom.len() {
                self.rom[index]
            } else {
                0xFF
            }
        } else if 0xA000 <= address && address <= 0xBFFF {
            let real_address = self.ram_bank as usize * 0x2000 + (address as usize - 0xA000);
            if self.ram_enabled && real_address < self.ram.len() {
                self.ram[real_address]
            } else {
                0xFF
            }
        } else {
            self.memory[address as usize]
        };
        if address == 0xff00 {
            self.handle_joypad(value)
        } else {
            value
        }
    }

    fn handle_joypad(&self, value: u8) -> (result: u8)
        ensures
            result == joypad_register(self.joypad, value),
    {
        // bit 5: select button group (0=active)
        // bit 4: select direction group (0=active)
        // bit 3: down  / start
        // bit 2: up    / select
        // bit 1: left  / b
        // bit 0: right / a
        let mut bit_0: bool = value & 0x1 != 0;
        let mut bit_1: bool = value & 0x2 != 0;
        let mut bit_2: bool = value & 0x4 != 0;
        let mut bit_3: bool = value & 0x8 != 0;
        if value & 0x20 == 0 {
            //button group
            bit_0 = !self.joypad.a_button;
            bit_1 = !self.joypad.b_button;
            bit_2 = !self.joypad.select;
            bit_3 = !self.joypad.start;
        }
        if value & 0x10 == 0 {
            //direction group
            bit_0 = !self.joypad.right;
            bit_1 = !self.joypad.left;
            bit_2 = !self.joypad.up;
            bit_3 = !self.joypad.down;
        }
        let b0: u8 = if bit_0 { 1 } else { 0 };
        let b1: u8 = if bit_1 { 1 } else { 0 };
        let b2: u8 = if bit_2 { 1 } else { 0 };
        let b3: u8 = if bit_3 { 1 } else { 0 };
        value & 0x30 | b3 << 3u8 | b2 << 2u8 | b1 << 1u8 | b0
    }

    /// Writes `value` to `address`: the ROM area programs the bank controller,
    /// 0xA000-0xBFFF reaches external RAM, 0xFF46 starts an OAM DMA, a write to
    /// DIV (0xFF04) resets it and 0xFF50 unmaps the boot ROM.
    pub fn write(&mut self, address: u16, value: u8)
        requires
            old(self)@.wf(),
        ensures
            final(self)@ == old(self)@.write_at(address, value),
            final(self)@.wf(),
    {
        if address <= 0x1FFF {
            // Value 0x0A in lower nibble enables external RAM; any other value disables it
            if (value & 0x0F == 0x0A) && (self.mbc_type != 0) {
                self.ram_enabled = true;
            } else {
                self.ram_enabled = false;
            }
        } else if address <= 0x3FFF {
            self.handle_mbc_write(address, value);
        } else if address <= 0x5FFF {
            //RAM banking
            if value <= 0x03 {
                self.ram_bank = value;
            }
        } else if 0xA000 <= address && address <= 0xBFFF {
            self.write_external_ram(address, value);
        } else if address == 0xFF50 {
            self.boot_rom_active = false;
        } else {
            self.write_internal(address, value);
        }
    }

    /// A write to external RAM: stored, and the save marked dirty, only while
    /// RAM is enabled and the address falls inside the cartridge RAM.
    fn write_external_ram(&mut self, address: u16, value: u8)
        requires
            0xA000 <= address <= 0xBFFF,
        ensures
            final(self)@ == old(self)@.write_at(address, value),
    {
        let real_address = self.ram_bank as usize * 0x2000 + (address as usize - 0xA000);
        if self.ram_enabled && real_address < self.ram.len() {
            self.ram.set(real_address, value);
            self.ram_dirty = true;
        }
    }

    /// A write to the flat part of the address space (0x6000-0x9FFF,
    /// 0xC000-0xFFFF but 0xFF50).
    fn write_internal(&mut self, address: u16, value: u8)
        requires
            old(self)@.wf(),
            0x5FFF < address,
            !(0xA000 <= address <= 0xBFFF),
            address != 0xFF50,
        ensures
            final(self)@ == old(self)@.write_at(address, value),
    {
        if address == 0xFF46 {
            // OAM DMA: copying 160 bytes from source address to OAM (0xFE00-0xFE9F)
            self.oam_dma(value);
        }
        let mut stored = value;
        if address == 0xff04 {
            // DIV is read-only; any write resets it to 0
            stored = 0;
        }
        self.memory[address as usize] = stored;
        proof {
            let o = old(self)@;
            let moved = if address == 0xFF46 {
                o.dma(value)
            } else {
                o.memory
            };
            assert(self@.memory =~= moved.update(address as int, stored));
        }
    }

    /// Copies the 160 bytes of page `page` into object attribute memory.
    fn oam_dma(&mut self, page: u8)
        requires
            old(self)@.wf(),
        ensures
            final(self)@ == (BusView { memory: old(self)@.dma(page), ..old(self)@ }),
    {
        let source: usize = page as usize * 256;
        let mut i: usize = 0;
        while i < 160
            invariant
                0 <= i <= 160,
                source == page * 256,
                self@ == (BusView { memory: self@.memory, ..old(self)@ }),
                self@.memory.len() == MEMORY_BUS_SIZE,
                forall|k: int|
                    0 <= k < MEMORY_BUS_SIZE && !(0xFE00 <= k < 0xFE00 + i) ==> #[trigger] self@.memory[k]
                        == old(self)@.memory[k],
                forall|k: int|
                    0xFE00 <= k < 0xFE00 + i ==> #[trigger] self@.memory[k] == old(self)@.memory[source
                        + (k - 0xFE00)],
            decreases 160 - i,
        {
            let byte = self.memory[source + i];
            self.memory[0xFE00 + i] = byte;
            i = i + 1;
        }
        assert(self@.memory =~= old(self)@.dma(page));
    }

    fn handle_mbc_write(&mut self, address: u16, value: u8)
        requires
            old(self)@.wf(),
            0x2000 <= address <= 0x3FFF,
        ensures
            final(self)@ == (BusView {
                rom_bank: old(self)@.bank_after(address, value),
                ..old(self)@
            }),
    {
        if self.mbc_type == 0x00 {
            /* Rom only */
        } else if 0x01 <= self.mbc_type && self.mbc_type <= 0x03 {
            //mbc1: 5-bit bank number, bank 0 is remapped to 1 (bank 0 is always at 0x0000-0x3FFF)
            self.rom_bank = (value % 32) as u16;
            if self.rom_bank == 0 {
                self.rom_bank = 1;
            }
        } else if 0x05 <= self.mbc_type && self.mbc_type <= 0x06 {
            /* mbc2 */
        } else if 0x0F <= self.mbc_type && self.mbc_type <= 0x13 {
            // mbc3: 7-bit bank number, bank 0 is valid unlike MBC1
            self.rom_bank = (value % 128) as u16;
        } else if 0x19 <= self.mbc_type && self.mbc_type <= 0x1E {
            //mbc5: 9-bit bank number split across two registers
            //0x2000-0x2FFF: low 8 bits, 0x3000-0x3FFF: bit 8
            if address <= 0x2FFF {
                self.rom_bank = (self.rom_bank / 256 % 2) * 256 + value as u16;
            } else {
                self.rom_bank = (value as u16 % 2) * 256 + self.rom_bank % 256;
            }
        } else {
            /* a controller this bus does not know: the bank stays */
        }
    }

    /// Inserts the cartridge image `rom`. For a DMG cartridge the boot ROM
    /// `boot_rom`, where one is given, is mapped over 0x0000-0x00FF.
    pub fn load_rom(&mut self, rom: Vec<u8>, boot_rom: Option<[u8; 256]>)
        requires
            old(self)@.wf(),
            rom.len() >= 0x4000,
        ensures
            final(self)@ == old(self)@.after_load_rom(
                rom@,
                match boot_rom {
                    Some(b) => Some(b@),
                    None => None,
                },
            ),
            final(self)@.wf(),
    {
        let ghost old_memory = self.memory@;
        let header_type = rom[0x147];
        let ram_code = rom[0x149];
        self.hardware_mode = if header_type == 0xC0 {
            HardwareMode::GBC
        } else {
            HardwareMode::DMG
        };
        if header_type != 0xC0 {
            if let Some(b) = boot_rom {
                self.boot_rom = Some(b);
                self.boot_rom_active = true;
            }
        }
        let ram_size: usize = if ram_code == 0x01 {
            0x800
        } else if ram_code == 0x02 {
            0x2000
        } else if ram_code == 0x03 {
            0x8000
        } else if ram_code == 0x04 {
            0x20000
        } else if ram_code == 0x05 {
            0x10000
        } else {
            0
        };
        self.ram = vec![0; ram_size];
        self.mbc_type = header_type;
        assert forall|k: int| 0 <= k < self.ram@.len() implies self.ram@[k] == 0u8 by {
            assert(cloned(0u8, self.ram@[k]));
        }
        let ghost before = self@;
        let mut i: usize = 0;
        while i < 0x4000
            invariant
                0 <= i <= 0x4000,
                rom.len() >= 0x4000,
                self.memory@.len() == MEMORY_BUS_SIZE,
                old_memory.len() == MEMORY_BUS_SIZE,
                self@ == (BusView { memory: self@.memory, ..before }),
                forall|k: int| 0 <= k < i ==> #[trigger] self.memory@[k] == rom@[k],
                forall|k: int| i <= k < MEMORY_BUS_SIZE ==> #[trigger] self.memory@[k] == old_memory[k],
            decreases 0x4000 - i,
        {
            self.memory[i] = rom[i];
            i = i + 1;
        }
        self.rom = rom;
        proof {
            let b = match boot_rom {
                Some(b) => Some(b@),
                None => None,
            };
            let target = old(self)@.after_load_rom(self.rom@, b);
            assert(self@.memory =~= target.memory);
            assert(self@.ram =~= target.ram);
        }
    }

    /// Replaces external RAM with a saved image when its size matches the
    /// cartridge RAM; otherwise the save is rejected and RAM is unchanged.
    /// Returns whether the save was taken.
    pub fn load_ram(&mut self, bytes: Vec<u8>) -> (accepted: bool)
        ensures
            accepted == (bytes@.len() == old(self)@.ram.len()),
            accepted ==> final(self)@ == (BusView { ram: bytes@, ..old(self)@ }),
            !accepted ==> final(self)@ == old(self)@,
    {
        if bytes.len() == self.ram.len() {
            self.ram = bytes;
            true
        } else {
            false
        }
    }

    /// A copy of external RAM, for the frontend to persist.
    pub fn save_ram(&self) -> (data: Vec<u8>)
        ensures
            data@ == self@.ram,
    {
        let data = self.ram.clone();
        assert(data@ =~= self@.ram);
        data
    }
}

// ----------------------------------------------------------------------------
// Laws of the bus
// ----------------------------------------------------------------------------

/// A read follows `read_rule`.
pub proof fn lemma_read_at(b: BusView, address: u16)
    ensures
        b.read_at(address) == b.read_rule(address),
{
}

/// A write follows `write_rule`.
pub proof fn lemma_write_at(b: BusView, address: u16, value: u8)
    ensures
        b.write_at(address, value) == b.write_rule(address, value),
{
}

/// A byte written to a plain address is read back unchanged.
pub proof fn lemma_plain_write_read(b: BusView, address: u16, value: u8)
    requires
        b.wf(),
        plain_address(address),
    ensures
        b.write_at(address, value).read_at(address) == value,
{
}

/// A write to a plain address leaves what every other address reads
/// unchanged, and leaves the cartridge, its RAM and the bank registers alone.
pub proof fn lemma_plain_write_frame(b: BusView, address: u16, value: u8, other: u16)
    requires
        b.wf(),
        plain_address(address),
        other != address,
    ensures
        b.write_at(address, value).read_at(other) == b.read_at(other),
        b.write_at(address, value).wf(),
        b.write_at(address, value) == (BusView {
            memory: b.memory.update(address as int, value),
            ..b
        }),
{
}

/// With external RAM enabled, a byte written inside the cartridge RAM is read
/// back, and the save is marked dirty.
pub proof fn lemma_external_ram_write_read(b: BusView, address: u16, value: u8)
    requires
        b.wf(),
        0xA000 <= address <= 0xBFFF,
        b.ram_enabled,
        b.ram_index(address) < b.ram.len(),
    ensures
        b.write_at(address, value).read_at(address) == value,
        b.write_at(address, value).ram_dirty,
        b.write_at(address, value).ram.len() == b.ram.len(),
{
}

/// Cartridge ROM is read-only: a write anywhere in 0x0000-0x7FFF changes
/// neither the ROM image nor the fixed bank at 0x0000-0x3FFF, only the bank
/// controller's registers.
pub proof fn lemma_rom_area_write(b: BusView, address: u16, value: u8)
    requires
        b.wf(),
        address <= 0x7FFF,
    ensures
        b.write_at(address, value).rom == b.rom,
        forall|a: int| 0 <= a < 0x4000 ==> #[trigger] b.write_at(address, value).memory[a] == b.memory[a],
        b.write_at(address, value).ram == b.ram,
        b.write_at(address, value).ram_dirty == b.ram_dirty,
        b.write_at(address, value).wf(),
{
}

/// MBC1 never selects bank 0 for the switchable region: a bank register
/// write selects a bank from 1 to 31.
pub proof fn lemma_mbc1_bank_nonzero(b: BusView, address: u16, value: u8)
    requires
        0x01 <= b.mbc_type <= 0x03,
        0x2000 <= address <= 0x3FFF,
    ensures
        1 <= b.write_at(address, value).rom_bank <= 31,
{
}

/// OAM DMA: after a write of `page` to 0xFF46, object attribute memory
/// 0xFE00-0xFE9F reads the 160 bytes of memory starting at `page * 256`.
pub proof fn lemma_oam_dma(b: BusView, page: u8, i: u16)
    requires
        b.wf(),
        i < 160,
    ensures
        b.write_at(0xFF46, page).read_at((0xFE00 + i) as u16) == b.memory[page * 256 + i],
        b.write_at(0xFF46, page).wf(),
{
}

/// External RAM is unreachable while disabled: reads give 0xFF and writes
/// change nothing.
pub proof fn lemma_disabled_ram(b: BusView, address: u16, value: u8)
    requires
        0xA000 <= address <= 0xBFFF,
        !b.ram_enabled,
    ensures
        b.read_at(address) == 0xFF,
        b.write_at(address, value) == b,
{
}

/// The joypad register: with the direction group selected (bit 4 low) the
/// low nibble reports Right, Left, Up and Down, with the button group alone
/// selected (bit 5 low) it reports A, B, Select and Start, a pressed button
/// reading as 0; with neither selected the stored nibble reads back. Bits 4
/// and 5 read back as stored, bits 6 and 7 as 0.
pub proof fn lemma_joypad_lines(j: JoyPad, value: u8)
    ensures
        value & 0x10 == 0 ==> joypad_register(j, value) & 0x0F == bit_of(!j.down) * 8 + bit_of(
            !j.up,
        ) * 4 + bit_of(!j.left) * 2 + bit_of(!j.right),
        value & 0x30 == 0x10 ==> joypad_register(j, value) & 0x0F == bit_of(!j.start) * 8
            + bit_of(!j.select) * 4 + bit_of(!j.b_button) * 2 + bit_of(!j.a_button),
        value & 0x30 == 0x30 ==> joypad_register(j, value) & 0x0F == value & 0x0F,
        joypad_register(j, value) & 0xF0 == value & 0x30,
{
    let d0 = bit_of(!j.right);
    let d1 = bit_of(!j.left);
    let d2 = bit_of(!j.up);
    let d3 = bit_of(!j.down);
    let b0 = bit_of(!j.a_button);
    let b1 = bit_of(!j.b_button);
    let b2 = bit_of(!j.select);
    let b3 = bit_of(!j.start);
    let s0 = bit_of(value & 0x1 != 0);
    let s1 = bit_of(value & 0x2 != 0);
    let s2 = bit_of(value & 0x4 != 0);
    let s3 = bit_of(value & 0x8 != 0);
    let r = joypad_register(j, value);
    assert(value & 0x30 == 0x10 ==> (value & 0x10 != 0 && value & 0x20 == 0)) by (bit_vector);
    assert(value & 0x30 == 0x30 ==> (value & 0x10 != 0 && value & 0x20 != 0)) by (bit_vector);
    let (e0, e1, e2, e3) = if value & 0x10 == 0 {
        (d0, d1, d2, d3)
    } else if value & 0x20 == 0 {
        (b0, b1, b2, b3)
    } else {
        (s0, s1, s2, s3)
    };
    assert(r == value & 0x30 | e3 << 3u8 | e2 << 2u8 | e1 << 1u8 | e0);
    assert(e0 <= 1 && e1 <= 1 && e2 <= 1 && e3 <= 1);
    assert(s0 <= 1 && s1 <= 1 && s2 <= 1 && s3 <= 1);
    lemma_pack_nibble(value, e0, e1, e2, e3);
    if value & 0x30 == 0x30 {
        lemma_stored_nibble(value, s0, s1, s2, s3);
    }
}

/// Four bit values packed below the two group-select bits.
proof fn lemma_pack_nibble(value: u8, e0: u8, e1: u8, e2: u8, e3: u8)
    requires
        e0 <= 1,
        e1 <= 1,
        e2 <= 1,
        e3 <= 1,
    ensures
        (value & 0x30 | e3 << 3u8 | e2 << 2u8 | e1 << 1u8 | e0) & 0x0F == e3 * 8 + e2 * 4 + e1 * 2
            + e0,
        (value & 0x30 | e3 << 3u8 | e2 << 2u8 | e1 << 1u8 | e0) & 0xF0 == value & 0x30,
{
    assert((value & 0x30 | e3 << 3u8 | e2 << 2u8 | e1 << 1u8 | e0) & 0x0F == e3 * 8 + e2 * 4 + e1
        * 2 + e0) by (bit_vector)
        requires
            e0 <= 1,
            e1 <= 1,
            e2 <= 1,
            e3 <= 1,
    ;
    assert((value & 0x30 | e3 << 3u8 | e2 << 2u8 | e1 << 1u8 | e0) & 0xF0 == value & 0x30)
        by (bit_vector)
        requires
            e0 <= 1,
            e1 <= 1,
            e2 <= 1,
            e3 <= 1,
    ;
}

/// The low nibble of a byte is made of its four low bits.
proof fn lemma_stored_nibble(value: u8, s0: u8, s1: u8, s2: u8, s3: u8)
    requires
        s0 == (if value & 0x1 != 0 { 1u8 } else { 0u8 }),
        s1 == (if value & 0x2 != 0 { 1u8 } else { 0u8 }),
        s2 == (if value & 0x4 != 0 { 1u8 } else { 0u8 }),
        s3 == (if value & 0x8 != 0 { 1u8 } else { 0u8 }),
    ensures
        s3 * 8 + s2 * 4 + s1 * 2 + s0 == value & 0x0F,
{
    assert(s3 * 8 + s2 * 4 + s1 * 2 + s0 == value & 0x0F) by (bit_vector)
        requires
            s0 == (if value & 0x1 != 0 { 1u8 } else { 0u8 }),
            s1 == (if value & 0x2 != 0 { 1u8 } else { 0u8 }),
            s2 == (if value & 0x4 != 0 { 1u8 } else { 0u8 }),
            s3 == (if value & 0x8 != 0 { 1u8 } else { 0u8 }),
    ;
}

} // verus!
