//! The SM83 CPU: registers, flags, the arithmetic and logic unit, the stack
//! and the instruction decoder, stated against an instruction-level model of
//! the processor.
use vstd::prelude::*;

use crate::memory::{
    BusView, MEMORY_BUS_SIZE, lemma_plain_write_frame, lemma_plain_write_read, plain_address,
};

verus! {

/// Address of the interrupt request register IF.
pub const IF_ADDRESS: u16 = 0xFF0F;

// ----------------------------------------------------------------------------
// Arithmetic helpers of the model
// ----------------------------------------------------------------------------

/// `x` reduced to a byte (two's complement wrap-around).
pub open spec fn byte(x: int) -> u8 {
    (x % 256) as u8
}

/// `x` reduced to a 16-bit word.
pub open spec fn word(x: int) -> u16 {
    (x % 65536) as u16
}

/// The signed value of a byte (two's complement).
pub open spec fn signed(v: u8) -> int {
    if v < 128 {
        v as int
    } else {
        v - 256
    }
}

/// The word whose high byte is `hi` and low byte is `lo`.
pub open spec fn pair(hi: u8, lo: u8) -> u16 {
    (hi * 256 + lo) as u16
}

// ----------------------------------------------------------------------------
// Flags
// ----------------------------------------------------------------------------

/// The flag register F: zero (bit 7), subtract (bit 6), half carry (bit 5)
/// and carry (bit 4); the low nibble always reads 0.
#[derive(Clone, Copy, PartialEq, Eq, Structural, Debug)]
pub struct FlagsRegister {
    pub zero: bool,
    pub subtract: bool,
    pub half_carry: bool,
    pub carry: bool,
}

/// The byte encoding of the flags.
pub open spec fn flags_byte(f: FlagsRegister) -> u8 {
    ((if f.zero {
        0x80int
    } else {
        0
    }) + (if f.subtract {
        0x40int
    } else {
        0
    }) + (if f.half_carry {
        0x20int
    } else {
        0
    }) + (if f.carry {
        0x10int
    } else {
        0
    })) as u8
}

/// The flags that a byte encodes (its low nibble is ignored).
pub open spec fn flags_of(v: u8) -> FlagsRegister {
    FlagsRegister {
        zero: v & 0x80 != 0,
        subtract: v & 0x40 != 0,
        half_carry: v & 0x20 != 0,
        carry: v & 0x10 != 0,
    }
}

pub open spec fn flags(zero: bool, subtract: bool, half_carry: bool, carry: bool) -> FlagsRegister {
    FlagsRegister { zero, subtract, half_carry, carry }
}

impl FlagsRegister {
    /// The byte value of F.
    pub fn get_register(&self) -> (v: u8)
        ensures
            v == flags_byte(*self),
    {
        let z: u8 = if self.zero {
            0x80
        } else {
            0
        };
        let n: u8 = if self.subtract {
            0x40
        } else {
            0
        };
        let h: u8 = if self.half_carry {
            0x20
        } else {
            0
        };
        let c: u8 = if self.carry {
            0x10
        } else {
            0
        };
        z + n + h + c
    }

    /// Loads F from a byte.
    pub fn set_register(&mut self, value: u8)
        ensures
            *final(self) == flags_of(value),
    {
        self.zero = value & 0x80 != 0;
        self.subtract = value & 0x40 != 0;
        self.half_carry = value & 0x20 != 0;
        self.carry = value & 0x10 != 0;
    }
}

/// Storing the flags as a byte and loading them back gives the same flags.
pub proof fn lemma_flags_roundtrip(f: FlagsRegister)
    ensures
        flags_of(flags_byte(f)) == f,
{
    let (z, n, h, c) = (f.zero, f.subtract, f.half_carry, f.carry);
    let b = flags_byte(f);
    assert(b == ((if z { 0x80u8 } else { 0u8 }) | (if n { 0x40u8 } else { 0u8 }) | (if h {
        0x20u8
    } else {
        0u8
    }) | (if c { 0x10u8 } else { 0u8 }))) by {
        lemma_flag_bits_disjoint(z, n, h, c);
    }
    assert(flags_of(b).zero == z && flags_of(b).subtract == n && flags_of(b).half_carry == h
        && flags_of(b).carry == c) by {
        lemma_flag_bits_decode(z, n, h, c);
    }
}

/// Loading the flags from a byte and storing them keeps the high nibble of the
/// byte and clears the low nibble.
pub proof fn lemma_flags_byte_masks_low_nibble(v: u8)
    ensures
        flags_byte(flags_of(v)) == v & 0xF0,
{
    let f = flags_of(v);
    assert(((if v & 0x80 != 0 { 0x80u8 } else { 0u8 }) | (if v & 0x40 != 0 { 0x40u8 } else {
        0u8
    }) | (if v & 0x20 != 0 { 0x20u8 } else { 0u8 }) | (if v & 0x10 != 0 { 0x10u8 } else { 0u8 }))
        == v & 0xF0) by (bit_vector);
    lemma_flag_bits_disjoint(f.zero, f.subtract, f.half_carry, f.carry);
}

proof fn lemma_flag_bits_disjoint(z: bool, n: bool, h: bool, c: bool)
    ensures
        ((if z { 0x80int } else { 0 }) + (if n { 0x40int } else { 0 }) + (if h { 0x20int } else {
            0
        }) + (if c { 0x10int } else { 0 })) as u8 == ((if z { 0x80u8 } else { 0u8 }) | (if n {
            0x40u8
        } else {
            0u8
        }) | (if h { 0x20u8 } else { 0u8 }) | (if c { 0x10u8 } else { 0u8 })),
{
    let zz: u8 = if z { 0x80u8 } else { 0u8 };
    let nn: u8 = if n { 0x40u8 } else { 0u8 };
    let hh: u8 = if h { 0x20u8 } else { 0u8 };
    let cc: u8 = if c { 0x10u8 } else { 0u8 };
    assert((zz == 0 || zz == 0x80) && (nn == 0 || nn == 0x40) && (hh == 0 || hh == 0x20) && (cc
        == 0 || cc == 0x10) ==> zz + nn + hh + cc == zz | nn | hh | cc) by (bit_vector);
}

proof fn lemma_flag_bits_decode(z: bool, n: bool, h: bool, c: bool)
    ensures
        ({
            let b = (if z { 0x80u8 } else { 0u8 }) | (if n { 0x40u8 } else { 0u8 }) | (if h {
                0x20u8
            } else {
                0u8
            }) | (if c { 0x10u8 } else { 0u8 });
            (b & 0x80 != 0) == z && (b & 0x40 != 0) == n && (b & 0x20 != 0) == h && (b & 0x10
                != 0) == c
        }),
{
    let zz: u8 = if z { 0x80u8 } else { 0u8 };
    let nn: u8 = if n { 0x40u8 } else { 0u8 };
    let hh: u8 = if h { 0x20u8 } else { 0u8 };
    let cc: u8 = if c { 0x10u8 } else { 0u8 };
    assert((zz == 0 || zz == 0x80) && (nn == 0 || nn == 0x40) && (hh == 0 || hh == 0x20) && (cc
        == 0 || cc == 0x10) ==> {
        let b = zz | nn | hh | cc;
        ((b & 0x80 != 0) == (zz == 0x80)) && ((b & 0x40 != 0) == (nn == 0x40)) && ((b & 0x20
            != 0) == (hh == 0x20)) && ((b & 0x10 != 0) == (cc == 0x10))
    }) by (bit_vector);
}

// ----------------------------------------------------------------------------
// Registers
// ----------------------------------------------------------------------------

/// The eight 8-bit registers, the program counter and the stack pointer.
#[derive(Clone, Copy, PartialEq, Eq, Structural, Debug)]
pub struct Registers {
    pub a: u8,
    pub b: u8,
    pub c: u8,
    pub d: u8,
    pub e: u8,
    pub f: FlagsRegister,  //flags 1111 0000: 1- zero 1- Subtraction 1- Half Carry 1- Carry 0000
    pub h: u8,
    pub l: u8,
    pub pc: u16,  //program counter
    pub sp: u16,  //stack pointer
}

impl Registers {
    pub open spec fn initial() -> Registers {
        Registers {
            a: 0,
            b: 0,
            c: 0,
            d: 0,
            e: 0,
            f: flags(false, false, false, false),
            h: 0,
            l: 0,
            pc: 0x0100,
            sp: 0xFFFE,
        }
    }

    pub open spec fn af(self) -> u16 {
        pair(self.a, flags_byte(self.f))
    }

    pub open spec fn bc(self) -> u16 {
        pair(self.b, self.c)
    }

    pub open spec fn de(self) -> u16 {
        pair(self.d, self.e)
    }

    pub open spec fn hl(self) -> u16 {
        pair(self.h, self.l)
    }

    pub open spec fn with_af(self, v: u16) -> Registers {
        Registers { a: (v / 256) as u8, f: flags_of((v % 256) as u8), ..self }
    }

    pub open spec fn with_bc(self, v: u16) -> Registers {
        Registers { b: (v / 256) as u8, c: (v % 256) as u8, ..self }
    }

    pub open spec fn with_de(self, v: u16) -> Registers {
        Registers { d: (v / 256) as u8, e: (v % 256) as u8, ..self }
    }

    pub open spec fn with_hl(self, v: u16) -> Registers {
        Registers { h: (v / 256) as u8, l: (v % 256) as u8, ..self }
    }

    pub open spec fn with_flags(self, f: FlagsRegister) -> Registers {
        Registers { f: f, ..self }
    }

    /// Power-on values: everything zero, execution from the cartridge entry
    /// point 0x0100, the stack at 0xFFFE.
    pub fn new() -> (r: Registers)
        ensures
            r == Registers::initial(),
    {
        Registers {
            a: 0,
            b: 0,
            c: 0,
            d: 0,
            e: 0,
            f: FlagsRegister { zero: false, subtract: false, half_carry: false, carry: false },
            h: 0,
            l: 0,
            pc: 0x0100,
            sp: 0xFFFE,
        }
    }

    //get 16-bit virtual regs
    pub fn get_af(&self) -> (v: u16)
        ensures
            v == self.af(),
    {
        let f = self.f.get_register();
        proof {
            crate::bits::lemma_pack_pair(self.a, f);
        }
        (self.a as u16) << 8u16 | f as u16
    }

    pub fn get_bc(&self) -> (v: u16)
        ensures
            v == self.bc(),
    {
        proof {
            crate::bits::lemma_pack_pair(self.b, self.c);
        }
        (self.b as u16) << 8u16 | self.c as u16
    }

    pub fn get_de(&self) -> (v: u16)
        ensures
            v == self.de(),
    {
        proof {
            crate::bits::lemma_pack_pair(self.d, self.e);
        }
        (self.d as u16) << 8u16 | self.e as u16
    }

    pub fn get_hl(&self) -> (v: u16)
        ensures
            v == self.hl(),
    {
        proof {
            crate::bits::lemma_pack_pair(self.h, self.l);
        }
        (self.h as u16) << 8u16 | self.l as u16
    }

    //set 16-bit virtual regs
    pub fn set_af(&mut self, value: u16)
        ensures
            *final(self) == old(self).with_af(value),
    {
        proof {
            crate::bits::lemma_split_word(value);
        }
        self.a = ((value & 0xFF00) >> 8u16) as u8;
        self.f.set_register((value & 0xFF) as u8);
    }

    pub fn set_bc(&mut self, value: u16)
        ensures
            *final(self) == old(self).with_bc(value),
    {
        proof {
            crate::bits::lemma_split_word(value);
        }
        self.b = ((value & 0xFF00) >> 8u16) as u8;
        self.c = (value & 0xFF) as u8;
    }

    pub fn set_de(&mut self, value: u16)
        ensures
            *final(self) == old(self).with_de(value),
    {
        proof {
            crate::bits::lemma_split_word(value);
        }
        self.d = ((value & 0xFF00) >> 8u16) as u8;
        self.e = (value & 0xFF) as u8;
    }

    pub fn set_hl(&mut self, value: u16)
        ensures
            *final(self) == old(self).with_hl(value),
    {
        proof {
            crate::bits::lemma_split_word(value);
        }
        self.h = ((value & 0xFF00) >> 8u16) as u8;
        self.l = (value & 0xFF) as u8;
    }
}

/// Writing a register pair and reading it back gives the written word, and
/// writing a pair leaves the other registers unchanged.
pub proof fn lemma_register_pair_roundtrip(r: Registers, v: u16)
    ensures
        r.with_bc(v).bc() == v,
        r.with_de(v).de() == v,
        r.with_hl(v).hl() == v,
        r.with_af(v).af() == v & 0xFFF0,
        r.with_bc(v).de() == r.de() && r.with_bc(v).hl() == r.hl() && r.with_bc(v).a == r.a,
        r.with_de(v).bc() == r.bc() && r.with_de(v).hl() == r.hl(),
        r.with_hl(v).bc() == r.bc() && r.with_hl(v).de() == r.de(),
{
    lemma_flags_byte_masks_low_nibble((v % 256) as u8);
    let lo = (v % 256) as u8;
    assert(lo & 0xF0 == lo - lo % 16) by (bit_vector);
    assert(v & 0xFFF0 == v - v % 16) by (bit_vector);
}

/// Reading a register pair and writing it back changes nothing.
pub proof fn lemma_register_pair_identity(r: Registers)
    ensures
        r.with_bc(r.bc()) == r,
        r.with_de(r.de()) == r,
        r.with_hl(r.hl()) == r,
{
}

// ----------------------------------------------------------------------------
// The arithmetic and logic unit, as functions on the register file
// ----------------------------------------------------------------------------

/// ADD A, v
pub open spec fn alu_add(r: Registers, v: u8) -> Registers {
    Registers {
        a: byte(r.a + v),
        f: flags(byte(r.a + v) == 0, false, r.a % 16 + v % 16 > 15, r.a + v > 255),
        ..r
    }
}

/// ADC A, v (add with the carry flag)
pub open spec fn alu_adc(r: Registers, v: u8) -> Registers {
    let c: int = if r.f.carry {
        1
    } else {
        0
    };
    Registers {
        a: byte(r.a + v + c),
        f: flags(byte(r.a + v + c) == 0, false, r.a % 16 + v % 16 + c > 15, r.a + v + c > 255),
        ..r
    }
}

/// SUB A, v
pub open spec fn alu_sub(r: Registers, v: u8) -> Registers {
    Registers {
        a: byte(r.a - v),
        f: flags(byte(r.a - v) == 0, true, r.a % 16 < v % 16, r.a < v),
        ..r
    }
}

/// SBC A, v (subtract with the carry flag)
pub open spec fn alu_sbc(r: Registers, v: u8) -> Registers {
    let c: int = if r.f.carry {
        1
    } else {
        0
    };
    Registers {
        a: byte(r.a - v - c),
        f: flags(byte(r.a - v - c) == 0, true, r.a % 16 < v % 16 + c, r.a < v + c),
        ..r
    }
}

/// AND A, v
pub open spec fn alu_and(r: Registers, v: u8) -> Registers {
    Registers { a: r.a & v, f: flags(r.a & v == 0, false, true, false), ..r }
}

/// XOR A, v
pub open spec fn alu_xor(r: Registers, v: u8) -> Registers {
    Registers { a: r.a ^ v, f: flags(r.a ^ v == 0, false, false, false), ..r }
}

/// OR A, v
pub open spec fn alu_or(r: Registers, v: u8) -> Registers {
    Registers { a: r.a | v, f: flags(r.a | v == 0, false, false, false), ..r }
}

/// CP A, v: the flags of SUB A, v with A unchanged.
pub open spec fn alu_cp(r: Registers, v: u8) -> Registers {
    Registers { f: alu_sub(r, v).f, ..r }
}

/// The ALU operation with the three-bit code `op` (ADD, ADC, SUB, SBC, AND,
/// XOR, OR, CP).
pub open spec fn alu_op(op: u8, r: Registers, v: u8) -> Registers {
    if op == 0 {
        alu_add(r, v)
    } else if op == 1 {
        alu_adc(r, v)
    } else if op == 2 {
        alu_sub(r, v)
    } else if op == 3 {
        alu_sbc(r, v)
    } else if op == 4 {
        alu_and(r, v)
    } else if op == 5 {
        alu_xor(r, v)
    } else if op == 6 {
        alu_or(r, v)
    } else {
        alu_cp(r, v)
    }
}

/// INC: the flags after incrementing `v` (carry unchanged).
pub open spec fn inc_flags(f: FlagsRegister, v: u8) -> FlagsRegister {
    flags(byte(v + 1) == 0, false, v % 16 == 15, f.carry)
}

/// DEC: the flags after decrementing `v` (carry unchanged).
pub open spec fn dec_flags(f: FlagsRegister, v: u8) -> FlagsRegister {
    flags(byte(v - 1) == 0, true, v % 16 == 0, f.carry)
}

/// ADD HL, v: the sum and its flags (zero unchanged).
pub open spec fn add16_flags(f: FlagsRegister, x: u16, v: u16) -> FlagsRegister {
    flags(f.zero, false, x % 4096 + v % 4096 > 4095, x + v > 65535)
}

/// The rotate/shift operation with code `k` of the CB page: RLC, RRC, RL, RR,
/// SLA, SRA, SWAP, SRL; `carry` is the carry flag before the operation.
pub open spec fn shift_result(k: u8, v: u8, carry: bool) -> u8 {
    let c: u8 = if carry {
        1
    } else {
        0
    };
    if k == 0 {
        (v << 1u8) | (v >> 7u8)
    } else if k == 1 {
        (v << 7u8) | (v >> 1u8)
    } else if k == 2 {
        (v << 1u8) | c
    } else if k == 3 {
        (c << 7u8) | (v >> 1u8)
    } else if k == 4 {
        v << 1u8
    } else if k == 5 {
        v & 0x80 | v >> 1u8
    } else if k == 6 {
        (v & 0x0F) << 4u8 | (v & 0xF0) >> 4u8
    } else {
        v >> 1u8
    }
}

/// The carry flag after the rotate/shift operation with code `k`.
pub open spec fn shift_carry(k: u8, v: u8) -> bool {
    if k == 0 || k == 2 || k == 4 {
        v & 0x80 != 0
    } else if k == 6 {
        false
    } else {
        v & 0x01 != 0
    }
}

/// The flags after the CB-page rotate/shift with code `k`.
pub open spec fn shift_flags(k: u8, v: u8, f: FlagsRegister) -> FlagsRegister {
    flags(shift_result(k, v, f.carry) == 0, false, false, shift_carry(k, v))
}

/// The flags after RLCA, RRCA, RLA or RRA: like the CB forms but the zero
/// flag is always cleared.
pub open spec fn rotate_a_flags(k: u8, v: u8) -> FlagsRegister {
    flags(false, false, false, shift_carry(k, v))
}

/// BIT b, v: zero is set when bit `b` of `v` is clear.
pub open spec fn bit_flags(f: FlagsRegister, v: u8, b: u8) -> FlagsRegister {
    flags(v & (1u8 << b) == 0, false, true, f.carry)
}

/// The accumulator and flags after DAA.
pub open spec fn daa(r: Registers) -> Registers {
    if r.f.subtract {
        let a1 = if r.f.half_carry {
            byte(r.a - 6)
        } else {
            r.a
        };
        let a2 = if r.f.carry {
            byte(a1 - 0x60)
        } else {
            a1
        };
        Registers { a: a2, f: flags(a2 == 0, r.f.subtract, false, r.f.carry), ..r }
    } else {
        // both corrections are decided on the accumulator before either is
        // applied
        let adjust = r.a > 0x99 || r.f.carry;
        let a1 = if adjust {
            byte(r.a + 0x60)
        } else {
            r.a
        };
        let a2 = if r.a % 16 > 9 || r.f.half_carry {
            byte(a1 + 6)
        } else {
            a1
        };
        Registers { a: a2, f: flags(a2 == 0, r.f.subtract, false, adjust), ..r }
    }
}

/// Whether `b` is packed binary-coded decimal: two decimal digits, one per
/// nibble.
pub open spec fn is_bcd(b: u8) -> bool {
    b / 16 <= 9 && b % 16 <= 9
}

/// The number 0-99 that a packed BCD byte encodes.
pub open spec fn bcd_value(b: u8) -> int {
    (b / 16) * 10 + b % 16
}

/// DAA after a subtraction: SUB of two packed BCD bytes followed by DAA
/// leaves the BCD encoding of x - y modulo 100 (0x00 - 0x01 gives 0x99),
/// with carry set exactly when x < y.
pub proof fn lemma_daa_after_sub(r: Registers, y: u8)
    requires
        is_bcd(r.a),
        is_bcd(y),
    ensures
        is_bcd(daa(alu_sub(r, y)).a),
        bcd_value(daa(alu_sub(r, y)).a) == (bcd_value(r.a) - bcd_value(y)) % 100,
        daa(alu_sub(r, y)).f.carry == (bcd_value(r.a) < bcd_value(y)),
        daa(alu_sub(r, y)).f.zero == (daa(alu_sub(r, y)).a == 0),
{
    lemma_bcd_sub_correction(r.a, y, 0);
}

/// DAA after a subtraction with borrow: SBC of two packed BCD bytes followed
/// by DAA leaves the BCD encoding of x - y - carry modulo 100, with carry set
/// exactly when x < y + carry.
pub proof fn lemma_daa_after_sbc(r: Registers, y: u8)
    requires
        is_bcd(r.a),
        is_bcd(y),
    ensures
        is_bcd(daa(alu_sbc(r, y)).a),
        bcd_value(daa(alu_sbc(r, y)).a) == (bcd_value(r.a) - bcd_value(y) - (if r.f.carry {
            1int
        } else {
            0
        })) % 100,
        daa(alu_sbc(r, y)).f.carry == (bcd_value(r.a) < bcd_value(y) + (if r.f.carry {
            1int
        } else {
            0
        })),
{
    lemma_bcd_sub_correction(r.a, y, if r.f.carry { 1int } else { 0 });
}

/// DAA after an addition: ADD of two packed BCD bytes followed by DAA
/// leaves the BCD encoding of x + y modulo 100 (0x99 + 0x01 gives 0x00),
/// with carry set exactly when x + y reaches 100.
pub proof fn lemma_daa_after_add(r: Registers, y: u8)
    requires
        is_bcd(r.a),
        is_bcd(y),
    ensures
        is_bcd(daa(alu_add(r, y)).a),
        bcd_value(daa(alu_add(r, y)).a) == (bcd_value(r.a) + bcd_value(y)) % 100,
        daa(alu_add(r, y)).f.carry == (bcd_value(r.a) + bcd_value(y) >= 100),
        daa(alu_add(r, y)).f.zero == (daa(alu_add(r, y)).a == 0),
{
    lemma_bcd_add_correction(r.a, y, 0);
}

/// DAA after an addition with carry: ADC of two packed BCD bytes followed by
/// DAA leaves the BCD encoding of x + y + carry modulo 100, with carry set
/// exactly when that sum reaches 100.
pub proof fn lemma_daa_after_adc(r: Registers, y: u8)
    requires
        is_bcd(r.a),
        is_bcd(y),
    ensures
        is_bcd(daa(alu_adc(r, y)).a),
        bcd_value(daa(alu_adc(r, y)).a) == (bcd_value(r.a) + bcd_value(y) + (if r.f.carry {
            1int
        } else {
            0
        })) % 100,
        daa(alu_adc(r, y)).f.carry == (bcd_value(r.a) + bcd_value(y) + (if r.f.carry {
            1int
        } else {
            0
        }) >= 100),
{
    lemma_bcd_add_correction(r.a, y, if r.f.carry { 1int } else { 0 });
}

/// The decimal correction of a BCD addition x + y + c, as DAA computes it
/// from the raw sum: 0x60 is added when the raw sum exceeds 0x99 or carried
/// out of the byte, and 6 when its low digit exceeds 9 or carried out of the
/// nibble. Its first component is the corrected byte, its second the
/// decision to add 0x60.
spec fn bcd_add_corrected(x: u8, y: u8, c: int) -> (u8, bool) {
    let a = byte(x + y + c);
    let adjust = a > 0x99 || x + y + c > 255;
    let a1 = if adjust {
        byte(a + 0x60)
    } else {
        a
    };
    let a2 = if a % 16 > 9 || x % 16 + y % 16 + c > 15 {
        byte(a1 + 6)
    } else {
        a1
    };
    (a2, adjust)
}

/// The correction of a BCD addition gives the decimal sum modulo 100, and
/// its adjust decision is the decimal carry.
proof fn lemma_bcd_add_correction(x: u8, y: u8, c: int)
    requires
        is_bcd(x),
        is_bcd(y),
        c == 0 || c == 1,
    ensures
        is_bcd(bcd_add_corrected(x, y, c).0),
        bcd_value(bcd_add_corrected(x, y, c).0) == (bcd_value(x) + bcd_value(y) + c) % 100,
        bcd_add_corrected(x, y, c).1 == (bcd_value(x) + bcd_value(y) + c >= 100),
{
    let low = x % 16 + y % 16 + c;
    let high = x / 16 + y / 16;
    lemma_bcd_sum_digits(x, y, c);
    assert(bcd_add_corrected(x, y, c) == bcd_add_raw(high, low));
    lemma_bcd_add_raw(high, low);
}

/// The raw sum x + y + c of two BCD bytes has the digit sums as its nibbles.
proof fn lemma_bcd_sum_digits(x: u8, y: u8, c: int)
    requires
        is_bcd(x),
        is_bcd(y),
        c == 0 || c == 1,
    ensures
        x + y + c == (x / 16 + y / 16) * 16 + (x % 16 + y % 16 + c),
        bcd_value(x) + bcd_value(y) + c == (x / 16 + y / 16) * 10 + (x % 16 + y % 16 + c),
        0 <= x / 16 + y / 16 <= 18,
        0 <= x % 16 + y % 16 + c <= 19,
{
}

/// The correction DAA applies to a raw sum with high digit sum `high` and
/// low digit sum `low`.
spec fn bcd_add_raw(high: int, low: int) -> (u8, bool) {
    let s = high * 16 + low;
    let a = byte(s);
    let adjust = a > 0x99 || s > 255;
    let a1 = if adjust {
        byte(a + 0x60)
    } else {
        a
    };
    let a2 = if a % 16 > 9 || low > 15 {
        byte(a1 + 6)
    } else {
        a1
    };
    (a2, adjust)
}

/// The corrected raw sum is the decimal sum modulo 100, and the 0x60
/// adjustment is the decimal carry.
proof fn lemma_bcd_add_raw(high: int, low: int)
    requires
        0 <= high <= 18,
        0 <= low <= 19,
    ensures
        is_bcd(bcd_add_raw(high, low).0),
        bcd_value(bcd_add_raw(high, low).0) == (high * 10 + low) % 100,
        bcd_add_raw(high, low).1 == (high * 10 + low >= 100),
{
    let total = high * 10 + low;
    if low <= 9 {
        lemma_add_low_small(high, low);
        if high >= 10 {
            lemma_digits(high - 10, low);
            assert(total % 100 == (high - 10) * 10 + low);
        } else {
            lemma_digits(high, low);
            assert(total % 100 == total);
        }
    } else if low <= 15 {
        lemma_add_low_middle(high, low);
        if high >= 9 {
            lemma_digits(high - 9, low - 10);
            assert(total % 100 == (high - 9) * 10 + (low - 10));
        } else {
            lemma_digits(high + 1, low - 10);
            assert(total % 100 == total);
        }
    } else {
        lemma_add_low_carry(high, low);
        if high >= 9 {
            lemma_digits(high - 9, low - 10);
            assert(total % 100 == (high - 9) * 10 + (low - 10));
        } else {
            lemma_digits(high + 1, low - 10);
            assert(total % 100 == total);
        }
    }
}

/// The addition correction when the raw low digit is a decimal digit.
proof fn lemma_add_low_small(high: int, low: int)
    requires
        0 <= high <= 18,
        0 <= low <= 9,
    ensures
        ({
            let s = high * 16 + low;
            let a = byte(s);
            let adjust = a > 0x99 || s > 255;
            let a1 = if adjust {
                byte(a + 0x60)
            } else {
                a
            };
            let a2 = if a % 16 > 9 || low > 15 {
                byte(a1 + 6)
            } else {
                a1
            };
            &&& adjust == (high >= 10)
            &&& a2 == (if high >= 10 {
                (high - 10) * 16 + low
            } else {
                s
            })
        }),
{
    let s = high * 16 + low;
    lemma_byte_in_range(s);
    if high <= 15 {
        lemma_digits(high, low);
        if high >= 10 {
            lemma_byte_in_range(s + 0x60);
        }
    } else {
        lemma_digits(high - 16, low);
        lemma_byte_in_range(s - 256 + 0x60);
    }
}

/// The addition correction when the raw low digit is 10-15.
proof fn lemma_add_low_middle(high: int, low: int)
    requires
        0 <= high <= 18,
        10 <= low <= 15,
    ensures
        ({
            let s = high * 16 + low;
            let a = byte(s);
            let adjust = a > 0x99 || s > 255;
            let a1 = if adjust {
                byte(a + 0x60)
            } else {
                a
            };
            let a2 = if a % 16 > 9 || low > 15 {
                byte(a1 + 6)
            } else {
                a1
            };
            &&& adjust == (high >= 9)
            &&& a2 == (if high >= 9 {
                (high - 9) * 16 + (low - 10)
            } else {
                (high + 1) * 16 + (low - 10)
            })
        }),
{
    let s = high * 16 + low;
    lemma_byte_in_range(s);
    if high <= 15 {
        lemma_digits(high, low);
        if high >= 9 {
            lemma_byte_in_range(s + 0x60);
            lemma_byte_in_range(byte(s + 0x60) + 6);
        } else {
            lemma_byte_in_range(s + 6);
        }
    } else {
        lemma_digits(high - 16, low);
        lemma_byte_in_range(s - 256 + 0x60);
        lemma_byte_in_range(s - 256 + 0x66);
    }
}

/// The addition correction when the low digits carried out of the nibble.
proof fn lemma_add_low_carry(high: int, low: int)
    requires
        0 <= high <= 18,
        16 <= low <= 19,
    ensures
        ({
            let s = high * 16 + low;
            let a = byte(s);
            let adjust = a > 0x99 || s > 255;
            let a1 = if adjust {
                byte(a + 0x60)
            } else {
                a
            };
            let a2 = if a % 16 > 9 || low > 15 {
                byte(a1 + 6)
            } else {
                a1
            };
            &&& adjust == (high >= 9)
            &&& a2 == (if high >= 9 {
                (high - 9) * 16 + (low - 10)
            } else {
                (high + 1) * 16 + (low - 10)
            })
        }),
{
    let s = high * 16 + low;
    lemma_byte_in_range(s);
    if high + 1 <= 15 {
        lemma_digits(high + 1, low - 16);
        if high >= 9 {
            lemma_byte_in_range(s + 0x60);
            lemma_byte_in_range(byte(s + 0x60) + 6);
        } else {
            lemma_byte_in_range(s + 6);
        }
    } else {
        lemma_digits(high + 1 - 16, low - 16);
        lemma_byte_in_range(s - 256 + 0x60);
        lemma_byte_in_range(s - 256 + 0x66);
    }
}

/// The decimal correction of a BCD subtraction x - y - c: the raw difference
/// loses 6 when the low digit borrowed and 0x60 when the whole byte did.
proof fn lemma_bcd_sub_correction(x: u8, y: u8, c: int)
    requires
        is_bcd(x),
        is_bcd(y),
        c == 0 || c == 1,
    ensures
        ({
            let a = byte(x - y - c);
            let a1 = if x % 16 < y % 16 + c {
                byte(a - 6)
            } else {
                a
            };
            let a2 = if x < y + c {
                byte(a1 - 0x60)
            } else {
                a1
            };
            &&& is_bcd(a2)
            &&& bcd_value(a2) == (bcd_value(x) - bcd_value(y) - c) % 100
            &&& (x < y + c) == (bcd_value(x) < bcd_value(y) + c)
        }),
{
    let xh: int = (x / 16) as int;
    let xl: int = (x % 16) as int;
    let yh: int = (y / 16) as int;
    let yl: int = (y % 16) as int;
    assert(x == xh * 16 + xl);
    assert(y == yh * 16 + yl);
    let d = xl - yl - c;
    if x >= y + c {
        if d >= 0 {
            lemma_byte_in_range(x - y - c);
            lemma_digits(xh - yh, d);
        } else {
            lemma_byte_in_range(x - y - c);
            lemma_byte_in_range(x - y - c - 6);
            lemma_digits(xh - yh - 1, 10 + d);
        }
    } else {
        lemma_byte_in_range(x - y - c);
        if d >= 0 {
            lemma_byte_in_range(x - y - c + 256 - 0x60);
            lemma_digits(xh - yh + 10, d);
        } else {
            lemma_byte_in_range(x - y - c + 256 - 6);
            lemma_byte_in_range(x - y - c + 256 - 6 - 0x60);
            lemma_digits(xh - yh + 9, 10 + d);
        }
    }
}

/// `byte` on a value within one wrap of the byte range.
proof fn lemma_byte_in_range(v: int)
    requires
        -256 <= v < 512,
    ensures
        byte(v) == (if v < 0 {
            v + 256
        } else if v >= 256 {
            v - 256
        } else {
            v
        }),
{
}

/// The two nibbles of `h * 16 + l`.
proof fn lemma_digits(h: int, l: int)
    requires
        0 <= h < 16,
        0 <= l < 16,
    ensures
        (h * 16 + l) / 16 == h,
        (h * 16 + l) % 16 == l,
{
}

/// Whether the branch condition encoded in bits 3-4 of `op` (NZ, Z, NC, C)
/// holds.
pub open spec fn condition(f: FlagsRegister, op: u8) -> bool {
    let cc = (op / 8) % 4;
    if cc == 0 {
        !f.zero
    } else if cc == 1 {
        f.zero
    } else if cc == 2 {
        !f.carry
    } else {
        f.carry
    }
}


// ----------------------------------------------------------------------------
// The instruction-level model
// ----------------------------------------------------------------------------

/// The abstract state of the processor: its registers and the bus.
pub struct CpuView {
    pub regs: Registers,
    pub bus: BusView,
}

impl CpuView {
    pub open spec fn rd(self, address: u16) -> u8 {
        self.bus.read_at(address)
    }

    pub open spec fn wr(self, address: u16, v: u8) -> CpuView {
        CpuView { bus: self.bus.write_at(address, v), ..self }
    }

    pub open spec fn with_regs(self, r: Registers) -> CpuView {
        CpuView { regs: r, ..self }
    }

    pub open spec fn with_pc(self, pc: u16) -> CpuView {
        self.with_regs(Registers { pc: pc, ..self.regs })
    }

    pub open spec fn with_sp(self, sp: u16) -> CpuView {
        self.with_regs(Registers { sp: sp, ..self.regs })
    }

    /// The state with the program counter moved `n` bytes on.
    pub open spec fn adv(self, n: int) -> CpuView {
        self.with_pc(word(self.regs.pc + n))
    }

    /// The byte operand at the program counter.
    pub open spec fn imm8(self) -> u8 {
        self.rd(self.regs.pc)
    }

    /// The little-endian word operand at the program counter.
    pub open spec fn imm16(self) -> u16 {
        pair(self.rd(word(self.regs.pc + 1)), self.rd(self.regs.pc))
    }

    /// The 8-bit operand with register code `i`: B, C, D, E, H, L, (HL), A.
    pub open spec fn r8(self, i: u8) -> u8 {
        let r = self.regs;
        if i == 0 {
            r.b
        } else if i == 1 {
            r.c
        } else if i == 2 {
            r.d
        } else if i == 3 {
            r.e
        } else if i == 4 {
            r.h
        } else if i == 5 {
            r.l
        } else if i == 6 {
            self.rd(r.hl())
        } else {
            r.a
        }
    }

    /// The state after storing `v` into the 8-bit operand with code `i`.
    pub open spec fn set_r8(self, i: u8, v: u8) -> CpuView {
        let r = self.regs;
        if i == 0 {
            self.with_regs(Registers { b: v, ..r })
        } else if i == 1 {
            self.with_regs(Registers { c: v, ..r })
        } else if i == 2 {
            self.with_regs(Registers { d: v, ..r })
        } else if i == 3 {
            self.with_regs(Registers { e: v, ..r })
        } else if i == 4 {
            self.with_regs(Registers { h: v, ..r })
        } else if i == 5 {
            self.with_regs(Registers { l: v, ..r })
        } else if i == 6 {
            self.wr(r.hl(), v)
        } else {
            self.with_regs(Registers { a: v, ..r })
        }
    }

    /// PUSH: the high byte goes to SP-1, the low byte to SP-2.
    pub open spec fn push(self, v: u16) -> CpuView {
        let sp1 = word(self.regs.sp - 1);
        let s1 = self.with_sp(sp1).wr(sp1, (v / 256) as u8);
        let sp2 = word(sp1 - 1);
        s1.with_sp(sp2).wr(sp2, (v % 256) as u8)
    }

    /// The word on top of the stack.
    pub open spec fn top(self) -> u16 {
        pair(self.rd(word(self.regs.sp + 1)), self.rd(self.regs.sp))
    }

    /// POP: the state after the top word is taken off.
    pub open spec fn popped(self) -> CpuView {
        self.with_sp(word(self.regs.sp + 2))
    }

    /// JR: the state after the relative jump whose offset byte is at PC.
    pub open spec fn jump_relative(self, taken: bool) -> CpuView {
        let s = self.adv(1);
        if taken {
            s.with_pc(word(s.regs.pc + signed(self.imm8())))
        } else {
            s
        }
    }

    /// JP nn (when `taken`).
    pub open spec fn jump_absolute(self, taken: bool) -> CpuView {
        let s = self.adv(2);
        if taken {
            s.with_pc(self.imm16())
        } else {
            s
        }
    }

    /// CALL nn (when `taken`): the return address is pushed.
    pub open spec fn call(self, taken: bool) -> CpuView {
        let s = self.adv(2);
        if taken {
            s.push(s.regs.pc).with_pc(self.imm16())
        } else {
            s
        }
    }

    /// RET (when `taken`).
    pub open spec fn ret(self, taken: bool) -> CpuView {
        if taken {
            self.popped().with_pc(self.top())
        } else {
            self
        }
    }

    /// INC on the 8-bit operand with code `i`.
    pub open spec fn inc_r8(self, i: u8) -> CpuView {
        let v = self.r8(i);
        self.with_regs(self.regs.with_flags(inc_flags(self.regs.f, v))).set_r8(i, byte(v + 1))
    }

    /// DEC on the 8-bit operand with code `i`.
    pub open spec fn dec_r8(self, i: u8) -> CpuView {
        let v = self.r8(i);
        self.with_regs(self.regs.with_flags(dec_flags(self.regs.f, v))).set_r8(i, byte(v - 1))
    }

    /// ADD HL, v.
    pub open spec fn add_hl(self, v: u16) -> CpuView {
        let r = self.regs;
        self.with_regs(r.with_flags(add16_flags(r.f, r.hl(), v)).with_hl(word(r.hl() + v)))
    }

    /// The flags shared by ADD SP, e and LD HL, SP+e.
    pub open spec fn sp_offset_flags(self, v: u8) -> FlagsRegister {
        flags(false, false, self.regs.sp % 16 + v % 16 > 15, self.regs.sp % 256 + v > 255)
    }
}

/// The opcodes the decoder implements: all but the eleven opcodes the
/// processor leaves undefined.
pub open spec fn implemented(op: u8) -> bool {
    !(op == 0xD3 || op == 0xDB || op == 0xDD || op == 0xE3 || op == 0xE4 || op
        == 0xEB || op == 0xEC || op == 0xED || op == 0xF4 || op == 0xFC || op == 0xFD)
}

/// Loads and stores among opcodes 0x00-0x3F.
pub open spec fn is_block0_load(opcode: u8) -> bool {
    opcode == 0x01 || opcode == 0x11 || opcode == 0x21 || opcode == 0x31 || opcode == 0x02 || opcode == 0x12 || opcode == 0x22 || opcode == 0x32 || opcode == 0x08 || opcode == 0x0A || opcode == 0x1A || opcode == 0x2A || opcode == 0x3A
}

/// 16-bit increments, decrements and additions among opcodes 0x00-0x3F.
pub open spec fn is_block0_arith16(opcode: u8) -> bool {
    opcode == 0x03 || opcode == 0x13 || opcode == 0x23 || opcode == 0x33 || opcode == 0x0B || opcode == 0x1B || opcode == 0x2B || opcode == 0x3B || opcode == 0x09 || opcode == 0x19 || opcode == 0x29 || opcode == 0x39
}

/// Opcodes 0x00-0x3F. `s` is the state after the opcode byte was fetched.
pub open spec fn execute_block0(s: CpuView, op: u8) -> CpuView {
    let r = s.regs;
    if op == 0x00 || op == 0x10 {
        s
    } else if op == 0x01 {
        s.adv(2).with_regs(s.adv(2).regs.with_bc(s.imm16()))
    } else if op == 0x11 {
        s.adv(2).with_regs(s.adv(2).regs.with_de(s.imm16()))
    } else if op == 0x21 {
        s.adv(2).with_regs(s.adv(2).regs.with_hl(s.imm16()))
    } else if op == 0x31 {
        s.adv(2).with_sp(s.imm16())
    } else if op == 0x02 {
        s.wr(r.bc(), r.a)
    } else if op == 0x12 {
        s.wr(r.de(), r.a)
    } else if op == 0x22 {
        let s1 = s.wr(r.hl(), r.a);
        s1.with_regs(s1.regs.with_hl(word(r.hl() + 1)))
    } else if op == 0x32 {
        let s1 = s.wr(r.hl(), r.a);
        s1.with_regs(s1.regs.with_hl(word(r.hl() - 1)))
    } else if op == 0x03 {
        s.with_regs(r.with_bc(word(r.bc() + 1)))
    } else if op == 0x13 {
        s.with_regs(r.with_de(word(r.de() + 1)))
    } else if op == 0x23 {
        s.with_regs(r.with_hl(word(r.hl() + 1)))
    } else if op == 0x33 {
        s.with_sp(word(r.sp + 1))
    } else if op == 0x0B {
        s.with_regs(r.with_bc(word(r.bc() - 1)))
    } else if op == 0x1B {
        s.with_regs(r.with_de(word(r.de() - 1)))
    } else if op == 0x2B {
        s.with_regs(r.with_hl(word(r.hl() - 1)))
    } else if op == 0x3B {
        s.with_sp(word(r.sp - 1))
    } else if op % 8 == 4 {
        s.inc_r8(op / 8)
    } else if op % 8 == 5 {
        s.dec_r8(op / 8)
    } else if op % 8 == 6 {
        s.adv(1).set_r8(op / 8, s.imm8())
    } else if op == 0x07 || op == 0x0F || op == 0x17 || op == 0x1F {
        let k = op / 8;
        s.with_regs(
            Registers { a: shift_result(k, r.a, r.f.carry), f: rotate_a_flags(k, r.a), ..r },
        )
    } else if op == 0x08 {
        let address = s.imm16();
        s.adv(2).wr(address, (r.sp % 256) as u8).wr(word(address + 1), (r.sp / 256) as u8)
    } else if op == 0x09 {
        s.add_hl(r.bc())
    } else if op == 0x19 {
        s.add_hl(r.de())
    } else if op == 0x29 {
        s.add_hl(r.hl())
    } else if op == 0x39 {
        s.add_hl(r.sp)
    } else if op == 0x18 {
        s.jump_relative(true)
    } else if op == 0x20 || op == 0x28 || op == 0x30 || op == 0x38 {
        s.jump_relative(condition(r.f, op))
    } else if op == 0x0A {
        s.with_regs(Registers { a: s.rd(r.bc()), ..r })
    } else if op == 0x1A {
        s.with_regs(Registers { a: s.rd(r.de()), ..r })
    } else if op == 0x2A {
        s.with_regs(Registers { a: s.rd(r.hl()), ..r }.with_hl(word(r.hl() + 1)))
    } else if op == 0x3A {
        s.with_regs(Registers { a: s.rd(r.hl()), ..r }.with_hl(word(r.hl() - 1)))
    } else if op == 0x27 {
        s.with_regs(daa(r))
    } else if op == 0x2F {
        s.with_regs(Registers { a: (255 - r.a) as u8, f: flags(r.f.zero, true, true, r.f.carry), ..r })
    } else if op == 0x37 {
        s.with_regs(r.with_flags(flags(r.f.zero, false, false, true)))
    } else {
        // 0x3F: CCF
        s.with_regs(r.with_flags(flags(r.f.zero, false, false, !r.f.carry)))
    }
}

/// Opcodes 0x40-0x7F: LD r, r' (0x76, HALT, does nothing).
pub open spec fn execute_load(s: CpuView, op: u8) -> CpuView {
    if op == 0x76 {
        s
    } else {
        s.set_r8((op / 8) % 8, s.r8(op % 8))
    }
}

/// Opcodes 0x80-0xBF: ALU operations on A and an 8-bit operand.
pub open spec fn execute_alu(s: CpuView, op: u8) -> CpuView {
    s.with_regs(alu_op((op / 8) % 8, s.regs, s.r8(op % 8)))
}

/// The CB-prefixed instruction `cb` (the state is after the CB byte).
pub open spec fn execute_cb(s: CpuView, cb: u8) -> CpuView {
    let v = s.r8(cb % 8);
    let b = (cb / 8) % 8;
    if cb < 0x40 {
        let k = cb / 8;
        s.with_regs(s.regs.with_flags(shift_flags(k, v, s.regs.f))).set_r8(
            cb % 8,
            shift_result(k, v, s.regs.f.carry),
        )
    } else if cb < 0x80 {
        s.with_regs(s.regs.with_flags(bit_flags(s.regs.f, v, b)))
    } else if cb < 0xC0 {
        s.set_r8(cb % 8, v & !(1u8 << b))
    } else {
        s.set_r8(cb % 8, v | (1u8 << b))
    }
}

/// Opcodes 0xC0-0xFF.
pub open spec fn execute_block3(s: CpuView, op: u8) -> CpuView {
    let r = s.regs;
    if op == 0xC0 || op == 0xC8 || op == 0xD0 || op == 0xD8 {
        s.ret(condition(r.f, op))
    } else if op == 0xC9 || op == 0xD9 {
        s.ret(true)
    } else if op == 0xC1 {
        s.popped().with_regs(s.popped().regs.with_bc(s.top()))
    } else if op == 0xD1 {
        s.popped().with_regs(s.popped().regs.with_de(s.top()))
    } else if op == 0xE1 {
        s.popped().with_regs(s.popped().regs.with_hl(s.top()))
    } else if op == 0xF1 {
        s.popped().with_regs(s.popped().regs.with_af(s.top()))
    } else if op == 0xC5 {
        s.push(r.bc())
    } else if op == 0xD5 {
        s.push(r.de())
    } else if op == 0xE5 {
        s.push(r.hl())
    } else if op == 0xF5 {
        s.push(r.af())
    } else if op == 0xC2 || op == 0xCA || op == 0xD2 || op == 0xDA {
        s.jump_absolute(condition(r.f, op))
    } else if op == 0xC3 {
        s.jump_absolute(true)
    } else if op == 0xC4 || op == 0xCC || op == 0xD4 || op == 0xDC {
        s.call(condition(r.f, op))
    } else if op == 0xCD {
        s.call(true)
    } else if op % 8 == 7 {
        // RST: push PC, jump to op & 0x38
        s.push(r.pc).with_pc((op & 0x38) as u16)
    } else if op % 8 == 6 {
        // ALU A, n8
        s.adv(1).with_regs(alu_op((op / 8) % 8, s.adv(1).regs, s.imm8()))
    } else if op == 0xCB {
        execute_cb(s.adv(1), s.imm8())
    } else if op == 0xE0 {
        s.adv(1).wr((0xFF00 + s.imm8()) as u16, r.a)
    } else if op == 0xF0 {
        s.adv(1).with_regs(Registers { a: s.rd((0xFF00 + s.imm8()) as u16), ..s.adv(1).regs })
    } else if op == 0xE2 {
        s.wr((0xFF00 + r.c) as u16, r.a)
    } else if op == 0xF2 {
        s.with_regs(Registers { a: s.rd((0xFF00 + r.c) as u16), ..r })
    } else if op == 0xEA {
        s.adv(2).wr(s.imm16(), r.a)
    } else if op == 0xFA {
        s.adv(2).with_regs(Registers { a: s.rd(s.imm16()), ..s.adv(2).regs })
    } else if op == 0xE8 {
        let v = s.imm8();
        s.adv(1).with_regs(
            Registers { sp: word(r.sp + signed(v)), f: s.sp_offset_flags(v), ..s.adv(1).regs },
        )
    } else if op == 0xF8 {
        let v = s.imm8();
        s.adv(1).with_regs(
            Registers { f: s.sp_offset_flags(v), ..s.adv(1).regs }.with_hl(word(r.sp + signed(v))),
        )
    } else if op == 0xE9 {
        s.with_pc(r.hl())
    } else if op == 0xF9 {
        s.with_sp(r.hl())
    } else {
        // 0xF3 (DI) and 0xFB (EI): interrupts are not modelled
        s
    }
}

/// The effect of the instruction `op`; `s` is the state after the opcode
/// byte was fetched.
pub open spec fn execute(s: CpuView, op: u8) -> CpuView {
    if op < 0x40 {
        execute_block0(s, op)
    } else if op < 0x80 {
        execute_load(s, op)
    } else if op < 0xC0 {
        execute_alu(s, op)
    } else {
        execute_block3(s, op)
    }
}

/// Machine clock cycles (t-states) of the instruction `op`, given the state
/// `s` after its opcode byte: conditional branches cost more when taken, and
/// operands in memory cost more than registers.
pub open spec fn instruction_cycles(s: CpuView, op: u8) -> u32 {
    let taken = condition(s.regs.f, op);
    if op == 0xCB {
        let cb = s.imm8();
        if cb % 8 == 6 {
            if 0x40 <= cb < 0x80 {
                12
            } else {
                16
            }
        } else {
            8
        }
    } else if 0x40 <= op < 0x80 {
        if op != 0x76 && (op % 8 == 6 || (op / 8) % 8 == 6) {
            8
        } else {
            4
        }
    } else if 0x80 <= op < 0xC0 {
        if op % 8 == 6 {
            8
        } else {
            4
        }
    } else if op == 0x20 || op == 0x28 || op == 0x30 || op == 0x38 {
        if taken {
            12
        } else {
            8
        }
    } else if op == 0xC0 || op == 0xC8 || op == 0xD0 || op == 0xD8 {
        if taken {
            20
        } else {
            8
        }
    } else if op == 0xC2 || op == 0xCA || op == 0xD2 || op == 0xDA {
        if taken {
            16
        } else {
            12
        }
    } else if op == 0xC4 || op == 0xCC || op == 0xD4 || op == 0xDC {
        if taken {
            24
        } else {
            12
        }
    } else {
        fixed_cycles(op)
    }
}

/// Cycles of the instructions whose cost does not depend on the state.
pub open spec fn fixed_cycles(op: u8) -> u32 {
    if op == 0x08 {
        20
    } else if op == 0xCD {
        24
    } else if op == 0xC3 || op == 0xC9 || op == 0xD9 || op == 0xC5 || op == 0xD5 || op == 0xE5
        || op == 0xF5 || op == 0xE8 || op == 0xEA || op == 0xFA || op % 8 == 7 && op >= 0xC0 {
        16
    } else if op == 0x01 || op == 0x11 || op == 0x21 || op == 0x31 || op == 0x18 || op == 0x34
        || op == 0x35 || op == 0x36 || op == 0xC1 || op == 0xD1 || op == 0xE1 || op == 0xF1 || op
        == 0xE0 || op == 0xF0 || op == 0xF8 {
        12
    } else if op == 0x02 || op == 0x12 || op == 0x22 || op == 0x32 || op == 0x0A || op == 0x1A
        || op == 0x2A || op == 0x3A || op == 0x03 || op == 0x13 || op == 0x23 || op == 0x33 || op
        == 0x0B || op == 0x1B || op == 0x2B || op == 0x3B || op == 0x09 || op == 0x19 || op
        == 0x29 || op == 0x39 || (op < 0x40 && op % 8 == 6) || (op >= 0xC0 && op % 8 == 6) || op
        == 0xE2 || op == 0xF2 || op == 0xF9 {
        8
    } else {
        4
    }
}

/// One fetch-decode-execute cycle: the state after the instruction at PC,
/// and the cycles it took.
pub open spec fn step_state(s: CpuView) -> CpuView {
    execute(s.adv(1), s.rd(s.regs.pc))
}

pub open spec fn step_cycles(s: CpuView) -> u32 {
    instruction_cycles(s.adv(1), s.rd(s.regs.pc))
}


// ----------------------------------------------------------------------------
// The processor
// ----------------------------------------------------------------------------

pub struct CPU {
    pub registers: Registers,
    pub memory_bus: crate::memory::MemoryBus,
}

impl View for CPU {
    type V = CpuView;

    open spec fn view(&self) -> CpuView {
        CpuView { regs: self.registers, bus: self.memory_bus@ }
    }
}

impl CPU {
    /// The invariant of the processor: a well-formed bus.
    pub open spec fn wf(&self) -> bool {
        self.memory_bus@.wf()
    }

    /// A processor at power-on with an empty bus.
    pub fn new() -> (cpu: CPU)
        ensures
            cpu@ == (CpuView { regs: Registers::initial(), bus: crate::memory::MemoryBus::initial() }),
            cpu.wf(),
    {
        CPU { registers: Registers::new(), memory_bus: crate::memory::MemoryBus::new() }
    }

    /// Whether the opcode at PC is one the decoder implements.
    pub fn can_step(&self) -> (ok: bool)
        ensures
            ok == implemented(self@.rd(self.registers.pc)),
    {
        let op = self.memory_bus.read(self.registers.pc);
        is_implemented(op)
    }

    /// Executes the instruction at PC and returns the cycles it took.
    pub fn step(&mut self) -> (cycles: u32)
        requires
            old(self).wf(),
            implemented(old(self)@.rd(old(self).registers.pc)),
        ensures
            final(self)@ == step_state(old(self)@),
            cycles == step_cycles(old(self)@),
            final(self).wf(),
            cycles <= 24,
    {
        let op: u8 = self.fetch();
        let cycles = self.cycles_of(op);
        self.decode_execute(op);
        cycles
    }

    fn fetch(&mut self) -> (instruction: u8)
        ensures
            instruction == old(self)@.imm8(),
            final(self)@ == old(self)@.adv(1),
            final(self).memory_bus == old(self).memory_bus,
    {
        let instruction = self.memory_bus.read(self.registers.pc);
        self.registers.pc = self.registers.pc.wrapping_add(1);
        instruction
    }

    fn fetch_u16(&mut self) -> (v: u16)
        ensures
            v == old(self)@.imm16(),
            final(self)@ == old(self)@.adv(2),
            final(self).memory_bus == old(self).memory_bus,
    {
        let low_byte = self.fetch();
        let high_byte = self.fetch();
        proof {
            crate::bits::lemma_pack_pair(high_byte, low_byte);
        }
        (high_byte as u16) << 8u16 | low_byte as u16
    }

    /// The cycle count of `op` in the current state (after its opcode byte).
    fn cycles_of(&self, op: u8) -> (cycles: u32)
        ensures
            cycles == instruction_cycles(self@, op),
            cycles <= 24,
    {
        let f = self.registers.f;
        let cc = (op / 8) % 4;
        let taken = if cc == 0 {
            !f.zero
        } else if cc == 1 {
            f.zero
        } else if cc == 2 {
            !f.carry
        } else {
            f.carry
        };
        if op == 0xCB {
            let cb = self.memory_bus.read(self.registers.pc);
            if cb % 8 == 6 {
                if 0x40 <= cb && cb < 0x80 {
                    12
                } else {
                    16
                }
            } else {
                8
            }
        } else if 0x40 <= op && op < 0x80 {
            if op != 0x76 && (op % 8 == 6 || (op / 8) % 8 == 6) {
                8
            } else {
                4
            }
        } else if 0x80 <= op && op < 0xC0 {
            if op % 8 == 6 {
                8
            } else {
                4
            }
        } else if op == 0x20 || op == 0x28 || op == 0x30 || op == 0x38 {
            if taken {
                12
            } else {
                8
            }
        } else if op == 0xC0 || op == 0xC8 || op == 0xD0 || op == 0xD8 {
            if taken {
                20
            } else {
                8
            }
        } else if op == 0xC2 || op == 0xCA || op == 0xD2 || op == 0xDA {
            if taken {
                16
            } else {
                12
            }
        } else if op == 0xC4 || op == 0xCC || op == 0xD4 || op == 0xDC {
            if taken {
                24
            } else {
                12
            }
        } else if op == 0x08 {
            20
        } else if op == 0xCD {
            24
        } else if op == 0xC3 || op == 0xC9 || op == 0xD9 || op == 0xC5 || op == 0xD5 || op == 0xE5
            || op == 0xF5 || op == 0xE8 || op == 0xEA || op == 0xFA || op % 8 == 7 && op >= 0xC0 {
            16
        } else if op == 0x01 || op == 0x11 || op == 0x21 || op == 0x31 || op == 0x18 || op == 0x34
            || op == 0x35 || op == 0x36 || op == 0xC1 || op == 0xD1 || op == 0xE1 || op == 0xF1
            || op == 0xE0 || op == 0xF0 || op == 0xF8 {
            12
        } else if op == 0x02 || op == 0x12 || op == 0x22 || op == 0x32 || op == 0x0A || op == 0x1A
            || op == 0x2A || op == 0x3A || op == 0x03 || op == 0x13 || op == 0x23 || op == 0x33
            || op == 0x0B || op == 0x1B || op == 0x2B || op == 0x3B || op == 0x09 || op == 0x19
            || op == 0x29 || op == 0x39 || (op < 0x40 && op % 8 == 6) || (op >= 0xC0 && op % 8
            == 6) || op == 0xE2 || op == 0xF2 || op == 0xF9 {
            8
        } else {
            4
        }
    }

    /// Reads the 8-bit operand with register code `idx` (B, C, D, E, H, L,
    /// (HL), A).
    fn read_r8(&self, idx: u8) -> (v: u8)
        requires
            idx < 8,
        ensures
            v == self@.r8(idx),
    {
        if idx == 0 {
            self.registers.b
        } else if idx == 1 {
            self.registers.c
        } else if idx == 2 {
            self.registers.d
        } else if idx == 3 {
            self.registers.e
        } else if idx == 4 {
            self.registers.h
        } else if idx == 5 {
            self.registers.l
        } else if idx == 6 {
            self.memory_bus.read(self.registers.get_hl())  //memory[HL]
        } else {
            self.registers.a
        }
    }

    /// Stores `v` into the 8-bit operand with register code `idx`.
    fn write_r8(&mut self, idx: u8, v: u8)
        requires
            old(self).wf(),
            idx < 8,
        ensures
            final(self)@ == old(self)@.set_r8(idx, v),
            final(self).wf(),
    {
        if idx == 0 {
            self.registers.b = v;
        } else if idx == 1 {
            self.registers.c = v;
        } else if idx == 2 {
            self.registers.d = v;
        } else if idx == 3 {
            self.registers.e = v;
        } else if idx == 4 {
            self.registers.h = v;
        } else if idx == 5 {
            self.registers.l = v;
        } else if idx == 6 {
            let hl = self.registers.get_hl();
            self.memory_bus.write(hl, v);
        } else {
            self.registers.a = v;
        }
    }

    fn adc_to_a(&mut self, value: u8)
        ensures
            final(self).registers == alu_adc(old(self).registers, value),
            final(self).memory_bus == old(self).memory_bus,
    {
        let a = self.registers.a;
        let previous_carry: u8 = if self.registers.f.carry {
            1
        } else {
            0
        };
        let total: u16 = a as u16 + value as u16 + previous_carry as u16;
        let result_a: u8 = (total % 256) as u8;
        proof {
            crate::bits::lemma_nibbles(a);
            crate::bits::lemma_nibbles(value);
        }
        self.registers.f.zero = result_a == 0;
        self.registers.f.subtract = false;
        self.registers.f.carry = total > 0xFF;
        self.registers.f.half_carry = (a & 0x0F) + (value & 0x0F) + previous_carry > 0x0F;
        self.registers.a = result_a;
    }

    fn add_to_a(&mut self, value: u8)
        ensures
            final(self).registers == alu_add(old(self).registers, value),
            final(self).memory_bus == old(self).memory_bus,
    {
        let a = self.registers.a;
        let total: u16 = a as u16 + value as u16;
        let result_a: u8 = (total % 256) as u8;
        proof {
            crate::bits::lemma_nibbles(a);
            crate::bits::lemma_nibbles(value);
        }
        //flags
        self.registers.f.zero = result_a == 0;
        self.registers.f.subtract = false;
        self.registers.f.carry = total > 0xFF;
        self.registers.f.half_carry = (a & 0x0F) + (value & 0x0F) > 0x0F;
        //a register
        self.registers.a = result_a;
    }

    fn add_u16(&mut self, value_a: u16, value_b: u16) -> (result: u16)
        ensures
            result == word(value_a + value_b),
            final(self).registers == old(self).registers.with_flags(
                add16_flags(old(self).registers.f, value_a, value_b),
            ),
            final(self).memory_bus == old(self).memory_bus,
    {
        let result = value_a.wrapping_add(value_b);
        proof {
            crate::bits::lemma_word_low12(value_a);
            crate::bits::lemma_word_low12(value_b);
        }
        self.registers.f.subtract = false;
        self.registers.f.half_carry = (value_a & 0xFFF) + (value_b & 0xFFF) > 0xFFF;
        self.registers.f.carry = value_a as u32 + value_b as u32 > 0xFFFF;
        result
    }

    fn sub_from_a(&mut self, value: u8)
        ensures
            final(self).registers == alu_sub(old(self).registers, value),
            final(self).memory_bus == old(self).memory_bus,
    {
        let a = self.registers.a;
        let result_a = a.wrapping_sub(value);
        proof {
            crate::bits::lemma_nibbles(a);
            crate::bits::lemma_nibbles(value);
        }
        //flags
        self.registers.f.zero = result_a == 0;
        self.registers.f.subtract = true;
        self.registers.f.carry = a < value;
        self.registers.f.half_carry = (a & 0x0F) < (value & 0x0F);
        //a register
        self.registers.a = result_a;
    }

    fn inc(&mut self, value: u8) -> (result: u8)
        ensures
            result == byte(value + 1),
            final(self).registers == old(self).registers.with_flags(
                inc_flags(old(self).registers.f, value),
            ),
            final(self).memory_bus == old(self).memory_bus,
    {
        let result = value.wrapping_add(1);
        proof {
            crate::bits::lemma_nibbles(value);
        }
        self.registers.f.zero = result == 0;
        self.registers.f.subtract = false;
        self.registers.f.half_carry = (value & 0x0F) == 0x0F;
        result
    }

    fn inc_u16(&mut self, value: u16) -> (result: u16)
        ensures
            result == word(value + 1),
            *final(self) == *old(self),
    {
        value.wrapping_add(1)
    }

    fn dec(&mut self, value: u8) -> (result: u8)
        ensures
            result == byte(value - 1),
            final(self).registers == old(self).registers.with_flags(
                dec_flags(old(self).registers.f, value),
            ),
            final(self).memory_bus == old(self).memory_bus,
    {
        let result = value.wrapping_sub(1);
        proof {
            crate::bits::lemma_nibbles(value);
        }
        self.registers.f.zero = result == 0;
        self.registers.f.subtract = true;
        self.registers.f.half_carry = (value & 0x0F) == 0x00;
        result
    }

    fn dec_u16(&mut self, value: u16) -> (result: u16)
        ensures
            result == word(value - 1),
            *final(self) == *old(self),
    {
        value.wrapping_sub(1)
    }

    fn compare(&mut self, value: u8, operand: u8)
        ensures
            final(self).registers == old(self).registers.with_flags(
                alu_sub(Registers { a: value, ..old(self).registers }, operand).f,
            ),
            final(self).memory_bus == old(self).memory_bus,
    {
        let result = value.wrapping_sub(operand);
        proof {
            crate::bits::lemma_nibbles(value);
            crate::bits::lemma_nibbles(operand);
        }
        self.registers.f.zero = result == 0;
        self.registers.f.subtract = true;
        self.registers.f.carry = value < operand;
        self.registers.f.half_carry = (value & 0x0F) < (operand & 0x0F);
    }

    fn a_or(&mut self, value: u8) -> (result: u8)
        ensures
            result == alu_or(old(self).registers, value).a,
            final(self).registers == old(self).registers.with_flags(
                alu_or(old(self).registers, value).f,
            ),
            final(self).memory_bus == old(self).memory_bus,
    {
        let result = (self.registers.a) | (value);
        self.registers.f.zero = result == 0;
        self.registers.f.subtract = false;
        self.registers.f.carry = false;
        self.registers.f.half_carry = false;
        result
    }

    fn a_and(&mut self, value: u8) -> (result: u8)
        ensures
            result == alu_and(old(self).registers, value).a,
            final(self).registers == old(self).registers.with_flags(
                alu_and(old(self).registers, value).f,
            ),
            final(self).memory_bus == old(self).memory_bus,
    {
        let result = (self.registers.a) & (value);
        self.registers.f.zero = result == 0;
        self.registers.f.subtract = false;
        self.registers.f.carry = false;
        self.registers.f.half_carry = true;
        result
    }

    fn a_xor(&mut self, value: u8) -> (result: u8)
        ensures
            result == alu_xor(old(self).registers, value).a,
            final(self).registers == old(self).registers.with_flags(
                alu_xor(old(self).registers, value).f,
            ),
            final(self).memory_bus == old(self).memory_bus,
    {
        let result = (self.registers.a) ^ (value);
        self.registers.f.zero = result == 0;
        self.registers.f.subtract = false;
        self.registers.f.carry = false;
        self.registers.f.half_carry = false;
        result
    }

    fn sbc(&mut self, value: u8) -> (result: u8)
        ensures
            result == alu_sbc(old(self).registers, value).a,
            final(self).registers == old(self).registers.with_flags(
                alu_sbc(old(self).registers, value).f,
            ),
            final(self).memory_bus == old(self).memory_bus,
    {
        let a = self.registers.a;
        let carry: u8 = if self.registers.f.carry {
            1
        } else {
            0
        };
        let result1 = a.wrapping_sub(value);
        let result2 = result1.wrapping_sub(carry);
        proof {
            crate::bits::lemma_nibbles(a);
            crate::bits::lemma_nibbles(value);
        }
        self.registers.f.zero = result2 == 0;
        self.registers.f.subtract = true;
        self.registers.f.half_carry = (a & 0x0F) < (value & 0x0F) + carry;
        self.registers.f.carry = (a as u16) < value as u16 + carry as u16;
        result2
    }

    fn swap(&mut self, byte: u8) -> (result: u8)
        ensures
            result == shift_result(6, byte, old(self).registers.f.carry),
            final(self).registers == old(self).registers.with_flags(
                shift_flags(6, byte, old(self).registers.f),
            ),
            final(self).memory_bus == old(self).memory_bus,
    {
        let high_nibble = byte & 0xF0;
        let low_nibble = byte & 0x0F;
        let result = low_nibble << 4u8 | high_nibble >> 4u8;
        self.registers.f.zero = result == 0;
        self.registers.f.subtract = false;
        self.registers.f.half_carry = false;
        self.registers.f.carry = false;
        result
    }

    // rorate left
    fn rlca(&mut self, byte: u8) -> (rotated: u8)
        ensures
            rotated == shift_result(0, byte, old(self).registers.f.carry),
            final(self).registers == old(self).registers.with_flags(rotate_a_flags(0, byte)),
            final(self).memory_bus == old(self).memory_bus,
    {
        let rotated = (byte << 1u8) | (byte >> 7u8);
        self.registers.f.zero = false;
        self.registers.f.subtract = false;
        self.registers.f.half_carry = false;
        self.registers.f.carry = byte & 0x80 != 0;
        rotated
    }

    //rotate left through carry
    fn rla(&mut self, byte: u8) -> (rotated: u8)
        ensures
            rotated == shift_result(2, byte, old(self).registers.f.carry),
            final(self).registers == old(self).registers.with_flags(rotate_a_flags(2, byte)),
            final(self).memory_bus == old(self).memory_bus,
    {
        let c: u8 = if self.registers.f.carry {
            1
        } else {
            0
        };
        let rotated = (byte << 1u8) | c;
        self.registers.f.zero = false;
        self.registers.f.subtract = false;
        self.registers.f.half_carry = false;
        self.registers.f.carry = byte & 0x80 != 0;
        rotated
    }

    //rotate right
    fn rrca(&mut self, byte: u8) -> (rotated: u8)
        ensures
            rotated == shift_result(1, byte, old(self).registers.f.carry),
            final(self).registers == old(self).registers.with_flags(rotate_a_flags(1, byte)),
            final(self).memory_bus == old(self).memory_bus,
    {
        let rotated = (byte << 7u8) | (byte >> 1u8);
        self.registers.f.zero = false;
        self.registers.f.subtract = false;
        self.registers.f.half_carry = false;
        self.registers.f.carry = byte & 0x01 != 0;
        rotated
    }

    //rotate right through carry
    fn rra(&mut self, byte: u8) -> (rotated: u8)
        ensures
            rotated == shift_result(3, byte, old(self).registers.f.carry),
            final(self).registers == old(self).registers.with_flags(rotate_a_flags(3, byte)),
            final(self).memory_bus == old(self).memory_bus,
    {
        let c: u8 = if self.registers.f.carry {
            1
        } else {
            0
        };
        let rotated = (c << 7u8) | (byte >> 1u8);
        self.registers.f.zero = false;
        self.registers.f.subtract = false;
        self.registers.f.half_carry = false;
        self.registers.f.carry = byte & 0x01 != 0;
        rotated
    }

    // CB: rotate left circular
    fn rlc(&mut self, byte: u8) -> (rotated: u8)
        ensures
            rotated == shift_result(0, byte, old(self).registers.f.carry),
            final(self).registers == old(self).registers.with_flags(
                shift_flags(0, byte, old(self).registers.f),
            ),
            final(self).memory_bus == old(self).memory_bus,
    {
        let rotated = (byte << 1u8) | (byte >> 7u8);
        self.registers.f.zero = rotated == 0;
        self.registers.f.subtract = false;
        self.registers.f.half_carry = false;
        self.registers.f.carry = byte & 0x80 != 0;
        rotated
    }

    //CB: rotate right circular
    fn rrc(&mut self, byte: u8) -> (rotated: u8)
        ensures
            rotated == shift_result(1, byte, old(self).registers.f.carry),
            final(self).registers == old(self).registers.with_flags(
                shift_flags(1, byte, old(self).registers.f),
            ),
            final(self).memory_bus == old(self).memory_bus,
    {
        let rotated = (byte << 7u8) | (byte >> 1u8);
        self.registers.f.zero = rotated == 0;
        self.registers.f.subtract = false;
        self.registers.f.half_carry = false;
        self.registers.f.carry = byte & 0x01 != 0;
        rotated
    }

    //CB: rotate left through carry
    fn rl(&mut self, byte: u8) -> (rotated: u8)
        ensures
            rotated == shift_result(2, byte, old(self).registers.f.carry),
            final(self).registers == old(self).registers.with_flags(
                shift_flags(2, byte, old(self).registers.f),
            ),
            final(self).memory_bus == old(self).memory_bus,
    {
        let c: u8 = if self.registers.f.carry {
            1
        } else {
            0
        };
        let rotated = (byte << 1u8) | c;
        self.registers.f.zero = rotated == 0;
        self.registers.f.subtract = false;
        self.registers.f.half_carry = false;
        self.registers.f.carry = byte & 0x80 != 0;
        rotated
    }

    //CB: rotate right through carry
    fn rr(&mut self, byte: u8) -> (rotated: u8)
        ensures
            rotated == shift_result(3, byte, old(self).registers.f.carry),
            final(self).registers == old(self).registers.with_flags(
                shift_flags(3, byte, old(self).registers.f),
            ),
            final(self).memory_bus == old(self).memory_bus,
    {
        let c: u8 = if self.registers.f.carry {
            1
        } else {
            0
        };
        let rotated = (c << 7u8) | (byte >> 1u8);
        self.registers.f.zero = rotated == 0;
        self.registers.f.subtract = false;
        self.registers.f.half_carry = false;
        self.registers.f.carry = byte & 0x01 != 0;
        rotated
    }

    //arithmetic left shift
    fn sla(&mut self, byte: u8) -> (shifted: u8)
        ensures
            shifted == shift_result(4, byte, old(self).registers.f.carry),
            final(self).registers == old(self).registers.with_flags(
                shift_flags(4, byte, old(self).registers.f),
            ),
            final(self).memory_bus == old(self).memory_bus,
    {
        let shifted = byte << 1u8;
        self.registers.f.zero = shifted == 0;
        self.registers.f.subtract = false;
        self.registers.f.half_carry = false;
        self.registers.f.carry = byte & 0x80 != 0;
        shifted
    }

    //arithmetic right shift
    fn sra(&mut self, byte: u8) -> (shifted: u8)
        ensures
            shifted == shift_result(5, byte, old(self).registers.f.carry),
            final(self).registers == old(self).registers.with_flags(
                shift_flags(5, byte, old(self).registers.f),
            ),
            final(self).memory_bus == old(self).memory_bus,
    {
        let shifted = byte & 0x80 | byte >> 1u8;
        self.registers.f.zero = shifted == 0;
        self.registers.f.subtract = false;
        self.registers.f.half_carry = false;
        self.registers.f.carry = byte & 0x01 != 0;
        shifted
    }

    //logic right shift
    fn srl(&mut self, byte: u8) -> (shifted: u8)
        ensures
            shifted == shift_result(7, byte, old(self).registers.f.carry),
            final(self).registers == old(self).registers.with_flags(
                shift_flags(7, byte, old(self).registers.f),
            ),
            final(self).memory_bus == old(self).memory_bus,
    {
        let shifted = byte >> 1u8;
        self.registers.f.zero = shifted == 0;
        self.registers.f.subtract = false;
        self.registers.f.half_carry = false;
        self.registers.f.carry = byte & 0x01 != 0;
        shifted
    }

    // BIT b, r
    // test bit b in register r
    fn bit(&mut self, r: u8, bit: u8)
        requires
            bit < 8,
        ensures
            final(self).registers == old(self).registers.with_flags(
                bit_flags(old(self).registers.f, r, bit),
            ),
            final(self).memory_bus == old(self).memory_bus,
    {
        let result: bool = r & (1u8 << bit) == 0;
        self.registers.f.zero = result;
        self.registers.f.subtract = false;
        self.registers.f.half_carry = true;
    }

    fn set(&mut self, byte: u8, bit: u8) -> (r: u8)
        requires
            bit < 8,
        ensures
            *final(self) == *old(self),
            r == byte | (1u8 << bit),
    {
        byte | (1u8 << bit)
    }

    fn res(&mut self, byte: u8, bit: u8) -> (r: u8)
        requires
            bit < 8,
        ensures
            *final(self) == *old(self),
            r == byte & !(1u8 << bit),
    {
        byte & !(1u8 << bit)
    }

    fn rst(&mut self, opcode: u8)
        requires
            old(self).wf(),
        ensures
            final(self)@ == old(self)@.push(old(self).registers.pc).with_pc((opcode & 0x38) as u16),
            final(self).wf(),
    {
        self.stack_push(self.registers.pc);
        self.registers.pc = (opcode & 0x38) as u16;
    }

    //STACK
    fn ret(&mut self)
        ensures
            final(self)@ == old(self)@.ret(true),
    {
        let address = self.stack_pop();
        self.registers.pc = address;
    }

    fn stack_push(&mut self, value: u16)
        requires
            old(self).wf(),
        ensures
            final(self)@ == old(self)@.push(value),
            final(self).wf(),
    {
        proof {
            crate::bits::lemma_split_word(value);
        }
        let high_byte = ((value & 0xFF00) >> 8u16) as u8;
        self.registers.sp = self.registers.sp.wrapping_sub(1);
        self.memory_bus.write(self.registers.sp, high_byte);
        let low_byte = (value & 0xFF) as u8;
        self.registers.sp = self.registers.sp.wrapping_sub(1);
        self.memory_bus.write(self.registers.sp, low_byte);
    }

    fn stack_pop(&mut self) -> (address: u16)
        ensures
            address == old(self)@.top(),
            final(self)@ == old(self)@.popped(),
            final(self).memory_bus == old(self).memory_bus,
    {
        let low_byte = self.memory_bus.read(self.registers.sp);
        self.registers.sp = self.registers.sp.wrapping_add(1);
        let high_byte = self.memory_bus.read(self.registers.sp);
        self.registers.sp = self.registers.sp.wrapping_add(1);
        proof {
            crate::bits::lemma_pack_pair(high_byte, low_byte);
        }
        let adress = (high_byte as u16) << 8u16 | low_byte as u16;
        adress
    }
}


impl CPU {
    fn decode_execute(&mut self, opcode: u8)
        requires
            old(self).wf(),
            implemented(opcode),
        ensures
            final(self)@ == execute(old(self)@, opcode),
            final(self).wf(),
    {
        if opcode < 0x40 {
            self.execute_block0(opcode);
        } else if opcode < 0x80 {
            self.execute_load(opcode);
        } else if opcode < 0xC0 {
            self.execute_alu(opcode);
        } else {
            self.execute_block3(opcode);
        }
    }

    /// INC r / INC (HL)
    fn inc_r8(&mut self, idx: u8)
        requires
            old(self).wf(),
            idx < 8,
        ensures
            final(self)@ == old(self)@.inc_r8(idx),
            final(self).wf(),
    {
        let original_value = self.read_r8(idx);
        let incremented_value = self.inc(original_value);
        self.write_r8(idx, incremented_value);
    }

    /// DEC r / DEC (HL)
    fn dec_r8(&mut self, idx: u8)
        requires
            old(self).wf(),
            idx < 8,
        ensures
            final(self)@ == old(self)@.dec_r8(idx),
            final(self).wf(),
    {
        let original_value = self.read_r8(idx);
        let decreased_value = self.dec(original_value);
        self.write_r8(idx, decreased_value);
    }

    /// JR with the condition `taken`: the offset byte is always fetched.
    fn jump_relative(&mut self, taken: bool)
        ensures
            final(self)@ == old(self)@.jump_relative(taken),
            final(self).memory_bus == old(self).memory_bus,
    {
        let offset = self.fetch();
        if taken {
            if offset < 128 {
                self.registers.pc = self.registers.pc.wrapping_add(offset as u16);
            } else {
                self.registers.pc = self.registers.pc.wrapping_sub(256 - offset as u16);
            }
        }
    }

    /// ADD HL, value
    fn add_to_hl(&mut self, value: u16)
        ensures
            final(self)@ == old(self)@.add_hl(value),
            final(self).memory_bus == old(self).memory_bus,
    {
        let hl = self.registers.get_hl();
        let result = self.add_u16(hl, value);
        self.registers.set_hl(result);
    }

    fn execute_block0(&mut self, opcode: u8)
        requires
            old(self).wf(),
            opcode < 0x40,
            implemented(opcode),
        ensures
            final(self)@ == execute_block0(old(self)@, opcode),
            final(self).wf(),
    {
        if opcode % 8 == 4 {
            //INC r, INC (HL)
            self.inc_r8(opcode / 8);
        } else if opcode % 8 == 5 {
            //DEC r, DEC (HL)
            self.dec_r8(opcode / 8);
        } else if opcode % 8 == 6 {
            //LD r, n8 / LD (HL), n8
            let data = self.fetch();
            self.write_r8(opcode / 8, data);
        } else if opcode == 0x01 || opcode == 0x11 || opcode == 0x21 || opcode == 0x31 || opcode == 0x02 || opcode == 0x12 || opcode == 0x22 || opcode == 0x32 || opcode == 0x08 || opcode == 0x0A || opcode == 0x1A || opcode == 0x2A || opcode == 0x3A {
            self.execute_block0_load(opcode);
        } else if opcode == 0x03 || opcode == 0x13 || opcode == 0x23 || opcode == 0x33 || opcode == 0x0B || opcode == 0x1B || opcode == 0x2B || opcode == 0x3B || opcode == 0x09 || opcode == 0x19 || opcode == 0x29 || opcode == 0x39 {
            self.execute_block0_arith16(opcode);
        } else {
            self.execute_block0_misc(opcode);
        }
    }

    /// Loads and stores among opcodes 0x00-0x3F.
    fn execute_block0_load(&mut self, opcode: u8)
        requires
            old(self).wf(),
            opcode < 0x40,
            is_block0_load(opcode),
        ensures
            final(self)@ == execute_block0(old(self)@, opcode),
            final(self).wf(),
    {
        if opcode == 0x01 || opcode == 0x11 || opcode == 0x21 || opcode == 0x31 || opcode == 0x08 {
            self.execute_load_immediate16(opcode);
        } else if opcode == 0x02 || opcode == 0x12 || opcode == 0x22 || opcode == 0x32 {
            self.execute_store_a(opcode);
        } else {
            self.execute_load_a(opcode);
        }
    }

    /// LD rr, n16 and LD (nn), SP.
    fn execute_load_immediate16(&mut self, opcode: u8)
        requires
            old(self).wf(),
            opcode == 0x01 || opcode == 0x11 || opcode == 0x21 || opcode == 0x31 || opcode == 0x08,
        ensures
            final(self)@ == execute_block0(old(self)@, opcode),
            final(self).wf(),
    {
        let value = self.fetch_u16();
        if opcode == 0x01 {
            //LD BC, n16
            self.registers.set_bc(value);
        } else if opcode == 0x11 {
            //LD DE, n16
            self.registers.set_de(value);
        } else if opcode == 0x21 {
            //LD HL, n16
            self.registers.set_hl(value);
        } else if opcode == 0x31 {
            //LD SP, n16
            self.registers.sp = value;
        } else {
            //LD (nn), SP
            let sp_low_byte = (self.registers.sp % 256) as u8;
            let sp_high_byte = (self.registers.sp / 256) as u8;
            self.memory_bus.write(value, sp_low_byte);
            proof {
                lemma_wrapping16(value, 1);
            }
            self.memory_bus.write(value.wrapping_add(1), sp_high_byte);
        }
    }

    /// LD (BC), A; LD (DE), A; LD (HL+), A; LD (HL-), A.
    fn execute_store_a(&mut self, opcode: u8)
        requires
            old(self).wf(),
            opcode == 0x02 || opcode == 0x12 || opcode == 0x22 || opcode == 0x32,
        ensures
            final(self)@ == execute_block0(old(self)@, opcode),
            final(self).wf(),
    {
        let address = if opcode == 0x02 {
            self.registers.get_bc()
        } else if opcode == 0x12 {
            self.registers.get_de()
        } else {
            self.registers.get_hl()
        };
        self.memory_bus.write(address, self.registers.a);
        proof {
            lemma_wrapping16(address, 1);
        }
        if opcode == 0x22 {
            self.registers.set_hl(address.wrapping_add(1));
        } else if opcode == 0x32 {
            self.registers.set_hl(address.wrapping_sub(1));
        }
    }

    /// LD A, (BC); LD A, (DE); LD A, (HL+); LD A, (HL-).
    fn execute_load_a(&mut self, opcode: u8)
        requires
            old(self).wf(),
            opcode == 0x0A || opcode == 0x1A || opcode == 0x2A || opcode == 0x3A,
        ensures
            final(self)@ == execute_block0(old(self)@, opcode),
            final(self).wf(),
    {
        let address = if opcode == 0x0A {
            self.registers.get_bc()
        } else if opcode == 0x1A {
            self.registers.get_de()
        } else {
            self.registers.get_hl()
        };
        self.registers.a = self.memory_bus.read(address);
        proof {
            lemma_wrapping16(address, 1);
        }
        if opcode == 0x2A {
            self.registers.set_hl(address.wrapping_add(1));
        } else if opcode == 0x3A {
            self.registers.set_hl(address.wrapping_sub(1));
        }
    }

    /// 16-bit increments, decrements and additions among opcodes 0x00-0x3F.
    fn execute_block0_arith16(&mut self, opcode: u8)
        requires
            old(self).wf(),
            opcode < 0x40,
            is_block0_arith16(opcode),
        ensures
            final(self)@ == execute_block0(old(self)@, opcode),
            final(self).wf(),
    {
        match opcode {
            //INC BC
            0x03 => {
                let value = self.inc_u16(self.registers.get_bc());
                self.registers.set_bc(value);
            },
            //INC DE
            0x13 => {
                let value = self.inc_u16(self.registers.get_de());
                self.registers.set_de(value);
            },
            //INC HL
            0x23 => {
                let value = self.inc_u16(self.registers.get_hl());
                self.registers.set_hl(value);
            },
            //INC SP
            0x33 => {
                let value = self.inc_u16(self.registers.sp);
                self.registers.sp = value;
            },
            //DEC BC
            0x0B => {
                let value = self.dec_u16(self.registers.get_bc());
                self.registers.set_bc(value);
            },
            //DEC DE
            0x1B => {
                let value = self.dec_u16(self.registers.get_de());
                self.registers.set_de(value);
            },
            //DEC HL
            0x2B => {
                let value = self.dec_u16(self.registers.get_hl());
                self.registers.set_hl(value);
            },
            //DEC SP
            0x3B => {
                let value = self.dec_u16(self.registers.sp);
                self.registers.sp = value;
            },
            //ADD HL, u16
            0x09 => self.add_to_hl(self.registers.get_bc()),
            0x19 => self.add_to_hl(self.registers.get_de()),
            0x29 => self.add_to_hl(self.registers.get_hl()),
            _ => self.add_to_hl(self.registers.sp),
        }
    }

    /// Rotations of A, relative jumps and flag operations among opcodes 0x00-0x3F.
    fn execute_block0_misc(&mut self, opcode: u8)
        requires
            old(self).wf(),
            opcode < 0x40,
            implemented(opcode) && opcode % 8 != 4 && opcode % 8 != 5 && opcode % 8 != 6 && !is_block0_load(opcode) && !is_block0_arith16(opcode),
        ensures
            final(self)@ == execute_block0(old(self)@, opcode),
            final(self).wf(),
    {
        match opcode {
            //NOP, STOP
            0x00 | 0x10 => {},
            //RLCA
            0x07 => self.registers.a = self.rlca(self.registers.a),
            //RRCA
            0x0F => self.registers.a = self.rrca(self.registers.a),
            //RLA
            0x17 => self.registers.a = self.rla(self.registers.a),
            //RRA
            0x1F => self.registers.a = self.rra(self.registers.a),
            //JR i8
            0x18 => self.jump_relative(true),
            //JR nz, i8
            0x20 => self.jump_relative(!self.registers.f.zero),
            //JR Z, i8
            0x28 => self.jump_relative(self.registers.f.zero),
            //JR NC, i8
            0x30 => self.jump_relative(!self.registers.f.carry),
            //JR C, i8
            0x38 => self.jump_relative(self.registers.f.carry),
            //DAA
            0x27 => self.daa(),
            //CPL A
            0x2F => {
                proof {
                    crate::bits::lemma_byte_not(self.registers.a);
                }
                self.registers.a = !self.registers.a;
                self.registers.f.subtract = true;
                self.registers.f.half_carry = true;
            },
            //SCF
            0x37 => {
                self.registers.f.carry = true;
                self.registers.f.subtract = false;
                self.registers.f.half_carry = false;
            },
            //CCF
            _ => {
                self.registers.f.carry = !self.registers.f.carry;
                self.registers.f.subtract = false;
                self.registers.f.half_carry = false;
            },
        }
    }

    /// DAA: decimal adjustment of A after a BCD addition or subtraction.
    fn daa(&mut self)
        ensures
            final(self)@ == old(self)@.with_regs(daa(old(self).registers)),
            final(self).memory_bus == old(self).memory_bus,
    {
        let a = self.registers.a;
        let mut v = a;
        if self.registers.f.subtract {
            if self.registers.f.half_carry {
                proof {
                    lemma_wrapping8(v, 0x06);
                }
                v = v.wrapping_sub(0x06);
            }
            if self.registers.f.carry {
                proof {
                    lemma_wrapping8(v, 0x60);
                }
                v = v.wrapping_sub(0x60);
            }
        } else {
            proof {
                crate::bits::lemma_nibbles(a);
                lemma_wrapping8(v, 0x60);
            }
            if a > 0x99 || self.registers.f.carry {
                v = v.wrapping_add(0x60);
                self.registers.f.carry = true;
            }
            proof {
                lemma_wrapping8(v, 0x06);
            }
            if (a & 0x0F > 0x09) || self.registers.f.half_carry {
                v = v.wrapping_add(0x06);
            }
        }
        self.registers.a = v;
        self.registers.f.zero = v == 0;
        self.registers.f.half_carry = false;
    }

    fn execute_load(&mut self, opcode: u8)
        requires
            old(self).wf(),
            0x40 <= opcode < 0x80,
        ensures
            final(self)@ == execute_load(old(self)@, opcode),
            final(self).wf(),
    {
        if opcode == 0x76 {
            /* HALT is not modelled */
        } else {
            // opcode: 01_xxx_yyy → xxx = destination, yyy = source
            let src = self.read_r8(opcode % 8);
            let target_adress = (opcode / 8) % 8;
            self.write_r8(target_adress, src);
        }
    }

    /// The ALU operation with code `op` on A and `value`.
    fn alu(&mut self, op: u8, value: u8)
        requires
            op < 8,
        ensures
            final(self).registers == alu_op(op, old(self).registers, value),
            final(self).memory_bus == old(self).memory_bus,
    {
        if op == 0 {
            self.add_to_a(value);
        } else if op == 1 {
            self.adc_to_a(value);
        } else if op == 2 {
            self.sub_from_a(value);
        } else if op == 3 {
            self.registers.a = self.sbc(value);
        } else if op == 4 {
            self.registers.a = self.a_and(value);
        } else if op == 5 {
            self.registers.a = self.a_xor(value);
        } else if op == 6 {
            self.registers.a = self.a_or(value);
        } else {
            self.compare(self.registers.a, value);
        }
    }

    fn execute_alu(&mut self, opcode: u8)
        requires
            old(self).wf(),
            0x80 <= opcode < 0xC0,
        ensures
            final(self)@ == execute_alu(old(self)@, opcode),
            final(self).wf(),
    {
        // opcode: 10_xxx_yyy → xxx = operation, yyy = source
        let src = self.read_r8(opcode % 8);
        self.alu((opcode / 8) % 8, src);
    }

    fn execute_cb(&mut self, next_opcode: u8)
        requires
            old(self).wf(),
        ensures
            final(self)@ == execute_cb(old(self)@, next_opcode),
            final(self).wf(),
    {
        let src = self.read_r8(next_opcode % 8);
        let bit = (next_opcode / 8) % 8;
        if 0x40 <= next_opcode && next_opcode < 0x80 {
            self.bit(src, bit);
        } else {
            let result: u8 = if next_opcode < 0x08 {
                self.rlc(src)
            } else if next_opcode < 0x10 {
                self.rrc(src)
            } else if next_opcode < 0x18 {
                self.rl(src)
            } else if next_opcode < 0x20 {
                self.rr(src)
            } else if next_opcode < 0x28 {
                self.sla(src)
            } else if next_opcode < 0x30 {
                self.sra(src)
            } else if next_opcode < 0x38 {
                self.swap(src)
            } else if next_opcode < 0x40 {
                self.srl(src)
            } else if next_opcode < 0xC0 {
                self.res(src, bit)
            } else {
                self.set(src, bit)
            };
            self.write_r8(next_opcode % 8, result);
        }
    }

    /// JP nn with the condition `taken`: the address is always fetched.
    fn jump_absolute(&mut self, taken: bool)
        ensures
            final(self)@ == old(self)@.jump_absolute(taken),
            final(self).memory_bus == old(self).memory_bus,
    {
        let address = self.fetch_u16();
        if taken {
            self.registers.pc = address;
        }
    }

    /// CALL nn with the condition `taken`.
    fn call(&mut self, taken: bool)
        requires
            old(self).wf(),
        ensures
            final(self)@ == old(self)@.call(taken),
            final(self).wf(),
    {
        //operand
        let address = self.fetch_u16();
        if taken {
            //saving return adress to stack
            self.stack_push(self.registers.pc);
            //jump to operand
            self.registers.pc = address;
        }
    }

    /// The value of SP plus the signed byte `value`, with the flags that
    /// ADD SP, e and LD HL, SP+e set.
    fn sp_plus_signed(&mut self, value: u8) -> (result: u16)
        ensures
            result == word(old(self).registers.sp + signed(value)),
            final(self)@ == old(self)@.with_regs(
                old(self).registers.with_flags(old(self)@.sp_offset_flags(value)),
            ),
            final(self).memory_bus == old(self).memory_bus,
    {
        let sp = self.registers.sp;
        let sp_low_byte = (sp % 256) as u8;
        proof {
            crate::bits::lemma_nibbles(sp_low_byte);
            crate::bits::lemma_nibbles(value);
        }
        self.registers.f.zero = false;
        self.registers.f.subtract = false;
        self.registers.f.half_carry = (sp_low_byte & 0x0F) + (value & 0x0F) > 0x0F;
        self.registers.f.carry = sp_low_byte as u16 + value as u16 > 0xFF;
        if value < 128 {
            sp.wrapping_add(value as u16)
        } else {
            sp.wrapping_sub(256 - value as u16)
        }
    }

    fn execute_block3(&mut self, opcode: u8)
        requires
            old(self).wf(),
            0xC0 <= opcode,
            implemented(opcode),
        ensures
            final(self)@ == execute_block3(old(self)@, opcode),
            final(self).wf(),
    {
        if opcode == 0xC0 || opcode == 0xC8 || opcode == 0xD0 || opcode == 0xD8 || opcode == 0xC9 || opcode == 0xD9 || opcode == 0xC1 || opcode == 0xD1 || opcode == 0xE1 || opcode == 0xF1 || opcode == 0xC5 || opcode == 0xD5 || opcode == 0xE5 || opcode == 0xF5 {
            self.execute_stack_ops(opcode);
        } else if opcode == 0xC2 || opcode == 0xCA || opcode == 0xD2 || opcode == 0xDA || opcode == 0xC3 || opcode == 0xC4 || opcode == 0xCC || opcode == 0xD4 || opcode == 0xDC || opcode == 0xCD || (opcode >= 0xC0 && opcode % 8 == 7) {
            self.execute_jumps(opcode);
        } else {
            self.execute_block3_rest(opcode);
        }
    }

    /// Returns, pops and pushes among opcodes 0xC0-0xFF.
    fn execute_stack_ops(&mut self, opcode: u8)
        requires
            old(self).wf(),
            0xC0 <= opcode,
            implemented(opcode),
            opcode == 0xC0 || opcode == 0xC8 || opcode == 0xD0 || opcode == 0xD8 || opcode == 0xC9 || opcode == 0xD9 || opcode == 0xC1 || opcode == 0xD1 || opcode == 0xE1 || opcode == 0xF1 || opcode == 0xC5 || opcode == 0xD5 || opcode == 0xE5 || opcode == 0xF5,
        ensures
            final(self)@ == execute_block3(old(self)@, opcode),
            final(self).wf(),
    {
        match opcode {
            //RET NZ
            0xC0 => {
                if !self.registers.f.zero {
                    self.ret()
                }
            },
            //RET Z
            0xC8 => {
                if self.registers.f.zero {
                    self.ret()
                }
            },
            //RET NC
            0xD0 => {
                if !self.registers.f.carry {
                    self.ret()
                }
            },
            //RET C
            0xD8 => {
                if self.registers.f.carry {
                    self.ret()
                }
            },
            //RET, RETI (interrupts are not modelled)
            0xC9 | 0xD9 => self.ret(),
            //POP BC
            0xC1 => {
                let address = self.stack_pop();
                self.registers.set_bc(address);
            },
            //POP DE
            0xD1 => {
                let address = self.stack_pop();
                self.registers.set_de(address);
            },
            //POP HL
            0xE1 => {
                let address = self.stack_pop();
                self.registers.set_hl(address);
            },
            //POP AF
            0xF1 => {
                let address = self.stack_pop();
                self.registers.set_af(address);
            },
            //PUSH BC
            0xC5 => self.stack_push(self.registers.get_bc()),
            //PUSH DE
            0xD5 => self.stack_push(self.registers.get_de()),
            //PUSH HL
            0xE5 => self.stack_push(self.registers.get_hl()),
            //PUSH AF
            0xF5 => self.stack_push(self.registers.get_af()),
            _ => {},
        }
    }

    /// Jumps, calls and restarts among opcodes 0xC0-0xFF.
    fn execute_jumps(&mut self, opcode: u8)
        requires
            old(self).wf(),
            0xC0 <= opcode,
            implemented(opcode),
            opcode == 0xC2 || opcode == 0xCA || opcode == 0xD2 || opcode == 0xDA || opcode == 0xC3 || opcode == 0xC4 || opcode == 0xCC || opcode == 0xD4 || opcode == 0xDC || opcode == 0xCD || (opcode >= 0xC0 && opcode % 8 == 7),
        ensures
            final(self)@ == execute_block3(old(self)@, opcode),
            final(self).wf(),
    {
        match opcode {
            //JP NZ, n16
            0xC2 => self.jump_absolute(!self.registers.f.zero),
            //JP Z, n16
            0xCA => self.jump_absolute(self.registers.f.zero),
            //JP NC, n16
            0xD2 => self.jump_absolute(!self.registers.f.carry),
            //JP C, n16
            0xDA => self.jump_absolute(self.registers.f.carry),
            //JUMP
            0xC3 => self.jump_absolute(true),
            //CALL NZ, nn
            0xC4 => self.call(!self.registers.f.zero),
            //CALL Z, nn
            0xCC => self.call(self.registers.f.zero),
            //CALL NC, nn
            0xD4 => self.call(!self.registers.f.carry),
            //CALL C, nn
            0xDC => self.call(self.registers.f.carry),
            //CALL
            0xCD => self.call(true),
            //RST
            0xC7 | 0xCF | 0xD7 | 0xDF | 0xE7 | 0xEF | 0xF7 | 0xFF => self.rst(opcode),
            _ => {},
        }
    }

    /// ALU with an immediate, the CB page, high-page and absolute loads, and stack pointer arithmetic among opcodes 0xC0-0xFF; DI and EI do nothing.
    #[verifier::rlimit(30)]
    fn execute_block3_rest(&mut self, opcode: u8)
        requires
            old(self).wf(),
            0xC0 <= opcode,
            implemented(opcode),
            !(opcode == 0xC0 || opcode == 0xC8 || opcode == 0xD0 || opcode == 0xD8 || opcode == 0xC9 || opcode == 0xD9 || opcode == 0xC1 || opcode == 0xD1 || opcode == 0xE1 || opcode == 0xF1 || opcode == 0xC5 || opcode == 0xD5 || opcode == 0xE5 || opcode == 0xF5) && !(opcode == 0xC2 || opcode == 0xCA || opcode == 0xD2 || opcode == 0xDA || opcode == 0xC3 || opcode == 0xC4 || opcode == 0xCC || opcode == 0xD4 || opcode == 0xDC || opcode == 0xCD || (opcode >= 0xC0 && opcode % 8 == 7)),
        ensures
            final(self)@ == execute_block3(old(self)@, opcode),
            final(self).wf(),
    {
        match opcode {
            //ADD, ADC, SUB, SBC, AND, XOR, OR, CP A, n8
            0xC6 | 0xCE | 0xD6 | 0xDE | 0xE6 | 0xEE | 0xF6 | 0xFE => {
                let value = self.fetch();
                self.alu((opcode / 8) % 8, value);
            },
            //PREFIX
            0xCB => {
                let next_opcode = self.fetch();
                self.execute_cb(next_opcode);
            },
            //LD (0xFF00 + n8), A
            0xE0 => {
                let offset = self.fetch();
                self.memory_bus.write(0xFF00 + offset as u16, self.registers.a);
            },
            //LD A, (0xFF00 + n8)
            0xF0 => {
                let offset = self.fetch();
                self.registers.a = self.memory_bus.read(0xFF00 + offset as u16);
            },
            // LD ($FF00+C), A
            0xE2 => self.memory_bus.write(0xFF00 + self.registers.c as u16, self.registers.a),
            //LD A, ($FF00 + C)
            0xF2 => self.registers.a = self.memory_bus.read(0xFF00 + self.registers.c as u16),
            //LD (n16), A
            0xEA => {
                let address = self.fetch_u16();
                self.memory_bus.write(address, self.registers.a);
            },
            //LD A, (a16)
            0xFA => {
                let address = self.fetch_u16();
                self.registers.a = self.memory_bus.read(address);
            },
            //ADD SP, n8
            0xE8 => {
                let value = self.fetch();
                let result = self.sp_plus_signed(value);
                self.registers.sp = result;
            },
            //LD HL, SP+n
            0xF8 => {
                let value = self.fetch();
                let result = self.sp_plus_signed(value);
                self.registers.set_hl(result);
            },
            //JP HL
            0xE9 => self.registers.pc = self.registers.get_hl(),
            //LD SP, HL
            0xF9 => self.registers.sp = self.registers.get_hl(),
            _ => {},
        }
    }

}

/// A word pushed onto a stack that lies in plain memory is the word on top
/// afterwards, and popping it restores every register.
pub proof fn lemma_push_pop(s: CpuView, v: u16)
    requires
        s.bus.wf(),
        plain_address(word(s.regs.sp - 1)),
        plain_address(word(s.regs.sp - 2)),
    ensures
        s.push(v).regs.sp == word(s.regs.sp - 2),
        s.push(v).rd(word(s.regs.sp - 1)) == v / 256,
        s.push(v).rd(word(s.regs.sp - 2)) == v % 256,
        s.push(v).top() == v,
        s.push(v).popped().regs == s.regs,
        s.push(v).bus.wf(),
{
    let sp1 = word(s.regs.sp - 1);
    let sp2 = word(sp1 - 1);
    let hi = (v / 256) as u8;
    let lo = (v % 256) as u8;
    assert(sp2 == word(s.regs.sp - 2));
    assert(sp1 != sp2);
    assert(word(sp2 + 1) == sp1);
    assert(word(sp2 + 2) == s.regs.sp);
    let s1 = s.with_sp(sp1).wr(sp1, hi);
    lemma_plain_write_read(s.bus, sp1, hi);
    lemma_plain_write_frame(s.bus, sp1, hi, sp2);
    lemma_plain_write_read(s1.bus, sp2, lo);
    lemma_plain_write_frame(s1.bus, sp2, lo, sp1);
    assert(pair(hi, lo) == v);
}

/// CALL followed by RET, with the stack in plain memory, resumes after the
/// CALL's operand with every register as it was.
pub proof fn lemma_call_ret(s: CpuView)
    requires
        s.bus.wf(),
        plain_address(word(s.regs.sp - 1)),
        plain_address(word(s.regs.sp - 2)),
    ensures
        s.call(true).ret(true).regs == s.adv(2).regs,
{
    let t = s.adv(2);
    lemma_push_pop(t, t.regs.pc);
}

/// The wrapping byte operations agree with the model's `byte`.
pub proof fn lemma_wrapping8(x: u8, y: u8)
    ensures
        x.wrapping_add(y) == byte(x + y),
        x.wrapping_sub(y) == byte(x - y),
{
}

/// The wrapping word operations agree with the model's `word`.
pub proof fn lemma_wrapping16(x: u16, y: u16)
    ensures
        x.wrapping_add(y) == word(x + y),
        x.wrapping_sub(y) == word(x - y),
{
}

/// Whether the decoder implements `op`.
pub fn is_implemented(op: u8) -> (ok: bool)
    ensures
        ok == implemented(op),
{
    !(op == 0xD3 || op == 0xDB || op == 0xDD || op == 0xE3 || op == 0xE4 || op
        == 0xEB || op == 0xEC || op == 0xED || op == 0xF4 || op == 0xFC || op == 0xFD)
}

// ----------------------------------------------------------------------------
// The flat test bus
// ----------------------------------------------------------------------------

/// A flat 64 KiB bus without banking, used to run test programs that report
/// through the serial port.
pub struct MemoryBus {
    pub memory: [u8; MEMORY_BUS_SIZE],
}

impl MemoryBus {
    /// A zeroed bus.
    pub fn new() -> (bus: MemoryBus)
        ensures
            forall|i: int| 0 <= i < MEMORY_BUS_SIZE ==> #[trigger] bus.memory@[i] == 0,
    {
        MemoryBus { memory: [0; MEMORY_BUS_SIZE] }
    }

    pub fn read(&self, address: u16) -> (value: u8)
        ensures
            value == self.memory@[address as int],
    {
        self.memory[address as usize]
    }

    /// Stores `value` at `address`. A write of 0x81 to the serial control
    /// register (0xFF02) sends the byte in the serial data register (0xFF01);
    /// that byte is returned for the caller to print.
    pub fn write(&mut self, address: u16, value: u8) -> (sent: Option<u8>)
        ensures
            final(self).memory@ == old(self).memory@.update(address as int, value),
            sent == (if address == 0xFF02 && value == 0x81 {
                Some(old(self).memory@[0xFF01])
            } else {
                None
            }),
    {
        let sent = if address == 0xFF02 && value == 0x81 {
            Some(self.memory[0xFF01])
        } else {
            None
        };
        self.memory[address as usize] = value;
        sent
    }

    /// Copies a program image to the start of memory.
    pub fn load_rom(&mut self, bytes: &[u8])
        requires
            bytes@.len() <= MEMORY_BUS_SIZE,
        ensures
            forall|i: int|
                0 <= i < MEMORY_BUS_SIZE ==> #[trigger] final(self).memory@[i] == if i
                    < bytes@.len() {
                    bytes@[i]
                } else {
                    old(self).memory@[i]
                },
    {
        let mut i: usize = 0;
        while i < bytes.len()
            invariant
                0 <= i <= bytes@.len() <= MEMORY_BUS_SIZE,
                forall|k: int|
                    0 <= k < MEMORY_BUS_SIZE ==> #[trigger] self.memory@[k] == if k < i {
                        bytes@[k]
                    } else {
                        old(self).memory@[k]
                    },
            decreases bytes@.len() - i,
        {
            self.memory[i] = bytes[i];
            i = i + 1;
        }
    }
}

} // verus!
