use vstd::prelude::*;

use crate::alu::{
    add16, add16_spec, add8, add8_spec, and8, and8_spec, bit_spec, dec8, dec8_spec, inc8, inc8_spec,
    or8, or8_spec, res_bit, res_bit_spec, rl_spec, set_bit, set_bit_spec, sub8, sub8_spec,
    swap_spec, xor8, xor8_spec,
};
use crate::flags::{Flags, pack_spec, unpack_spec, lemma_unpack_pack};

verus! {

/// An 8-bit register; `F` is the packed flags byte.
#[derive(Clone, Copy, PartialEq, Eq, Structural, Debug)]
pub enum Reg8 {
    A,
    B,
    C,
    D,
    E,
    F,
    H,
    L,
}

/// A 16-bit register or register pair.
#[derive(Clone, Copy, PartialEq, Eq, Structural, Debug)]
pub enum Reg16 {
    AF,
    BC,
    DE,
    HL,
    SP,
    PC,
}

/// The condition of a jump, call or return.
#[derive(Clone, Copy, PartialEq, Eq, Structural, Debug)]
pub enum JF {
    Always,
    Z,
    C,
    NZ,
    NC,
}

/// What happens to HL after a memory access through it.
#[derive(Clone, Copy, PartialEq, Eq, Structural, Debug)]
pub enum ID {
    Keep,
    Inc,
    Dec,
}

/// The processor's registers: eight 8-bit registers (the flags held as four booleans),
/// the program counter and the stack pointer.
#[derive(Clone, Copy, PartialEq, Eq, Structural, Debug)]
pub struct Regs {
    pub pc: u16,
    pub sp: u16,
    pub a: u8,
    pub b: u8,
    pub c: u8,
    pub d: u8,
    pub e: u8,
    pub h: u8,
    pub l: u8,
    pub flags: Flags,
}

/// A 16-bit value from its high and low bytes.
pub open spec fn word(hi: u8, lo: u8) -> u16 {
    ((hi as u16) * 256 + (lo as u16)) as u16
}

pub open spec fn hi_byte(v: u16) -> u8 {
    (v / 256) as u8
}

pub open spec fn lo_byte(v: u16) -> u8 {
    (v % 256) as u8
}

pub open spec fn cond_holds(f: Flags, flag: JF) -> bool {
    match flag {
        JF::Always => true,
        JF::Z => f.zero,
        JF::C => f.carry,
        JF::NZ => !f.zero,
        JF::NC => !f.carry,
    }
}

impl Regs {
    pub open spec fn reg8(self, r: Reg8) -> u8 {
        match r {
            Reg8::A => self.a,
            Reg8::B => self.b,
            Reg8::C => self.c,
            Reg8::D => self.d,
            Reg8::E => self.e,
            Reg8::F => pack_spec(self.flags),
            Reg8::H => self.h,
            Reg8::L => self.l,
        }
    }

    pub open spec fn reg16(self, r: Reg16) -> u16 {
        match r {
            Reg16::AF => word(self.a, pack_spec(self.flags)),
            Reg16::BC => word(self.b, self.c),
            Reg16::DE => word(self.d, self.e),
            Reg16::HL => word(self.h, self.l),
            Reg16::SP => self.sp,
            Reg16::PC => self.pc,
        }
    }

    pub open spec fn with_reg8(self, r: Reg8, v: u8) -> Regs {
        match r {
            Reg8::A => Regs { a: v, ..self },
            Reg8::B => Regs { b: v, ..self },
            Reg8::C => Regs { c: v, ..self },
            Reg8::D => Regs { d: v, ..self },
            Reg8::E => Regs { e: v, ..self },
            Reg8::F => Regs { flags: unpack_spec(v), ..self },
            Reg8::H => Regs { h: v, ..self },
            Reg8::L => Regs { l: v, ..self },
        }
    }

    pub open spec fn with_reg16(self, r: Reg16, v: u16) -> Regs {
        match r {
            Reg16::AF => Regs { a: hi_byte(v), flags: unpack_spec(lo_byte(v)), ..self },
            Reg16::BC => Regs { b: hi_byte(v), c: lo_byte(v), ..self },
            Reg16::DE => Regs { d: hi_byte(v), e: lo_byte(v), ..self },
            Reg16::HL => Regs { h: hi_byte(v), l: lo_byte(v), ..self },
            Reg16::SP => Regs { sp: v, ..self },
            Reg16::PC => Regs { pc: v, ..self },
        }
    }

    /// The accumulator and flags replaced by an operation's result.
    pub open spec fn with_acc(self, p: (u8, Flags)) -> Regs {
        Regs { a: p.0, flags: p.1, ..self }
    }

    /// The flags replaced, every register kept.
    pub open spec fn with_flags(self, f: Flags) -> Regs {
        Regs { flags: f, ..self }
    }

    /// Register `r` and the flags replaced by an operation's result.
    pub open spec fn with_result(self, r: Reg8, p: (u8, Flags)) -> Regs {
        Regs { flags: p.1, ..self.with_reg8(r, p.0) }
    }

    /// The register values after reset of the boot program.
    pub open spec fn initial() -> Regs {
        Regs {
            pc: 0x0100,
            sp: 0xFFFE,
            a: 0x01,
            b: 0x00,
            c: 0x13,
            d: 0x00,
            e: 0xD8,
            h: 0x01,
            l: 0x4D,
            flags: Flags { zero: true, sub: false, half: true, carry: true },
        }
    }

    pub fn new() -> (r: Regs)
        ensures
            r == Regs::initial(),
    {
        Regs {
            pc: 0x0100,
            sp: 0xFFFE,
            a: 0x01,
            b: 0x00,
            c: 0x13,
            d: 0x00,
            e: 0xD8,
            h: 0x01,
            l: 0x4D,
            flags: Flags { zero: true, sub: false, half: true, carry: true },
        }
    }

    pub fn read(&self, reg: Reg8) -> (r: u8)
        ensures
            r == self.reg8(reg),
    {
        match reg {
            Reg8::A => self.a,
            Reg8::B => self.b,
            Reg8::C => self.c,
            Reg8::D => self.d,
            Reg8::E => self.e,
            Reg8::F => self.flags.pack(),
            Reg8::H => self.h,
            Reg8::L => self.l,
        }
    }

    pub fn read16(&self, reg: Reg16) -> (r: u16)
        ensures
            r == self.reg16(reg),
    {
        match reg {
            Reg16::AF => (self.a as u16) * 256 + (self.flags.pack() as u16),
            Reg16::BC => (self.b as u16) * 256 + (self.c as u16),
            Reg16::DE => (self.d as u16) * 256 + (self.e as u16),
            Reg16::HL => (self.h as u16) * 256 + (self.l as u16),
            Reg16::SP => self.sp,
            Reg16::PC => self.pc,
        }
    }

    pub fn write(&mut self, value: u8, reg: Reg8)
        ensures
            *final(self) == old(self).with_reg8(reg, value),
    {
        match reg {
            Reg8::A => self.a = value,
            Reg8::B => self.b = value,
            Reg8::C => self.c = value,
            Reg8::D => self.d = value,
            Reg8::E => self.e = value,
            Reg8::F => self.flags = Flags::unpack(value),
            Reg8::H => self.h = value,
            Reg8::L => self.l = value,
        }
    }

    pub fn write16(&mut self, value: u16, reg: Reg16)
        ensures
            *final(self) == old(self).with_reg16(reg, value),
    {
        let hi = (value / 256) as u8;
        let lo = (value % 256) as u8;
        match reg {
            Reg16::AF => {
                self.a = hi;
                self.flags = Flags::unpack(lo);
            },
            Reg16::BC => {
                self.b = hi;
                self.c = lo;
            },
            Reg16::DE => {
                self.d = hi;
                self.e = lo;
            },
            Reg16::HL => {
                self.h = hi;
                self.l = lo;
            },
            Reg16::SP => self.sp = value,
            Reg16::PC => self.pc = value,
        }
    }

    /// Whether a jump with condition `flag` is taken.
    pub fn jump_match(&self, flag: JF) -> (r: bool)
        ensures
            r == cond_holds(self.flags, flag),
    {
        match flag {
            JF::Always => true,
            JF::Z => self.flags.zero,
            JF::C => self.flags.carry,
            JF::NZ => !self.flags.zero,
            JF::NC => !self.flags.carry,
        }
    }

    /// A <- A + value, plus the carry flag when `carry` is set.
    pub fn addi(&mut self, value: u8, carry: bool)
        ensures
            *final(self) == old(self).with_acc(add8_spec(old(self).a, value, carry && old(self).flags.carry)),
    {
        let p = add8(self.a, value, carry && self.flags.carry);
        self.a = p.0;
        self.flags = p.1;
    }

    /// A <- A + r.
    pub fn add(&mut self, reg: Reg8)
        ensures
            *final(self) == old(self).with_acc(add8_spec(old(self).a, old(self).reg8(reg), false)),
    {
        let v = self.read(reg);
        self.addi(v, false);
    }

    /// A <- A + (HL), the byte already read.
    #[allow(non_snake_case)]
    pub fn add_HL(&mut self, value: u8)
        ensures
            *final(self) == old(self).with_acc(add8_spec(old(self).a, value, false)),
    {
        self.addi(value, false);
    }

    /// A <- A + r + carry.
    pub fn adc(&mut self, reg: Reg8)
        ensures
            *final(self) == old(self).with_acc(add8_spec(old(self).a, old(self).reg8(reg), old(self).flags.carry)),
    {
        let v = self.read(reg);
        self.addi(v, true);
    }

    /// HL <- HL + rr.
    #[allow(non_snake_case)]
    pub fn add_to_HL(&mut self, reg: Reg16)
        ensures
            ({
                let p = add16_spec(old(self).reg16(Reg16::HL), old(self).reg16(reg), old(self).flags);
                *final(self) == old(self).with_reg16(Reg16::HL, p.0).with_flags(p.1)
            }),
    {
        let hl = self.read16(Reg16::HL);
        let v = self.read16(reg);
        let p = add16(hl, v, self.flags);
        self.write16(p.0, Reg16::HL);
        self.flags = p.1;
    }

    /// A <- A - value, minus the carry flag when `carry` is set.
    pub fn sbci(&mut self, value: u8, carry: bool)
        ensures
            *final(self) == old(self).with_acc(sub8_spec(old(self).a, value, carry && old(self).flags.carry)),
    {
        let p = sub8(self.a, value, carry && self.flags.carry);
        self.a = p.0;
        self.flags = p.1;
    }

    /// A <- A - imm.
    pub fn subi(&mut self, imm: u8)
        ensures
            *final(self) == old(self).with_acc(sub8_spec(old(self).a, imm, false)),
    {
        self.sbci(imm, false);
    }

    /// A <- A - r.
    pub fn sub(&mut self, reg: Reg8)
        ensures
            *final(self) == old(self).with_acc(sub8_spec(old(self).a, old(self).reg8(reg), false)),
    {
        let v = self.read(reg);
        self.sbci(v, false);
    }

    /// A <- A - (HL), the byte already read.
    #[allow(non_snake_case)]
    pub fn sub_HL(&mut self, value: u8)
        ensures
            *final(self) == old(self).with_acc(sub8_spec(old(self).a, value, false)),
    {
        self.sbci(value, false);
    }

    /// A <- A - r - carry.
    pub fn sbc(&mut self, reg: Reg8)
        ensures
            *final(self) == old(self).with_acc(sub8_spec(old(self).a, old(self).reg8(reg), old(self).flags.carry)),
    {
        let v = self.read(reg);
        self.sbci(v, true);
    }

    /// Compare A with imm: the flags of A - imm, A unchanged.
    pub fn cpi(&mut self, imm: u8)
        ensures
            *final(self) == old(self).with_flags(sub8_spec(old(self).a, imm, false).1),
    {
        let p = sub8(self.a, imm, false);
        self.flags = p.1;
    }

    /// Compare A with r.
    pub fn cp(&mut self, reg: Reg8)
        ensures
            *final(self) == old(self).with_flags(sub8_spec(old(self).a, old(self).reg8(reg), false).1),
    {
        let v = self.read(reg);
        self.cpi(v);
    }

    /// Compare A with (HL), the byte already read.
    #[allow(non_snake_case)]
    pub fn cp_HL(&mut self, value: u8)
        ensures
            *final(self) == old(self).with_flags(sub8_spec(old(self).a, value, false).1),
    {
        self.cpi(value);
    }

    /// A <- A & imm.
    pub fn andi(&mut self, imm: u8)
        ensures
            *final(self) == old(self).with_acc(and8_spec(old(self).a, imm)),
    {
        let p = and8(self.a, imm);
        self.a = p.0;
        self.flags = p.1;
    }

    /// A <- A & r.
    pub fn and(&mut self, reg: Reg8)
        ensures
            *final(self) == old(self).with_acc(and8_spec(old(self).a, old(self).reg8(reg))),
    {
        let v = self.read(reg);
        self.andi(v);
    }

    /// A <- A | imm.
    pub fn ori(&mut self, imm: u8)
        ensures
            *final(self) == old(self).with_acc(or8_spec(old(self).a, imm)),
    {
        let p = or8(self.a, imm);
        self.a = p.0;
        self.flags = p.1;
    }

    /// A <- A | r.
    pub fn or(&mut self, reg: Reg8)
        ensures
            *final(self) == old(self).with_acc(or8_spec(old(self).a, old(self).reg8(reg))),
    {
        let v = self.read(reg);
        self.ori(v);
    }

    /// A <- A ^ imm.
    pub fn xori(&mut self, imm: u8)
        ensures
            *final(self) == old(self).with_acc(xor8_spec(old(self).a, imm)),
    {
        let p = xor8(self.a, imm);
        self.a = p.0;
        self.flags = p.1;
    }

    /// A <- A ^ (HL), the byte already read.
    #[allow(non_snake_case)]
    pub fn xor_HL(&mut self, value: u8)
        ensures
            *final(self) == old(self).with_acc(xor8_spec(old(self).a, value)),
    {
        self.xori(value);
    }

    /// A <- A ^ r.
    pub fn xor(&mut self, reg: Reg8)
        ensures
            *final(self) == old(self).with_acc(xor8_spec(old(self).a, old(self).reg8(reg))),
    {
        let v = self.read(reg);
        self.xori(v);
    }

    /// A <- !A; subtract and half-carry set.
    pub fn cpl(&mut self)
        ensures
            final(self).a == old(self).a ^ 0xFF,
            final(self).flags == (Flags { sub: true, half: true, ..old(self).flags }),
            *final(self) == old(self).with_acc((final(self).a, final(self).flags)),
    {
        self.a = self.a ^ 0xFF;
        self.flags.sub = true;
        self.flags.half = true;
    }

    /// r <- r + 1.
    pub fn inc(&mut self, reg: Reg8)
        ensures
            *final(self) == old(self).with_result(reg, inc8_spec(old(self).reg8(reg), old(self).flags)),
    {
        let v = self.read(reg);
        let p = inc8(v, self.flags);
        self.write(p.0, reg);
        self.flags = p.1;
    }

    /// r <- r - 1.
    pub fn dec(&mut self, reg: Reg8)
        ensures
            *final(self) == old(self).with_result(reg, dec8_spec(old(self).reg8(reg), old(self).flags)),
    {
        let v = self.read(reg);
        let p = dec8(v, self.flags);
        self.write(p.0, reg);
        self.flags = p.1;
    }

    /// rr <- rr + 1, flags untouched.
    pub fn inc16(&mut self, reg: Reg16)
        ensures
            *final(self) == old(self).with_reg16(reg, ((old(self).reg16(reg) as u32 + 1) % 65536) as u16),
    {
        let v = self.read16(reg);
        self.write16(((v as u32 + 1) % 65536) as u16, reg);
    }

    /// rr <- rr - 1, flags untouched.
    pub fn dec16(&mut self, reg: Reg16)
        ensures
            *final(self) == old(self).with_reg16(reg, ((old(self).reg16(reg) as u32 + 65535) % 65536) as u16),
    {
        let v = self.read16(reg);
        self.write16(((v as u32 + 65535) % 65536) as u16, reg);
    }

    /// rd <- rs.
    pub fn ld(&mut self, rd: Reg8, rs: Reg8)
        ensures
            *final(self) == old(self).with_reg8(rd, old(self).reg8(rs)),
    {
        let v = self.read(rs);
        self.write(v, rd);
    }

    /// Test bit `bit` of r.
    pub fn bit(&mut self, bit: u8, reg: Reg8)
        requires
            bit < 8,
        ensures
            *final(self) == old(self).with_flags(bit_spec(bit, old(self).reg8(reg), old(self).flags)),
    {
        let v = self.read(reg);
        self.flags = crate::alu::bit(bit, v, self.flags);
    }

    /// Clear bit `bit` of r.
    pub fn res(&mut self, bit: u8, reg: Reg8)
        requires
            bit < 8,
        ensures
            *final(self) == old(self).with_reg8(reg, res_bit_spec(bit, old(self).reg8(reg))),
    {
        let v = self.read(reg);
        self.write(res_bit(bit, v), reg);
    }

    /// Set bit `bit` of r.
    pub fn set(&mut self, bit: u8, reg: Reg8)
        requires
            bit < 8,
        ensures
            *final(self) == old(self).with_reg8(reg, set_bit_spec(bit, old(self).reg8(reg))),
    {
        let v = self.read(reg);
        self.write(set_bit(bit, v), reg);
    }

    /// Rotate r left through carry.
    pub fn rl(&mut self, reg: Reg8)
        ensures
            *final(self) == old(self).with_result(reg, rl_spec(old(self).reg8(reg), old(self).flags)),
    {
        let v = self.read(reg);
        let p = crate::alu::rl(v, self.flags);
        self.write(p.0, reg);
        self.flags = p.1;
    }

    /// Rotate A left through carry; zero is always cleared.
    pub fn rla(&mut self)
        ensures
            ({
                let p = rl_spec(old(self).a, old(self).flags);
                *final(self) == old(self).with_acc((p.0, Flags { zero: false, ..p.1 }))
            }),
    {
        let p = crate::alu::rl(self.a, self.flags);
        self.a = p.0;
        self.flags = Flags { zero: false, ..p.1 };
    }

    /// Exchange the nibbles of r.
    pub fn swap(&mut self, reg: Reg8)
        ensures
            *final(self) == old(self).with_result(reg, swap_spec(old(self).reg8(reg))),
    {
        let v = self.read(reg);
        let p = crate::alu::swap(v);
        self.write(p.0, reg);
        self.flags = p.1;
    }
}

/// Writing a register pair with the value read from it leaves every register as it was;
/// for AF this holds because the packed flags byte keeps its low nibble clear.
pub proof fn lemma_write_read16(r: Regs, reg: Reg16)
    ensures
        r.with_reg16(reg, r.reg16(reg)) == r,
{
    lemma_unpack_pack(r.flags);
}

} // verus!
