use vstd::prelude::*;

pub use crate::regs::{Reg16, Reg8, JF};

verus! {

/// A memory operand: the address a register pair or an immediate gives.
#[allow(non_camel_case_types)]
#[derive(Clone, Copy, PartialEq, Eq, Structural, Debug)]
pub enum Addr {
    BC,
    DE,
    HL,
    /// (HL), then HL is decremented.
    HLD,
    /// (HL), then HL is incremented.
    HLI,
    /// 0xFF00 + C.
    FF_C,
    Imm(u16),
    /// 0xFF00 + n.
    FF(u8),
}

/// An 8-bit operand.
#[derive(Clone, Copy, PartialEq, Eq, Structural, Debug)]
pub enum Operand8 {
    Register(Reg8),
    Immediate(u8),
    Memory(Addr),
}

/// A decoded instruction.
#[derive(Clone, Copy, PartialEq, Eq, Structural, Debug)]
pub enum Opcode {
    Ld(Operand8, Operand8),
    Ld16(Reg16, u16),
    LdnnSp(u16),
    LdSpHl,
    Push(Reg16),
    Pop(Reg16),
    Add(Operand8),
    Adc(Operand8),
    Sub(Operand8),
    Sbc(Operand8),
    And(Operand8),
    Xor(Operand8),
    Or(Operand8),
    Cp(Operand8),
    Inc(Operand8),
    Dec(Operand8),
    Daa,
    Cpl,
    AddHl(Reg16),
    Inc16(Reg16),
    Dec16(Reg16),
    AddSp(i8),
    LdHlSp(i8),
    Rlca,
    Rla,
    Rrca,
    Rra,
    Rlc(Operand8),
    Rl(Operand8),
    Rrc(Operand8),
    Rr(Operand8),
    Sla(Operand8),
    Swap(Operand8),
    Sra(Operand8),
    Srl(Operand8),
    Bit(u8, Operand8),
    SetBit(u8, Operand8),
    Res(u8, Operand8),
    Ccf,
    Scf,
    Nop,
    Halt,
    Stop,
    Di,
    Ei,
    Jmp(JF, u16),
    JmpHl,
    Jr(JF, i8),
    Call(JF, u16),
    Ret(JF),
    Reti,
    Rst(u8),
    Undefined(u8),
}

/// Bytes that an operand adds to an instruction.
pub open spec fn operand_bytes(o: Operand8) -> u16 {
    match o {
        Operand8::Immediate(_) => 1,
        Operand8::Memory(Addr::Imm(_)) => 2,
        Operand8::Memory(Addr::FF(_)) => 1,
        _ => 0,
    }
}

/// Machine cycles that an operand's memory access adds.
pub open spec fn operand_access(o: Operand8) -> usize {
    match o {
        Operand8::Memory(_) => 1,
        _ => 0,
    }
}

/// Whether an opcode belongs to the extended (0xCB-prefixed) space.
pub open spec fn is_extended(op: Opcode) -> bool {
    match op {
        Opcode::Rlc(_) | Opcode::Rl(_) | Opcode::Rrc(_) | Opcode::Rr(_) | Opcode::Sla(_)
        | Opcode::Swap(_) | Opcode::Sra(_) | Opcode::Srl(_) | Opcode::Bit(_, _)
        | Opcode::SetBit(_, _) | Opcode::Res(_, _) => true,
        _ => false,
    }
}

/// The encoded length of an instruction in bytes.
pub open spec fn length_spec(op: Opcode) -> u16 {
    if is_extended(op) {
        2
    } else {
        match op {
            Opcode::Ld(d, s) => (1 + operand_bytes(d) + operand_bytes(s)) as u16,
            Opcode::Add(o) | Opcode::Adc(o) | Opcode::Sub(o) | Opcode::Sbc(o) | Opcode::And(o)
            | Opcode::Xor(o) | Opcode::Or(o) | Opcode::Cp(o) => (1 + operand_bytes(o)) as u16,
            Opcode::Ld16(_, _) | Opcode::LdnnSp(_) | Opcode::Jmp(_, _) | Opcode::Call(_, _) => 3,
            Opcode::AddSp(_) | Opcode::LdHlSp(_) | Opcode::Jr(_, _) | Opcode::Stop => 2,
            _ => 1,
        }
    }
}

/// The machine cycles an instruction takes; `taken` says whether its condition held.
pub open spec fn cycles_spec(op: Opcode, taken: bool) -> usize {
    match op {
        Opcode::Ld(d, s) => (1 + operand_bytes(d) + operand_bytes(s) + operand_access(d)
            + operand_access(s)) as usize,
        Opcode::Add(o) | Opcode::Adc(o) | Opcode::Sub(o) | Opcode::Sbc(o) | Opcode::And(o)
        | Opcode::Xor(o) | Opcode::Or(o) | Opcode::Cp(o) => (1 + operand_bytes(o) + operand_access(o)) as usize,
        Opcode::Inc(o) | Opcode::Dec(o) => (1 + 2 * operand_access(o)) as usize,
        Opcode::Rlc(o) | Opcode::Rl(o) | Opcode::Rrc(o) | Opcode::Rr(o) | Opcode::Sla(o)
        | Opcode::Swap(o) | Opcode::Sra(o) | Opcode::Srl(o) | Opcode::SetBit(_, o)
        | Opcode::Res(_, o) => (2 + 2 * operand_access(o)) as usize,
        Opcode::Bit(_, o) => (2 + operand_access(o)) as usize,
        Opcode::Ld16(_, _) | Opcode::Pop(_) | Opcode::LdHlSp(_) => 3,
        Opcode::LdnnSp(_) => 5,
        Opcode::LdSpHl | Opcode::AddHl(_) | Opcode::Inc16(_) | Opcode::Dec16(_) => 2,
        Opcode::Push(_) | Opcode::AddSp(_) | Opcode::Reti | Opcode::Rst(_) => 4,
        Opcode::Jmp(_, _) => if taken { 4 } else { 3 },
        Opcode::Jr(_, _) => if taken { 3 } else { 2 },
        Opcode::Call(_, _) => if taken { 6 } else { 3 },
        Opcode::Ret(f) => if f == JF::Always { 4 } else if taken { 5 } else { 2 },
        Opcode::Undefined(_) => 0,
        _ => 1,
    }
}

/// The operand that a 3-bit register field selects: B C D E H L (HL) A.
pub open spec fn operand_r_spec(i: u8) -> Operand8 {
    match i {
        0 => Operand8::Register(Reg8::B),
        1 => Operand8::Register(Reg8::C),
        2 => Operand8::Register(Reg8::D),
        3 => Operand8::Register(Reg8::E),
        4 => Operand8::Register(Reg8::H),
        5 => Operand8::Register(Reg8::L),
        6 => Operand8::Memory(Addr::HL),
        _ => Operand8::Register(Reg8::A),
    }
}


/// The register pair that a 2-bit field selects, with SP last.
pub open spec fn pair_sp_spec(p: u8) -> Reg16 {
    match p {
        0 => Reg16::BC,
        1 => Reg16::DE,
        2 => Reg16::HL,
        _ => Reg16::SP,
    }
}


/// The register pair that a 2-bit field selects, with AF last (push and pop).
pub open spec fn pair_af_spec(p: u8) -> Reg16 {
    match p {
        0 => Reg16::BC,
        1 => Reg16::DE,
        2 => Reg16::HL,
        _ => Reg16::AF,
    }
}


/// The condition that a 2-bit field selects: NZ Z NC C.
pub open spec fn condition_spec(i: u8) -> JF {
    match i {
        0 => JF::NZ,
        1 => JF::Z,
        2 => JF::NC,
        _ => JF::C,
    }
}


/// The arithmetic or logic operation that a 3-bit field selects.
pub open spec fn alu_op_spec(y: u8, o: Operand8) -> Opcode {
    match y {
        0 => Opcode::Add(o),
        1 => Opcode::Adc(o),
        2 => Opcode::Sub(o),
        3 => Opcode::Sbc(o),
        4 => Opcode::And(o),
        5 => Opcode::Xor(o),
        6 => Opcode::Or(o),
        _ => Opcode::Cp(o),
    }
}


/// The operation of an extended opcode, the byte after the 0xCB prefix.
pub open spec fn decode_cb_spec(b: u8) -> Opcode {
    let x = b / 64;
    let y = (b / 8) % 8;
    let o = operand_r_spec(b % 8);
    if x == 0 {
        match y {
            0 => Opcode::Rlc(o),
            1 => Opcode::Rrc(o),
            2 => Opcode::Rl(o),
            3 => Opcode::Rr(o),
            4 => Opcode::Sla(o),
            5 => Opcode::Sra(o),
            6 => Opcode::Swap(o),
            _ => Opcode::Srl(o),
        }
    } else if x == 1 {
        Opcode::Bit(y, o)
    } else if x == 2 {
        Opcode::Res(y, o)
    } else {
        Opcode::SetBit(y, o)
    }
}


/// Opcodes 0x00 to 0x3F.
pub open spec fn decode_block0_spec(b0: u8, n: u8, nn: u16) -> Opcode {
    let y = (b0 / 8) % 8;
    let z = b0 % 8;
    let p = y / 2;
    let q = y % 2;
    if z == 0 {
        match y {
            0 => Opcode::Nop,
            1 => Opcode::LdnnSp(nn),
            2 => Opcode::Stop,
            3 => Opcode::Jr(JF::Always, n as i8),
            _ => Opcode::Jr(condition_spec((y - 4) as u8), n as i8),
        }
    } else if z == 1 {
        if q == 0 {
            Opcode::Ld16(pair_sp_spec(p), nn)
        } else {
            Opcode::AddHl(pair_sp_spec(p))
        }
    } else if z == 2 {
        let m = match p {
            0 => Addr::BC,
            1 => Addr::DE,
            2 => Addr::HLI,
            _ => Addr::HLD,
        };
        if q == 0 {
            Opcode::Ld(Operand8::Memory(m), Operand8::Register(Reg8::A))
        } else {
            Opcode::Ld(Operand8::Register(Reg8::A), Operand8::Memory(m))
        }
    } else if z == 3 {
        if q == 0 {
            Opcode::Inc16(pair_sp_spec(p))
        } else {
            Opcode::Dec16(pair_sp_spec(p))
        }
    } else if z == 4 {
        Opcode::Inc(operand_r_spec(y))
    } else if z == 5 {
        Opcode::Dec(operand_r_spec(y))
    } else if z == 6 {
        Opcode::Ld(operand_r_spec(y), Operand8::Immediate(n))
    } else {
        match y {
            0 => Opcode::Rlca,
            1 => Opcode::Rrca,
            2 => Opcode::Rla,
            3 => Opcode::Rra,
            4 => Opcode::Daa,
            5 => Opcode::Cpl,
            6 => Opcode::Scf,
            _ => Opcode::Ccf,
        }
    }
}


/// Opcodes 0xC0 to 0xFF.
pub open spec fn decode_block3_spec(b0: u8, n: u8, nn: u16) -> Opcode {
    let y = (b0 / 8) % 8;
    let z = b0 % 8;
    let p = y / 2;
    let q = y % 2;
    if z == 0 {
        match y {
            4 => Opcode::Ld(Operand8::Memory(Addr::FF(n)), Operand8::Register(Reg8::A)),
            5 => Opcode::AddSp(n as i8),
            6 => Opcode::Ld(Operand8::Register(Reg8::A), Operand8::Memory(Addr::FF(n))),
            7 => Opcode::LdHlSp(n as i8),
            _ => Opcode::Ret(condition_spec(y)),
        }
    } else if z == 1 {
        if q == 0 {
            Opcode::Pop(pair_af_spec(p))
        } else {
            match p {
                0 => Opcode::Ret(JF::Always),
                1 => Opcode::Reti,
                2 => Opcode::JmpHl,
                _ => Opcode::LdSpHl,
            }
        }
    } else if z == 2 {
        match y {
            4 => Opcode::Ld(Operand8::Memory(Addr::FF_C), Operand8::Register(Reg8::A)),
            5 => Opcode::Ld(Operand8::Memory(Addr::Imm(nn)), Operand8::Register(Reg8::A)),
            6 => Opcode::Ld(Operand8::Register(Reg8::A), Operand8::Memory(Addr::FF_C)),
            7 => Opcode::Ld(Operand8::Register(Reg8::A), Operand8::Memory(Addr::Imm(nn))),
            _ => Opcode::Jmp(condition_spec(y), nn),
        }
    } else if z == 3 {
        match y {
            0 => Opcode::Jmp(JF::Always, nn),
            1 => decode_cb_spec(n),
            6 => Opcode::Di,
            7 => Opcode::Ei,
            _ => Opcode::Undefined(b0),
        }
    } else if z == 4 {
        if y < 4 {
            Opcode::Call(condition_spec(y), nn)
        } else {
            Opcode::Undefined(b0)
        }
    } else if z == 5 {
        if q == 0 {
            Opcode::Push(pair_af_spec(p))
        } else if p == 0 {
            Opcode::Call(JF::Always, nn)
        } else {
            Opcode::Undefined(b0)
        }
    } else if z == 6 {
        alu_op_spec(y, Operand8::Immediate(n))
    } else {
        Opcode::Rst((y * 8) as u8)
    }
}


/// The operation of the instruction whose first byte is `b0`, followed by `n` (and `nn`, the two bytes after `b0` as a little-endian word).
pub open spec fn decode_spec(b0: u8, n: u8, nn: u16) -> Opcode {
    let x = b0 / 64;
    if x == 0 {
        decode_block0_spec(b0, n, nn)
    } else if x == 1 {
        if b0 == 0x76 {
            Opcode::Halt
        } else {
            Opcode::Ld(operand_r_spec((b0 / 8) % 8), operand_r_spec(b0 % 8))
        }
    } else if x == 2 {
        alu_op_spec((b0 / 8) % 8, operand_r_spec(b0 % 8))
    } else {
        decode_block3_spec(b0, n, nn)
    }
}

/// The byte count of an operand's encoding.
fn operand_len(o: Operand8) -> (r: u16)
    ensures
        r == operand_bytes(o),
{
    match o {
        Operand8::Immediate(_) => 1,
        Operand8::Memory(Addr::Imm(_)) => 2,
        Operand8::Memory(Addr::FF(_)) => 1,
        _ => 0,
    }
}

fn extended(op: Opcode) -> (r: bool)
    ensures
        r == is_extended(op),
{
    match op {
        Opcode::Rlc(_) | Opcode::Rl(_) | Opcode::Rrc(_) | Opcode::Rr(_) | Opcode::Sla(_)
        | Opcode::Swap(_) | Opcode::Sra(_) | Opcode::Srl(_) | Opcode::Bit(_, _)
        | Opcode::SetBit(_, _) | Opcode::Res(_, _) => true,
        _ => false,
    }
}

/// An instruction, as the debugger and the processor handle it.
#[derive(Clone, Copy, PartialEq, Eq, Structural, Debug)]
pub struct Instruction {
    pub opcode: Opcode,
}

impl Instruction {
    pub open spec fn op(self) -> Opcode {
        self.opcode
    }

    pub fn new(op: Opcode) -> (r: Instruction)
        ensures
            r.op() == op,
    {
        Instruction { opcode: op }
    }

    pub fn opcode(&self) -> (r: Opcode)
        ensures
            r == self.op(),
    {
        self.opcode
    }

    /// The encoded length in bytes.
    pub fn bytes(&self) -> (r: u16)
        ensures
            r == length_spec(self.op()),
    {
        if extended(self.opcode) {
            return 2;
        }
        match self.opcode {
            Opcode::Ld(d, s) => 1 + operand_len(d) + operand_len(s),
            Opcode::Add(o) | Opcode::Adc(o) | Opcode::Sub(o) | Opcode::Sbc(o) | Opcode::And(o)
            | Opcode::Xor(o) | Opcode::Or(o) | Opcode::Cp(o) => 1 + operand_len(o),
            Opcode::Ld16(_, _) | Opcode::LdnnSp(_) | Opcode::Jmp(_, _) | Opcode::Call(_, _) => 3,
            Opcode::AddSp(_) | Opcode::LdHlSp(_) | Opcode::Jr(_, _) | Opcode::Stop => 2,
            _ => 1,
        }
    }

    /// The machine cycles taken; `taken` says whether the condition of a jump, call or
    /// return held.
    pub fn cycles(&self, taken: bool) -> (r: usize)
        ensures
            r == cycles_spec(self.op(), taken),
            r <= 7,
    {
        let access = |o: Operand8| -> (r: usize)
            ensures
                r == operand_access(o),
            {
                match o {
                    Operand8::Memory(_) => 1usize,
                    _ => 0usize,
                }
            };
        match self.opcode {
            Opcode::Ld(d, s) => (1 + operand_len(d) + operand_len(s)) as usize + access(d) + access(s),
            Opcode::Add(o) | Opcode::Adc(o) | Opcode::Sub(o) | Opcode::Sbc(o) | Opcode::And(o)
            | Opcode::Xor(o) | Opcode::Or(o) | Opcode::Cp(o) => (1 + operand_len(o)) as usize + access(o),
            Opcode::Inc(o) | Opcode::Dec(o) => 1 + 2 * access(o),
            Opcode::Rlc(o) | Opcode::Rl(o) | Opcode::Rrc(o) | Opcode::Rr(o) | Opcode::Sla(o)
            | Opcode::Swap(o) | Opcode::Sra(o) | Opcode::Srl(o) | Opcode::SetBit(_, o)
            | Opcode::Res(_, o) => 2 + 2 * access(o),
            Opcode::Bit(_, o) => 2 + access(o),
            Opcode::Ld16(_, _) | Opcode::Pop(_) | Opcode::LdHlSp(_) => 3,
            Opcode::LdnnSp(_) => 5,
            Opcode::LdSpHl | Opcode::AddHl(_) | Opcode::Inc16(_) | Opcode::Dec16(_) => 2,
            Opcode::Push(_) | Opcode::AddSp(_) | Opcode::Reti | Opcode::Rst(_) => 4,
            Opcode::Jmp(_, _) => if taken { 4 } else { 3 },
            Opcode::Jr(_, _) => if taken { 3 } else { 2 },
            Opcode::Call(_, _) => if taken { 6 } else { 3 },
            Opcode::Ret(f) => if f == JF::Always { 4 } else if taken { 5 } else { 2 },
            Opcode::Undefined(_) => 0,
            _ => 1,
        }
    }
}

pub fn operand_r(i: u8) -> (r: Operand8)
    ensures
        r == operand_r_spec(i),
{
    match i {
        0 => Operand8::Register(Reg8::B),
        1 => Operand8::Register(Reg8::C),
        2 => Operand8::Register(Reg8::D),
        3 => Operand8::Register(Reg8::E),
        4 => Operand8::Register(Reg8::H),
        5 => Operand8::Register(Reg8::L),
        6 => Operand8::Memory(Addr::HL),
        _ => Operand8::Register(Reg8::A),
    }
}


pub fn pair_sp(p: u8) -> (r: Reg16)
    ensures
        r == pair_sp_spec(p),
{
    match p {
        0 => Reg16::BC,
        1 => Reg16::DE,
        2 => Reg16::HL,
        _ => Reg16::SP,
    }
}


pub fn pair_af(p: u8) -> (r: Reg16)
    ensures
        r == pair_af_spec(p),
{
    match p {
        0 => Reg16::BC,
        1 => Reg16::DE,
        2 => Reg16::HL,
        _ => Reg16::AF,
    }
}


pub fn condition(i: u8) -> (r: JF)
    ensures
        r == condition_spec(i),
{
    match i {
        0 => JF::NZ,
        1 => JF::Z,
        2 => JF::NC,
        _ => JF::C,
    }
}


pub fn alu_op(y: u8, o: Operand8) -> (r: Opcode)
    ensures
        r == alu_op_spec(y, o),
{
    match y {
        0 => Opcode::Add(o),
        1 => Opcode::Adc(o),
        2 => Opcode::Sub(o),
        3 => Opcode::Sbc(o),
        4 => Opcode::And(o),
        5 => Opcode::Xor(o),
        6 => Opcode::Or(o),
        _ => Opcode::Cp(o),
    }
}


pub fn decode_cb(b: u8) -> (r: Opcode)
    ensures
        r == decode_cb_spec(b),
{
    let x = b / 64;
    let y = (b / 8) % 8;
    let o = operand_r(b % 8);
    if x == 0 {
        match y {
            0 => Opcode::Rlc(o),
            1 => Opcode::Rrc(o),
            2 => Opcode::Rl(o),
            3 => Opcode::Rr(o),
            4 => Opcode::Sla(o),
            5 => Opcode::Sra(o),
            6 => Opcode::Swap(o),
            _ => Opcode::Srl(o),
        }
    } else if x == 1 {
        Opcode::Bit(y, o)
    } else if x == 2 {
        Opcode::Res(y, o)
    } else {
        Opcode::SetBit(y, o)
    }
}


pub fn decode_block0(b0: u8, n: u8, nn: u16) -> (r: Opcode)
    ensures
        r == decode_block0_spec(b0, n, nn),
{
    let y = (b0 / 8) % 8;
    let z = b0 % 8;
    let p = y / 2;
    let q = y % 2;
    if z == 0 {
        match y {
            0 => Opcode::Nop,
            1 => Opcode::LdnnSp(nn),
            2 => Opcode::Stop,
            3 => Opcode::Jr(JF::Always, #[verifier::truncate] (n as i8)),
            _ => Opcode::Jr(condition(y - 4), #[verifier::truncate] (n as i8)),
        }
    } else if z == 1 {
        if q == 0 {
            Opcode::Ld16(pair_sp(p), nn)
        } else {
            Opcode::AddHl(pair_sp(p))
        }
    } else if z == 2 {
        let m = match p {
            0 => Addr::BC,
            1 => Addr::DE,
            2 => Addr::HLI,
            _ => Addr::HLD,
        };
        if q == 0 {
            Opcode::Ld(Operand8::Memory(m), Operand8::Register(Reg8::A))
        } else {
            Opcode::Ld(Operand8::Register(Reg8::A), Operand8::Memory(m))
        }
    } else if z == 3 {
        if q == 0 {
            Opcode::Inc16(pair_sp(p))
        } else {
            Opcode::Dec16(pair_sp(p))
        }
    } else if z == 4 {
        Opcode::Inc(operand_r(y))
    } else if z == 5 {
        Opcode::Dec(operand_r(y))
    } else if z == 6 {
        Opcode::Ld(operand_r(y), Operand8::Immediate(n))
    } else {
        match y {
            0 => Opcode::Rlca,
            1 => Opcode::Rrca,
            2 => Opcode::Rla,
            3 => Opcode::Rra,
            4 => Opcode::Daa,
            5 => Opcode::Cpl,
            6 => Opcode::Scf,
            _ => Opcode::Ccf,
        }
    }
}


pub fn decode_block3(b0: u8, n: u8, nn: u16) -> (r: Opcode)
    ensures
        r == decode_block3_spec(b0, n, nn),
{
    let y = (b0 / 8) % 8;
    let z = b0 % 8;
    let p = y / 2;
    let q = y % 2;
    if z == 0 {
        match y {
            4 => Opcode::Ld(Operand8::Memory(Addr::FF(n)), Operand8::Register(Reg8::A)),
            5 => Opcode::AddSp(#[verifier::truncate] (n as i8)),
            6 => Opcode::Ld(Operand8::Register(Reg8::A), Operand8::Memory(Addr::FF(n))),
            7 => Opcode::LdHlSp(#[verifier::truncate] (n as i8)),
            _ => Opcode::Ret(condition(y)),
        }
    } else if z == 1 {
        if q == 0 {
            Opcode::Pop(pair_af(p))
        } else {
            match p {
                0 => Opcode::Ret(JF::Always),
                1 => Opcode::Reti,
                2 => Opcode::JmpHl,
                _ => Opcode::LdSpHl,
            }
        }
    } else if z == 2 {
        match y {
            4 => Opcode::Ld(Operand8::Memory(Addr::FF_C), Operand8::Register(Reg8::A)),
            5 => Opcode::Ld(Operand8::Memory(Addr::Imm(nn)), Operand8::Register(Reg8::A)),
            6 => Opcode::Ld(Operand8::Register(Reg8::A), Operand8::Memory(Addr::FF_C)),
            7 => Opcode::Ld(Operand8::Register(Reg8::A), Operand8::Memory(Addr::Imm(nn))),
            _ => Opcode::Jmp(condition(y), nn),
        }
    } else if z == 3 {
        match y {
            0 => Opcode::Jmp(JF::Always, nn),
            1 => decode_cb(n),
            6 => Opcode::Di,
            7 => Opcode::Ei,
            _ => Opcode::Undefined(b0),
        }
    } else if z == 4 {
        if y < 4 {
            Opcode::Call(condition(y), nn)
        } else {
            Opcode::Undefined(b0)
        }
    } else if z == 5 {
        if q == 0 {
            Opcode::Push(pair_af(p))
        } else if p == 0 {
            Opcode::Call(JF::Always, nn)
        } else {
            Opcode::Undefined(b0)
        }
    } else if z == 6 {
        alu_op(y, Operand8::Immediate(n))
    } else {
        Opcode::Rst(y * 8)
    }
}


pub fn decode(b0: u8, n: u8, nn: u16) -> (r: Opcode)
    ensures
        r == decode_spec(b0, n, nn),
{
    let x = b0 / 64;
    if x == 0 {
        decode_block0(b0, n, nn)
    } else if x == 1 {
        if b0 == 0x76 {
            Opcode::Halt
        } else {
            Opcode::Ld(operand_r((b0 / 8) % 8), operand_r(b0 % 8))
        }
    } else if x == 2 {
        alu_op((b0 / 8) % 8, operand_r(b0 % 8))
    } else {
        decode_block3(b0, n, nn)
    }
}

} // verus!
