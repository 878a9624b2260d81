use vstd::prelude::*;

use crate::alu::{
    add16_spec, add8_spec, add_sp, add_sp_spec, and8_spec, bit_spec, daa, daa_spec, dec8, dec8_spec,
    inc8, inc8_spec, or8_spec, res_bit, res_bit_spec, rl, rl_spec, rlc, rlc_spec, rr, rr_spec, rrc,
    rrc_spec, set_bit, set_bit_spec, sla, sla_spec, sra, sra_spec, srl, srl_spec, sub8_spec, swap,
    swap_spec, xor8_spec,
};
use crate::fault::Fault;
use crate::flags::Flags;
use crate::interconnect::Interconnect;
use crate::mem_map::{map_spec, Addr as Region};
use crate::opcode::{Addr, Instruction, Opcode, Operand8, cycles_spec, decode, decode_spec, length_spec};
use crate::regs::{Reg16, Regs, cond_holds, hi_byte, lo_byte, word};

verus! {

/// The processor: registers and interrupt state.
#[derive(Clone, Copy, PartialEq, Eq, Structural, Debug)]
pub struct Cpu {
    pub regs: Regs,
    /// Interrupt master enable.
    pub ime: bool,
    /// Set by EI: the master enable turns on before the next instruction.
    pub ime_next_cycle: bool,
    /// Parked until an enabled, flagged interrupt arrives.
    pub halted: bool,
    pub stopped: bool,
}

pub open spec fn wrap16(x: int) -> u16 {
    ((x % 65536 + 65536) % 65536) as u16
}

pub open spec fn mapped(a: u16) -> bool {
    map_spec(a) != Region::Unmapped
}

/// The address a memory operand names.
pub open spec fn addr_of(r: Regs, m: Addr) -> u16 {
    match m {
        Addr::BC => r.reg16(Reg16::BC),
        Addr::DE => r.reg16(Reg16::DE),
        Addr::HL | Addr::HLD | Addr::HLI => r.reg16(Reg16::HL),
        Addr::FF_C => (0xFF00 + r.c as int) as u16,
        Addr::Imm(n) => n,
        Addr::FF(n) => (0xFF00 + n as int) as u16,
    }
}

/// The registers after a memory operand is used: HL steps for the (HL+) and (HL-) forms.
pub open spec fn after_access(r: Regs, m: Addr) -> Regs {
    match m {
        Addr::HLI => r.with_reg16(Reg16::HL, wrap16(r.reg16(Reg16::HL) + 1)),
        Addr::HLD => r.with_reg16(Reg16::HL, wrap16(r.reg16(Reg16::HL) - 1)),
        _ => r,
    }
}

pub open spec fn operand_value(r: Regs, b: Interconnect, o: Operand8) -> u8 {
    match o {
        Operand8::Register(x) => r.reg8(x),
        Operand8::Immediate(n) => n,
        Operand8::Memory(m) => b.read_spec(addr_of(r, m)),
    }
}

pub open spec fn operand_mapped(r: Regs, o: Operand8) -> bool {
    match o {
        Operand8::Memory(m) => mapped(addr_of(r, m)),
        _ => true,
    }
}

/// The registers after an 8-bit arithmetic or logic operation with operand value `v`.
pub open spec fn alu_apply(op: Opcode, r: Regs, v: u8) -> Regs {
    match op {
        Opcode::Add(_) => r.with_acc(add8_spec(r.a, v, false)),
        Opcode::Adc(_) => r.with_acc(add8_spec(r.a, v, r.flags.carry)),
        Opcode::Sub(_) => r.with_acc(sub8_spec(r.a, v, false)),
        Opcode::Sbc(_) => r.with_acc(sub8_spec(r.a, v, r.flags.carry)),
        Opcode::And(_) => r.with_acc(and8_spec(r.a, v)),
        Opcode::Xor(_) => r.with_acc(xor8_spec(r.a, v)),
        Opcode::Or(_) => r.with_acc(or8_spec(r.a, v)),
        _ => r.with_flags(sub8_spec(r.a, v, false).1),
    }
}

pub open spec fn is_alu(op: Opcode) -> bool {
    op is Add || op is Adc || op is Sub || op is Sbc || op is And || op is Xor || op is Or || op is Cp
}

pub open spec fn alu_operand(op: Opcode) -> Operand8 {
    match op {
        Opcode::Add(o) | Opcode::Adc(o) | Opcode::Sub(o) | Opcode::Sbc(o) | Opcode::And(o)
        | Opcode::Xor(o) | Opcode::Or(o) | Opcode::Cp(o) => o,
        _ => Operand8::Immediate(0),
    }
}

/// Read-modify-write operations on one operand.
pub open spec fn is_unary(op: Opcode) -> bool {
    op is Inc || op is Dec || op is Rlc || op is Rl || op is Rrc || op is Rr || op is Sla || op is Sra
        || op is Srl || op is Swap || op is SetBit || op is Res
}

pub open spec fn unary_operand(op: Opcode) -> Operand8 {
    match op {
        Opcode::Inc(o) | Opcode::Dec(o) | Opcode::Rlc(o) | Opcode::Rl(o) | Opcode::Rrc(o) | Opcode::Rr(o)
        | Opcode::Sla(o) | Opcode::Sra(o) | Opcode::Srl(o) | Opcode::Swap(o) | Opcode::SetBit(_, o)
        | Opcode::Res(_, o) | Opcode::Bit(_, o) => o,
        _ => Operand8::Immediate(0),
    }
}

/// New value and flags of a read-modify-write operation on `v`.
pub open spec fn unary_result(op: Opcode, v: u8, f: Flags) -> (u8, Flags) {
    match op {
        Opcode::Inc(_) => inc8_spec(v, f),
        Opcode::Dec(_) => dec8_spec(v, f),
        Opcode::Rlc(_) => rlc_spec(v),
        Opcode::Rl(_) => rl_spec(v, f),
        Opcode::Rrc(_) => rrc_spec(v),
        Opcode::Rr(_) => rr_spec(v, f),
        Opcode::Sla(_) => sla_spec(v),
        Opcode::Sra(_) => sra_spec(v),
        Opcode::Srl(_) => srl_spec(v),
        Opcode::Swap(_) => swap_spec(v),
        Opcode::SetBit(b, _) => (set_bit_spec(b % 8, v), f),
        Opcode::Res(b, _) => (res_bit_spec(b % 8, v), f),
        _ => (v, f),
    }
}

/// The accumulator forms of the rotates: zero is always cleared.
pub open spec fn acc_rotate(op: Opcode, r: Regs) -> Regs {
    let p = match op {
        Opcode::Rlca => rlc_spec(r.a),
        Opcode::Rla => rl_spec(r.a, r.flags),
        Opcode::Rrca => rrc_spec(r.a),
        _ => rr_spec(r.a, r.flags),
    };
    r.with_acc((p.0, Flags { zero: false, ..p.1 }))
}

/// Two bytes pushed: the high byte at SP - 1, the low byte at SP - 2.
pub open spec fn pushes(b0: Interconnect, sp: u16, v: u16, b1: Interconnect) -> bool {
    exists|m: Interconnect| #[trigger] b0.writes(wrap16(sp - 1), hi_byte(v), m) && m.writes(wrap16(sp - 2), lo_byte(v), b1)
}

/// The word on top of the stack.
pub open spec fn top_word(b: Interconnect, sp: u16) -> u16 {
    word(b.read_spec(wrap16(sp + 1)), b.read_spec(sp))
}

pub open spec fn stack_mapped(sp: u16, push: bool) -> bool {
    if push {
        mapped(wrap16(sp - 1)) && mapped(wrap16(sp - 2))
    } else {
        mapped(sp) && mapped(wrap16(sp + 1))
    }
}

impl Cpu {
    /// Whether the addresses `op` touches are all mapped (so that it cannot fault).
    pub open spec fn accesses_mapped(self, op: Opcode) -> bool {
        let r = self.regs;
        match op {
            Opcode::Ld(d, s) => operand_mapped(r, s) && operand_mapped(
                match s {
                    Operand8::Memory(m) => after_access(r, m),
                    _ => r,
                },
                d,
            ),
            Opcode::LdnnSp(n) => mapped(n) && mapped(wrap16(n + 1)),
            Opcode::Push(_) | Opcode::Rst(_) => stack_mapped(r.sp, true),
            Opcode::Call(f, _) => !cond_holds(r.flags, f) || stack_mapped(r.sp, true),
            Opcode::Pop(_) | Opcode::Reti => stack_mapped(r.sp, false),
            Opcode::Ret(f) => !cond_holds(r.flags, f) || stack_mapped(r.sp, false),
            Opcode::Add(o) | Opcode::Adc(o) | Opcode::Sub(o) | Opcode::Sbc(o) | Opcode::And(o)
            | Opcode::Xor(o) | Opcode::Or(o) | Opcode::Cp(o) | Opcode::Inc(o) | Opcode::Dec(o)
            | Opcode::Rlc(o) | Opcode::Rl(o) | Opcode::Rrc(o) | Opcode::Rr(o) | Opcode::Sla(o)
            | Opcode::Sra(o) | Opcode::Srl(o) | Opcode::Swap(o) | Opcode::SetBit(_, o) | Opcode::Res(_, o)
            | Opcode::Bit(_, o) => operand_mapped(r, o),
            _ => true,
        }
    }

    /// What executing `op` does, from `self` and `b0` to `c1` and `b1`, taking `cycles`
    /// machine cycles. The program counter already points past the instruction.
    #[verifier::opaque]
    pub open spec fn executes(self, b0: Interconnect, op: Opcode, c1: Cpu, b1: Interconnect, cycles: usize) -> bool {
        let r = self.regs;
        let same = c1 == (Cpu { regs: c1.regs, ..self });
        match op {
            Opcode::Ld(d, s) => {
                let v = operand_value(r, b0, s);
                let r1 = match s {
                    Operand8::Memory(m) => after_access(r, m),
                    _ => r,
                };
                &&& same
                &&& cycles == cycles_spec(op, true)
                &&& match d {
                    Operand8::Register(x) => c1.regs == r1.with_reg8(x, v) && b1 == b0,
                    Operand8::Memory(m) => c1.regs == after_access(r1, m) && b0.writes(addr_of(r1, m), v, b1),
                    Operand8::Immediate(_) => c1.regs == r1 && b1 == b0,
                }
            },
            Opcode::Ld16(x, n) => same && b1 == b0 && cycles == 3 && c1.regs == r.with_reg16(x, n),
            Opcode::LdnnSp(n) => same && cycles == 5 && c1.regs == r
                && exists|m: Interconnect| #[trigger] b0.writes(n, lo_byte(r.sp), m) && m.writes(wrap16(n + 1), hi_byte(r.sp), b1),
            Opcode::LdSpHl => same && b1 == b0 && cycles == 2 && c1.regs == r.with_reg16(Reg16::SP, r.reg16(Reg16::HL)),
            Opcode::Push(x) => same && cycles == 4 && c1.regs == r.with_reg16(Reg16::SP, wrap16(r.sp - 2))
                && pushes(b0, r.sp, r.reg16(x), b1),
            Opcode::Pop(x) => same && cycles == 3 && b1 == b0
                && c1.regs == r.with_reg16(Reg16::SP, wrap16(r.sp + 2)).with_reg16(x, top_word(b0, r.sp)),
            Opcode::Add(_) | Opcode::Adc(_) | Opcode::Sub(_) | Opcode::Sbc(_) | Opcode::And(_)
            | Opcode::Xor(_) | Opcode::Or(_) | Opcode::Cp(_) => same && b1 == b0 && cycles == cycles_spec(op, true)
                && c1.regs == alu_apply(op, r, operand_value(r, b0, alu_operand(op))),
            Opcode::Bit(n, o) => same && b1 == b0 && cycles == cycles_spec(op, true)
                && c1.regs == r.with_flags(bit_spec(n % 8, operand_value(r, b0, o), r.flags)),
            Opcode::Inc(o) | Opcode::Dec(o) | Opcode::Rlc(o) | Opcode::Rl(o) | Opcode::Rrc(o) | Opcode::Rr(o)
            | Opcode::Sla(o) | Opcode::Sra(o) | Opcode::Srl(o) | Opcode::Swap(o) | Opcode::SetBit(_, o)
            | Opcode::Res(_, o) => {
                let p = unary_result(op, operand_value(r, b0, o), r.flags);
                let flags = if op is SetBit || op is Res { r.flags } else { p.1 };
                &&& same
                &&& cycles == cycles_spec(op, true)
                &&& match o {
                    Operand8::Register(x) => c1.regs == r.with_reg8(x, p.0).with_flags(flags) && b1 == b0,
                    Operand8::Memory(m) => c1.regs == r.with_flags(flags) && b0.writes(addr_of(r, m), p.0, b1),
                    Operand8::Immediate(_) => c1.regs == r && b1 == b0,
                }
            },
            Opcode::Rlca | Opcode::Rla | Opcode::Rrca | Opcode::Rra => same && b1 == b0 && cycles == 1
                && c1.regs == acc_rotate(op, r),
            Opcode::Daa => same && b1 == b0 && cycles == 1 && c1.regs == r.with_acc(daa_spec(r.a, r.flags)),
            Opcode::Cpl => same && b1 == b0 && cycles == 1
                && c1.regs == r.with_acc((r.a ^ 0xFF, Flags { sub: true, half: true, ..r.flags })),
            Opcode::Scf => same && b1 == b0 && cycles == 1
                && c1.regs == r.with_flags(Flags { sub: false, half: false, carry: true, ..r.flags }),
            Opcode::Ccf => same && b1 == b0 && cycles == 1
                && c1.regs == r.with_flags(Flags { sub: false, half: false, carry: !r.flags.carry, ..r.flags }),
            Opcode::AddHl(x) => {
                let p = add16_spec(r.reg16(Reg16::HL), r.reg16(x), r.flags);
                same && b1 == b0 && cycles == 2 && c1.regs == r.with_reg16(Reg16::HL, p.0).with_flags(p.1)
            },
            Opcode::Inc16(x) => same && b1 == b0 && cycles == 2 && c1.regs == r.with_reg16(x, wrap16(r.reg16(x) + 1)),
            Opcode::Dec16(x) => same && b1 == b0 && cycles == 2 && c1.regs == r.with_reg16(x, wrap16(r.reg16(x) - 1)),
            Opcode::AddSp(e) => {
                let p = add_sp_spec(r.sp, e);
                same && b1 == b0 && cycles == 4 && c1.regs == r.with_reg16(Reg16::SP, p.0).with_flags(p.1)
            },
            Opcode::LdHlSp(e) => {
                let p = add_sp_spec(r.sp, e);
                same && b1 == b0 && cycles == 3 && c1.regs == r.with_reg16(Reg16::HL, p.0).with_flags(p.1)
            },
            Opcode::Jmp(f, n) => same && b1 == b0 && cycles == cycles_spec(op, cond_holds(r.flags, f))
                && c1.regs == (if cond_holds(r.flags, f) { r.with_reg16(Reg16::PC, n) } else { r }),
            Opcode::JmpHl => same && b1 == b0 && cycles == 1 && c1.regs == r.with_reg16(Reg16::PC, r.reg16(Reg16::HL)),
            Opcode::Jr(f, e) => same && b1 == b0 && cycles == cycles_spec(op, cond_holds(r.flags, f))
                && c1.regs == (if cond_holds(r.flags, f) { r.with_reg16(Reg16::PC, wrap16(r.pc + e)) } else { r }),
            Opcode::Call(f, n) => same && cycles == cycles_spec(op, cond_holds(r.flags, f)) && if cond_holds(r.flags, f) {
                c1.regs == r.with_reg16(Reg16::SP, wrap16(r.sp - 2)).with_reg16(Reg16::PC, n) && pushes(b0, r.sp, r.pc, b1)
            } else {
                c1.regs == r && b1 == b0
            },
            Opcode::Rst(n) => same && cycles == 4 && pushes(b0, r.sp, r.pc, b1)
                && c1.regs == r.with_reg16(Reg16::SP, wrap16(r.sp - 2)).with_reg16(Reg16::PC, n as u16),
            Opcode::Ret(f) => same && b1 == b0 && cycles == cycles_spec(op, cond_holds(r.flags, f)) && c1.regs == (
            if cond_holds(r.flags, f) {
                r.with_reg16(Reg16::SP, wrap16(r.sp + 2)).with_reg16(Reg16::PC, top_word(b0, r.sp))
            } else {
                r
            }),
            Opcode::Reti => c1 == (Cpu { regs: c1.regs, ime: true, ..self }) && b1 == b0 && cycles == 4
                && c1.regs == r.with_reg16(Reg16::SP, wrap16(r.sp + 2)).with_reg16(Reg16::PC, top_word(b0, r.sp)),
            Opcode::Halt => c1 == (Cpu { halted: true, ..self }) && b1 == b0 && cycles == 1,
            Opcode::Di => c1 == (Cpu { ime: false, ..self }) && b1 == b0 && cycles == 1,
            Opcode::Ei => c1 == (Cpu { ime_next_cycle: true, ..self }) && b1 == b0 && cycles == 1,
            _ => c1 == self && b1 == b0 && cycles == 1,
        }
    }
}

/// `a + d` on the 16-bit ring.
fn offset16(a: u16, d: i32) -> (r: u16)
    requires
        -65536 < d < 65536,
    ensures
        r == wrap16(a as int + d as int),
{
    let x: u32 = (a as u32) + ((d + 65536) as u32);
    let r = (x % 65536) as u16;
    proof {
        let y = a as int + d as int;
        assert(x as int == y + 65536);
        vstd::arithmetic::div_mod::lemma_mod_add_multiples_vanish(y, 65536);
        let m = y % 65536;
        assert(0 <= m < 65536);
        vstd::arithmetic::div_mod::lemma_mod_add_multiples_vanish(m, 65536);
        vstd::arithmetic::div_mod::lemma_small_mod(m as nat, 65536);
    }
    r
}

/// The only fault a memory access can give: an address that no component answers.
pub open spec fn fault_ok<T>(r: Result<T, Fault>) -> bool {
    r matches Err(e) ==> (e matches Fault::UnmappedAddress(a) && !mapped(a))
}

/// The faults an instruction can give: an unmapped access or an undefined opcode.
pub open spec fn step_fault_ok<T>(r: Result<T, Fault>) -> bool {
    r matches Err(e) ==> (e is UndefinedOpcode || (e matches Fault::UnmappedAddress(a) && !mapped(a)))
}

impl Cpu {
    pub open spec fn initial() -> Cpu {
        Cpu { regs: Regs::initial(), ime: true, ime_next_cycle: false, halted: false, stopped: false }
    }

    pub fn new() -> (r: Cpu)
        ensures
            r == Cpu::initial(),
    {
        Cpu { regs: Regs::new(), ime: true, ime_next_cycle: false, halted: false, stopped: false }
    }

    /// The processor at power-on, before the boot program: every register clear.
    pub open spec fn at_power_on() -> Cpu {
        Cpu {
            regs: Regs {
                pc: 0,
                sp: 0,
                a: 0,
                b: 0,
                c: 0,
                d: 0,
                e: 0,
                h: 0,
                l: 0,
                flags: Flags { zero: false, sub: false, half: false, carry: false },
            },
            ime: false,
            ime_next_cycle: false,
            halted: false,
            stopped: false,
        }
    }

    pub fn power_on() -> (r: Cpu)
        ensures
            r == Cpu::at_power_on(),
    {
        Cpu {
            regs: Regs {
                pc: 0,
                sp: 0,
                a: 0,
                b: 0,
                c: 0,
                d: 0,
                e: 0,
                h: 0,
                l: 0,
                flags: Flags::new(),
            },
            ime: false,
            ime_next_cycle: false,
            halted: false,
            stopped: false,
        }
    }

    pub fn current_pc(&self) -> (r: u16)
        ensures
            r == self.regs.pc,
    {
        self.regs.pc
    }

    fn addr_value(&self, m: Addr) -> (r: u16)
        ensures
            r == addr_of(self.regs, m),
    {
        match m {
            Addr::BC => self.regs.read16(Reg16::BC),
            Addr::DE => self.regs.read16(Reg16::DE),
            Addr::HL | Addr::HLD | Addr::HLI => self.regs.read16(Reg16::HL),
            Addr::FF_C => 0xFF00 + self.regs.c as u16,
            Addr::Imm(n) => n,
            Addr::FF(n) => 0xFF00 + n as u16,
        }
    }

    fn step_hl(&mut self, m: Addr)
        ensures
            *final(self) == (Cpu { regs: after_access(old(self).regs, m), ..*old(self) }),
    {
        match m {
            Addr::HLI => {
                let hl = self.regs.read16(Reg16::HL);
                self.regs.write16(offset16(hl, 1), Reg16::HL);
            },
            Addr::HLD => {
                let hl = self.regs.read16(Reg16::HL);
                self.regs.write16(offset16(hl, -1), Reg16::HL);
            },
            _ => {},
        }
    }

    fn read_operand(&self, o: Operand8, bus: &Interconnect) -> (r: Result<u8, Fault>)
        requires
            bus.wf(),
        ensures
            operand_mapped(self.regs, o) ==> r == Ok::<u8, Fault>(operand_value(self.regs, *bus, o)),
            !operand_mapped(self.regs, o) ==> r is Err,
            fault_ok(r),
    {
        match o {
            Operand8::Register(x) => Ok(self.regs.read(x)),
            Operand8::Immediate(n) => Ok(n),
            Operand8::Memory(m) => bus.read_byte(self.addr_value(m)),
        }
    }

    /// Pushes `v`: high byte at SP - 1, low byte at SP - 2.
    fn push16(&mut self, v: u16, bus: &mut Interconnect) -> (r: Result<(), Fault>)
        requires
            old(bus).wf(),
        ensures
            final(bus).wf(),
            fault_ok(r),
            stack_mapped(old(self).regs.sp, true) ==> r is Ok,
            r is Ok ==> pushes(*old(bus), old(self).regs.sp, v, *final(bus))
                && *final(self) == (Cpu { regs: old(self).regs.with_reg16(Reg16::SP, wrap16(old(self).regs.sp - 2)), ..*old(self) }),
    {
        let sp = self.regs.sp;
        let a1 = offset16(sp, -1);
        let a2 = offset16(sp, -2);
        let ghost b0 = *bus;
        match bus.write_byte(a1, (v / 256) as u8) {
            Ok(()) => {},
            Err(e) => {
                return Err(e);
            },
        }
        let ghost m = *bus;
        match bus.write_byte(a2, (v % 256) as u8) {
            Ok(()) => {},
            Err(e) => {
                return Err(e);
            },
        }
        assert(b0.writes(wrap16(sp - 1), hi_byte(v), m) && m.writes(wrap16(sp - 2), lo_byte(v), *bus));
        self.regs.sp = a2;
        Ok(())
    }

    /// Pops the word on top of the stack.
    fn pop16(&mut self, bus: &Interconnect) -> (r: Result<u16, Fault>)
        requires
            bus.wf(),
        ensures
            fault_ok(r),
            stack_mapped(old(self).regs.sp, false) ==> r is Ok,
            r is Ok ==> r == Ok::<u16, Fault>(top_word(*bus, old(self).regs.sp)),
            r is Ok ==> *final(self) == (Cpu { regs: old(self).regs.with_reg16(Reg16::SP, wrap16(old(self).regs.sp + 2)), ..*old(self) }),
    {
        let sp = self.regs.sp;
        let lo = match bus.read_byte(sp) {
            Ok(v) => v,
            Err(e) => {
                return Err(e);
            },
        };
        let hi = match bus.read_byte(offset16(sp, 1)) {
            Ok(v) => v,
            Err(e) => {
                return Err(e);
            },
        };
        self.regs.sp = offset16(sp, 2);
        Ok((hi as u16) * 256 + (lo as u16))
    }
}

impl Cpu {
    #[verifier::rlimit(50)]
    fn exec_ld(&mut self, op: Opcode, bus: &mut Interconnect) -> (r: Result<usize, Fault>)
        requires
            old(bus).wf(),
            op is Ld,
        ensures
            final(bus).wf(),
            fault_ok(r),
            old(self).accesses_mapped(op) ==> r is Ok,
            r matches Ok(c) ==> old(self).executes(*old(bus), op, *final(self), *final(bus), c) && c <= 7,
    {
        proof {
            reveal(Cpu::executes);
        }
        let cycles = Instruction::new(op).cycles(true);
        if let Opcode::Ld(d, src) = op {
            let v = match self.read_operand(src, bus) {
                Ok(v) => v,
                Err(e) => {
                    return Err(e);
                },
            };
            if let Operand8::Memory(m) = src {
                self.step_hl(m);
            }
            match d {
                Operand8::Register(x) => self.regs.write(v, x),
                Operand8::Memory(m) => {
                    let a = self.addr_value(m);
                    match bus.write_byte(a, v) {
                        Ok(()) => {},
                        Err(e) => {
                            return Err(e);
                        },
                    }
                    self.step_hl(m);
                },
                Operand8::Immediate(_) => {},
            }
        }
        Ok(cycles)
    }

    #[verifier::rlimit(50)]
    fn exec_alu(&mut self, op: Opcode, bus: &mut Interconnect) -> (r: Result<usize, Fault>)
        requires
            old(bus).wf(),
            is_alu(op),
        ensures
            final(bus).wf(),
            fault_ok(r),
            old(self).accesses_mapped(op) ==> r is Ok,
            r matches Ok(c) ==> old(self).executes(*old(bus), op, *final(self), *final(bus), c) && c <= 7,
    {
        proof {
            reveal(Cpu::executes);
        }
        let cycles = Instruction::new(op).cycles(true);
        let o = match op {
            Opcode::Add(o) | Opcode::Adc(o) | Opcode::Sub(o) | Opcode::Sbc(o) | Opcode::And(o)
            | Opcode::Xor(o) | Opcode::Or(o) | Opcode::Cp(o) => o,
            _ => Operand8::Immediate(0),
        };
        let v = match self.read_operand(o, bus) {
            Ok(v) => v,
            Err(e) => {
                return Err(e);
            },
        };
        match op {
            Opcode::Add(_) => self.regs.addi(v, false),
            Opcode::Adc(_) => self.regs.addi(v, true),
            Opcode::Sub(_) => self.regs.subi(v),
            Opcode::Sbc(_) => self.regs.sbci(v, true),
            Opcode::And(_) => self.regs.andi(v),
            Opcode::Xor(_) => self.regs.xori(v),
            Opcode::Or(_) => self.regs.ori(v),
            _ => self.regs.cpi(v),
        }
        Ok(cycles)
    }

    #[verifier::rlimit(80)]
    fn exec_unary(&mut self, op: Opcode, bus: &mut Interconnect) -> (r: Result<usize, Fault>)
        requires
            old(bus).wf(),
            is_unary(op) || op is Bit,
        ensures
            final(bus).wf(),
            fault_ok(r),
            old(self).accesses_mapped(op) ==> r is Ok,
            r matches Ok(c) ==> old(self).executes(*old(bus), op, *final(self), *final(bus), c) && c <= 7,
    {
        proof {
            reveal(Cpu::executes);
        }
        let cycles = Instruction::new(op).cycles(true);
        let o = match op {
            Opcode::Inc(o) | Opcode::Dec(o) | Opcode::Rlc(o) | Opcode::Rl(o) | Opcode::Rrc(o) | Opcode::Rr(o)
            | Opcode::Sla(o) | Opcode::Sra(o) | Opcode::Srl(o) | Opcode::Swap(o) | Opcode::SetBit(_, o)
            | Opcode::Res(_, o) | Opcode::Bit(_, o) => o,
            _ => Operand8::Immediate(0),
        };
        let v = match self.read_operand(o, bus) {
            Ok(v) => v,
            Err(e) => {
                return Err(e);
            },
        };
        let f = self.regs.flags;
        if let Opcode::Bit(n, _) = op {
            self.regs.flags = crate::alu::bit(n % 8, v, f);
            return Ok(cycles);
        }
        let p: (u8, Flags) = match op {
            Opcode::Inc(_) => inc8(v, f),
            Opcode::Dec(_) => dec8(v, f),
            Opcode::Rlc(_) => rlc(v),
            Opcode::Rl(_) => rl(v, f),
            Opcode::Rrc(_) => rrc(v),
            Opcode::Rr(_) => rr(v, f),
            Opcode::Sla(_) => sla(v),
            Opcode::Sra(_) => sra(v),
            Opcode::Srl(_) => srl(v),
            Opcode::Swap(_) => swap(v),
            Opcode::SetBit(n, _) => (set_bit(n % 8, v), f),
            Opcode::Res(n, _) => (res_bit(n % 8, v), f),
            _ => (v, f),
        };
        match o {
            Operand8::Register(x) => self.regs.write(p.0, x),
            Operand8::Memory(m) => {
                let a = self.addr_value(m);
                match bus.write_byte(a, p.0) {
                    Ok(()) => {},
                    Err(e) => {
                        return Err(e);
                    },
                }
            },
            Operand8::Immediate(_) => {
                return Ok(cycles);
            },
        }
        self.regs.flags = p.1;
        Ok(cycles)
    }

    #[verifier::rlimit(80)]
    fn exec_registers(&mut self, op: Opcode) -> (r: usize)
        requires
            !(op is Ld || is_alu(op) || is_unary(op) || op is Bit || op is LdnnSp || op is Push || op is Pop
                || op is Call || op is Rst || op is Ret || op is Reti || op is Undefined),
        ensures
            forall|b: Interconnect| old(self).executes(b, op, *final(self), b, r),
            r <= 7,
    {
        proof {
            reveal(Cpu::executes);
        }
        let f = self.regs.flags;
        match op {
            Opcode::Ld16(x, n) => self.regs.write16(n, x),
            Opcode::LdSpHl => {
                let hl = self.regs.read16(Reg16::HL);
                self.regs.write16(hl, Reg16::SP);
            },
            Opcode::Rlca | Opcode::Rla | Opcode::Rrca | Opcode::Rra => {
                let a = self.regs.a;
                let p = match op {
                    Opcode::Rlca => rlc(a),
                    Opcode::Rla => rl(a, f),
                    Opcode::Rrca => rrc(a),
                    _ => rr(a, f),
                };
                self.regs.a = p.0;
                self.regs.flags = Flags { zero: false, ..p.1 };
            },
            Opcode::Daa => {
                let p = daa(self.regs.a, f);
                self.regs.a = p.0;
                self.regs.flags = p.1;
            },
            Opcode::Cpl => self.regs.cpl(),
            Opcode::Scf => self.regs.flags = Flags { sub: false, half: false, carry: true, ..f },
            Opcode::Ccf => self.regs.flags = Flags { sub: false, half: false, carry: !f.carry, ..f },
            Opcode::AddHl(x) => self.regs.add_to_HL(x),
            Opcode::Inc16(x) => {
                let v = self.regs.read16(x);
                self.regs.write16(offset16(v, 1), x);
            },
            Opcode::Dec16(x) => {
                let v = self.regs.read16(x);
                self.regs.write16(offset16(v, -1), x);
            },
            Opcode::AddSp(e) => {
                let p = add_sp(self.regs.sp, e);
                self.regs.write16(p.0, Reg16::SP);
                self.regs.flags = p.1;
            },
            Opcode::LdHlSp(e) => {
                let p = add_sp(self.regs.sp, e);
                self.regs.write16(p.0, Reg16::HL);
                self.regs.flags = p.1;
            },
            Opcode::Jmp(c, n) => {
                if self.regs.jump_match(c) {
                    self.regs.pc = n;
                    return Instruction::new(op).cycles(true);
                }
                return Instruction::new(op).cycles(false);
            },
            Opcode::JmpHl => {
                self.regs.pc = self.regs.read16(Reg16::HL);
            },
            Opcode::Jr(c, e) => {
                if self.regs.jump_match(c) {
                    self.regs.pc = offset16(self.regs.pc, e as i32);
                    return Instruction::new(op).cycles(true);
                }
                return Instruction::new(op).cycles(false);
            },
            Opcode::Halt => self.halted = true,
            Opcode::Di => self.ime = false,
            Opcode::Ei => self.ime_next_cycle = true,
            _ => {},
        }
        Instruction::new(op).cycles(true)
    }

    #[verifier::rlimit(80)]
    fn exec_stack(&mut self, op: Opcode, bus: &mut Interconnect) -> (r: Result<usize, Fault>)
        requires
            old(bus).wf(),
            op is LdnnSp || op is Push || op is Pop || op is Call || op is Rst || op is Ret || op is Reti,
        ensures
            final(bus).wf(),
            fault_ok(r),
            old(self).accesses_mapped(op) ==> r is Ok,
            r matches Ok(c) ==> old(self).executes(*old(bus), op, *final(self), *final(bus), c) && c <= 7,
    {
        proof {
            reveal(Cpu::executes);
        }
        match op {
            Opcode::LdnnSp(n) => {
                let sp = self.regs.sp;
                let ghost b0 = *bus;
                match bus.write_byte(n, (sp % 256) as u8) {
                    Ok(()) => {},
                    Err(e) => {
                        return Err(e);
                    },
                }
                let ghost m = *bus;
                match bus.write_byte(offset16(n, 1), (sp / 256) as u8) {
                    Ok(()) => {},
                    Err(e) => {
                        return Err(e);
                    },
                }
                assert(b0.writes(n, lo_byte(sp), m) && m.writes(wrap16(n + 1), hi_byte(sp), *bus));
                Ok(5)
            },
            Opcode::Push(x) => {
                let v = self.regs.read16(x);
                match self.push16(v, bus) {
                    Ok(()) => Ok(4),
                    Err(e) => Err(e),
                }
            },
            Opcode::Pop(x) => {
                let v = match self.pop16(bus) {
                    Ok(v) => v,
                    Err(e) => {
                        return Err(e);
                    },
                };
                self.regs.write16(v, x);
                Ok(3)
            },
            Opcode::Call(c, n) => {
                if !self.regs.jump_match(c) {
                    return Ok(Instruction::new(op).cycles(false));
                }
                let pc = self.regs.pc;
                match self.push16(pc, bus) {
                    Ok(()) => {},
                    Err(e) => {
                        return Err(e);
                    },
                }
                self.regs.pc = n;
                Ok(Instruction::new(op).cycles(true))
            },
            Opcode::Rst(n) => {
                let pc = self.regs.pc;
                match self.push16(pc, bus) {
                    Ok(()) => {},
                    Err(e) => {
                        return Err(e);
                    },
                }
                self.regs.pc = n as u16;
                Ok(4)
            },
            Opcode::Ret(c) => {
                if !self.regs.jump_match(c) {
                    return Ok(Instruction::new(op).cycles(false));
                }
                let v = match self.pop16(bus) {
                    Ok(v) => v,
                    Err(e) => {
                        return Err(e);
                    },
                };
                self.regs.pc = v;
                Ok(Instruction::new(op).cycles(true))
            },
            _ => {
                let v = match self.pop16(bus) {
                    Ok(v) => v,
                    Err(e) => {
                        return Err(e);
                    },
                };
                self.regs.pc = v;
                self.ime = true;
                Ok(4)
            },
        }
    }
}

impl Cpu {
    /// Executes one decoded instruction; the program counter already points past it.
    pub fn execute(&mut self, op: Opcode, bus: &mut Interconnect) -> (r: Result<usize, Fault>)
        requires
            old(bus).wf(),
        ensures
            final(bus).wf(),
            op matches Opcode::Undefined(b) ==> r == Err::<usize, Fault>(Fault::UndefinedOpcode(old(self).regs.pc, b))
                && *final(self) == *old(self) && *final(bus) == *old(bus),
            !(op is Undefined) ==> fault_ok(r),
            !(op is Undefined) && old(self).accesses_mapped(op) ==> r is Ok,
            r matches Ok(c) ==> old(self).executes(*old(bus), op, *final(self), *final(bus), c) && c <= 7,
    {
        match op {
            Opcode::Undefined(b) => Err(Fault::UndefinedOpcode(self.regs.pc, b)),
            Opcode::Ld(_, _) => self.exec_ld(op, bus),
            Opcode::Add(_) | Opcode::Adc(_) | Opcode::Sub(_) | Opcode::Sbc(_) | Opcode::And(_)
            | Opcode::Xor(_) | Opcode::Or(_) | Opcode::Cp(_) => self.exec_alu(op, bus),
            Opcode::Inc(_) | Opcode::Dec(_) | Opcode::Rlc(_) | Opcode::Rl(_) | Opcode::Rrc(_) | Opcode::Rr(_)
            | Opcode::Sla(_) | Opcode::Sra(_) | Opcode::Srl(_) | Opcode::Swap(_) | Opcode::SetBit(_, _)
            | Opcode::Res(_, _) | Opcode::Bit(_, _) => self.exec_unary(op, bus),
            Opcode::LdnnSp(_) | Opcode::Push(_) | Opcode::Pop(_) | Opcode::Call(_, _) | Opcode::Rst(_)
            | Opcode::Ret(_) | Opcode::Reti => self.exec_stack(op, bus),
            _ => Ok(self.exec_registers(op)),
        }
    }

    /// What `step` does, from `self` and `b0` to `c1` and `b1`, with result `r`.
    pub open spec fn step_rel(self, b0: Interconnect, c1: Cpu, b1: Interconnect, r: Result<usize, Fault>) -> bool {
        if self.halted || self.stopped {
            r == Ok::<usize, Fault>(1) && c1 == self && b1 == b0
        } else {
            let c0 = if self.ime_next_cycle { Cpu { ime: true, ime_next_cycle: false, ..self } } else { self };
            let pc = c0.regs.pc;
            let first = b0.read_spec(pc);
            let n = b0.read_spec(wrap16(pc + 1));
            let nn = word(b0.read_spec(wrap16(pc + 2)), n);
            let len = length_spec(decode_spec(first, 0, 0));
            let op = decode_spec(first, if len >= 2 { n } else { 0 }, if len >= 3 { nn } else { 0 });
            let fetched = mapped(pc) && (len >= 2 ==> mapped(wrap16(pc + 1))) && (len >= 3 ==> mapped(wrap16(pc + 2)));
            let next = Cpu { regs: c0.regs.with_reg16(Reg16::PC, wrap16(pc + length_spec(op))), ..c0 };
            &&& step_fault_ok(r)
            &&& (r matches Err(e) && !(e is UndefinedOpcode) ==> !fetched || !next.accesses_mapped(op))
            &&& (fetched ==> match op {
                Opcode::Undefined(b) => r == Err::<usize, Fault>(Fault::UndefinedOpcode(pc, b)),
                _ => next.accesses_mapped(op) ==> r is Ok,
            })
            &&& (r matches Ok(c) ==> fetched && !(op is Undefined) && next.executes(b0, op, c1, b1, c) && c <= 7)
        }
    }

    /// Fetches, decodes and executes one instruction and returns its machine cycles; a halted
    /// processor takes one cycle and does nothing. A pending enable from EI takes effect first.
    pub fn step(&mut self, bus: &mut Interconnect) -> (r: Result<usize, Fault>)
        requires
            old(bus).wf(),
        ensures
            final(bus).wf(),
            old(self).step_rel(*old(bus), *final(self), *final(bus), r),
    {
        if self.halted || self.stopped {
            return Ok(1);
        }
        if self.ime_next_cycle {
            self.ime_next_cycle = false;
            self.ime = true;
        }
        let pc = self.regs.pc;
        let b0 = match bus.read_byte(pc) {
            Ok(v) => v,
            Err(e) => {
                return Err(e);
            },
        };
        let len = Instruction::new(decode(b0, 0, 0)).bytes();
        let n: u8 = if len >= 2 {
            match bus.read_byte(offset16(pc, 1)) {
                Ok(v) => v,
                Err(e) => {
                    return Err(e);
                },
            }
        } else {
            0
        };
        let nn: u16 = if len >= 3 {
            match bus.read_byte(offset16(pc, 2)) {
                Ok(v) => (v as u16) * 256 + (n as u16),
                Err(e) => {
                    return Err(e);
                },
            }
        } else {
            0
        };
        let op = decode(b0, n, nn);
        if let Opcode::Undefined(b) = op {
            return Err(Fault::UndefinedOpcode(pc, b));
        }
        let l = Instruction::new(op).bytes();
        self.regs.pc = offset16(pc, l as i32);
        self.execute(op, bus)
    }

    /// Services an interrupt: clears the master enable, pushes the program counter and
    /// jumps to `addr`.
    pub fn interrupt(&mut self, addr: u16, bus: &mut Interconnect) -> (r: Result<usize, Fault>)
        requires
            old(bus).wf(),
        ensures
            final(bus).wf(),
            fault_ok(r),
            stack_mapped(old(self).regs.sp, true) ==> r is Ok,
            r is Ok ==> r == Ok::<usize, Fault>(4),
            r is Err ==> !stack_mapped(old(self).regs.sp, true),
            r is Ok ==> pushes(*old(bus), old(self).regs.sp, old(self).regs.pc, *final(bus)) && *final(self) == (Cpu {
                ime: false,
                regs: old(self).regs.with_reg16(Reg16::SP, wrap16(old(self).regs.sp - 2)).with_reg16(Reg16::PC, addr),
                ..*old(self)
            }),
    {
        self.ime = false;
        let pc = self.regs.pc;
        match self.push16(pc, bus) {
            Ok(()) => {},
            Err(e) => {
                return Err(e);
            },
        }
        self.regs.pc = addr;
        Ok(4)
    }
}

/// Pushing a word onto a stack in work RAM and reading the top of the stack back gives the
/// same word; with the register-pair round trip this restores every pair, AF included.
pub proof fn lemma_push_pop(b0: Interconnect, sp: u16, v: u16, b1: Interconnect)
    requires
        b0.wf(),
        0xC002 <= sp <= 0xE000,
        pushes(b0, sp, v, b1),
    ensures
        top_word(b1, wrap16(sp - 2)) == v,
{
    reveal(Interconnect::writes_mem);
    let m = choose|m: Interconnect| #[trigger] b0.writes(wrap16(sp - 1), hi_byte(v), m) && m.writes(wrap16(sp - 2), lo_byte(v), b1);
    assert(wrap16(sp - 1) == sp - 1);
    assert(wrap16(sp - 2) == sp - 2);
    assert(wrap16(wrap16(sp - 2) + 1) == sp - 1);
    assert(map_spec((sp - 1) as u16) == Region::Ram((sp - 1 - 0xC000) as usize));
    assert(map_spec((sp - 2) as u16) == Region::Ram((sp - 2 - 0xC000) as usize));
    assert(m.ram@[sp - 1 - 0xC000] == hi_byte(v));
    assert(b1.ram@[sp - 1 - 0xC000] == hi_byte(v));
    assert(b1.ram@[sp - 2 - 0xC000] == lo_byte(v));
}

} // verus!
