use vstd::prelude::*;

use crate::cart::HEADER_END;
use crate::cart::Header;
use crate::color::Color;
use crate::cpu::{Cpu, fault_ok, pushes, stack_mapped, wrap16};
use crate::interconnect::IoRegs;
use crate::regs::Reg16;
use crate::fault::Fault;
use crate::interconnect::Interconnect;

verus! {

/// The lowest-numbered interrupt that is both flagged and enabled: v-blank (0) first, then
/// LCD status, timer, serial and joypad (4).
pub open spec fn pending_spec(iflags: u8, ie: u8) -> Option<u8> {
    let p = iflags & ie & 0x1F;
    if p & 0x01 != 0 {
        Some(0u8)
    } else if p & 0x02 != 0 {
        Some(1u8)
    } else if p & 0x04 != 0 {
        Some(2u8)
    } else if p & 0x08 != 0 {
        Some(3u8)
    } else if p & 0x10 != 0 {
        Some(4u8)
    } else {
        None
    }
}

pub fn pending_interrupt(iflags: u8, ie: u8) -> (r: Option<u8>)
    ensures
        r == pending_spec(iflags, ie),
        r matches Some(b) ==> b < 5,
{
    let p = iflags & ie & 0x1F;
    if p & 0x01 != 0 {
        Some(0)
    } else if p & 0x02 != 0 {
        Some(1)
    } else if p & 0x04 != 0 {
        Some(2)
    } else if p & 0x08 != 0 {
        Some(3)
    } else if p & 0x10 != 0 {
        Some(4)
    } else {
        None
    }
}

/// The fixed address each interrupt source jumps to.
pub fn interrupt_vector(bit: u8) -> (r: u16)
    requires
        bit < 5,
    ensures
        r == 0x40 + 8 * bit,
{
    0x40 + 8 * (bit as u16)
}

/// The whole console: processor and bus.
#[derive(Debug)]
pub struct Dmg {
    pub cpu: Cpu,
    pub interconnect: Interconnect,
}

impl Dmg {
    pub open spec fn wf(self) -> bool {
        self.interconnect.wf()
    }

    pub fn new(boot: Vec<u8>, rom: Vec<u8>) -> (r: Result<Dmg, Fault>)
        requires
            rom@.len() >= HEADER_END,
        ensures
            Header::parses(rom@) <==> r is Ok,
            r matches Ok(d) ==> d.wf() && d.interconnect.in_bootrom == (boot@.len() >= 0x100) && d.cpu == (if boot@.len()
                >= 0x100 {
                Cpu::at_power_on()
            } else {
                Cpu::initial()
            }),
    {
        let interconnect = match Interconnect::new(boot, rom) {
            Ok(ic) => ic,
            Err(e) => {
                return Err(e);
            },
        };
        let cpu = if interconnect.in_bootrom { Cpu::power_on() } else { Cpu::new() };
        Ok(Dmg { cpu, interconnect })
    }

    pub fn cpu(&self) -> (r: &Cpu)
        ensures
            *r == self.cpu,
    {
        &self.cpu
    }

    pub fn interconnect(&self) -> (r: &Interconnect)
        ensures
            *r == self.interconnect,
    {
        &self.interconnect
    }

    pub fn framebuffer(&self) -> (r: &[Color])
        ensures
            r@ == self.interconnect.ppu.fb@,
    {
        self.interconnect.framebuffer()
    }

    /// Takes the byte last written to the serial port, if one is waiting.
    pub fn take_serial(&mut self) -> (r: Option<u8>)
        requires
            old(self).wf(),
        ensures
            final(self).wf(),
            r == (if old(self).interconnect.io.serial_written { Some(old(self).interconnect.io.serial_byte) } else { None::<u8> }),
    {
        self.interconnect.take_serial()
    }

    /// What `proc_interrupts` does, from `self` to `post`, with result `r`: the first source
    /// both flagged and enabled has its flag cleared and the processor un-halted; only with
    /// the master enable set is it serviced (return address pushed, vector called).
    pub open spec fn serviced(self, post: Dmg, r: Result<usize, Fault>) -> bool {
        let ic = self.interconnect;
        match pending_spec(ic.io.iflags, ic.io.ie_reg) {
            None => r == Ok::<usize, Fault>(0) && post.cpu == self.cpu && post.interconnect == ic,
            Some(b) => {
                let cleared = Interconnect { io: IoRegs { iflags: ic.io.iflags & !(1u8 << b), ..ic.io }, ..ic };
                if !self.cpu.ime {
                    &&& r == Ok::<usize, Fault>(0)
                    &&& post.cpu == (Cpu { halted: false, ..self.cpu })
                    &&& post.interconnect == cleared
                } else {
                    &&& fault_ok(r)
                    &&& (stack_mapped(self.cpu.regs.sp, true) ==> r is Ok)
                    &&& (r is Ok ==> {
                        &&& r == Ok::<usize, Fault>(4)
                        &&& pushes(cleared, self.cpu.regs.sp, self.cpu.regs.pc, post.interconnect)
                        &&& post.cpu == (Cpu {
                            ime: false,
                            halted: false,
                            regs: self.cpu.regs.with_reg16(Reg16::SP, wrap16(self.cpu.regs.sp - 2)).with_reg16(
                                Reg16::PC,
                                (0x40 + 8 * b) as u16,
                            ),
                            ..self.cpu
                        })
                    })
                }
            },
        }
    }

    /// Resolves the highest-priority pending interrupt. Returns the cycles spent.
    pub fn proc_interrupts(&mut self) -> (r: Result<usize, Fault>)
        requires
            old(self).wf(),
        ensures
            final(self).wf(),
            old(self).serviced(*final(self), r),
    {
        let iflags = self.interconnect.io.iflags;
        let ie = self.interconnect.io.ie_reg;
        match pending_interrupt(iflags, ie) {
            None => Ok(0),
            Some(bit) => {
                self.cpu.halted = false;
                self.interconnect.io.iflags = iflags & !(1u8 << bit);
                if !self.cpu.ime {
                    return Ok(0);
                }
                self.cpu.interrupt(interrupt_vector(bit), &mut self.interconnect)
            },
        }
    }

    /// What `step` does, from `self` to `post`, with result `r`: the interrupt service, then one
    /// instruction, then the timer and pixel unit advanced by four clocks per machine cycle
    /// spent in both.
    pub open spec fn step_rel(self, post: Dmg, r: Result<usize, Fault>) -> bool {
        exists|d1: Dmg, r1: Result<usize, Fault>| #[trigger] self.serviced(d1, r1) && match r1 {
            Err(e) => r == Err::<usize, Fault>(e),
            Ok(k) => exists|c2: Cpu, b2: Interconnect, r2: Result<usize, Fault>| #[trigger] d1.cpu.step_rel(
                d1.interconnect,
                c2,
                b2,
                r2,
            ) && match r2 {
                Err(e) => r == Err::<usize, Fault>(e),
                Ok(c) => r == Ok::<usize, Fault>((k + c) as usize) && post.cpu == c2 && b2.stepped((4 * (k + c)) as nat, post.interconnect),
            },
        }
    }

    /// One step of the whole console. Returns the machine cycles spent.
    pub fn step(&mut self) -> (r: Result<usize, Fault>)
        requires
            old(self).wf(),
        ensures
            final(self).wf(),
            old(self).step_rel(*final(self), r),
    {
        let r1 = self.proc_interrupts();
        let ghost d1 = Dmg { cpu: self.cpu, interconnect: self.interconnect };
        let k = match r1 {
            Ok(k) => k,
            Err(e) => {
                assert(old(self).serviced(d1, r1));
                return Err(e);
            },
        };
        let r2 = self.cpu.step(&mut self.interconnect);
        let ghost c2 = self.cpu;
        let ghost b2 = self.interconnect;
        assert(d1.cpu.step_rel(d1.interconnect, c2, b2, r2));
        let c = match r2 {
            Ok(c) => c,
            Err(e) => {
                assert(old(self).serviced(d1, r1));
                return Err(e);
            },
        };
        let total = k + c;
        self.interconnect.step(4 * total);
        assert(old(self).serviced(d1, r1));
        Ok(total)
    }
}

} // verus!
