use vstd::prelude::*;

use crate::apu::Apu;
use crate::cart::{Cart, HEADER_END, Header};
use crate::color::Color;
use crate::fault::Fault;
use crate::mem_map::{Addr, map_addr, map_spec, offset_ok};
use crate::ppu::{Mode, Ppu, Palette, OAM_SIZE, stored_byte, lemma_written_byte, lemma_other_byte_kept};
use crate::timer::Timer;

verus! {

pub const RAM_SIZE: usize = 0x2000;
pub const HRAM_SIZE: usize = 0x7F;
pub const BOOT_SIZE: usize = 0x100;

/// Interrupt-flag bits.
pub const INT_VBLANK: u8 = 0x01;
pub const INT_STAT: u8 = 0x02;
pub const INT_TIMER: u8 = 0x04;

/// The memory bus: it owns work RAM, high RAM and every unit, and sends each access to the
/// owner of the address.
#[derive(Debug)]
pub struct Interconnect {
    pub ppu: Ppu,
    pub apu: Apu,
    pub timer: Timer,
    pub in_bootrom: bool,
    pub boot: Vec<u8>,
    pub cart: Cart,
    pub ram: Vec<u8>,
    pub hram: Vec<u8>,
    pub io: IoRegs,
}

/// The bus's own registers.
#[derive(Clone, Copy, PartialEq, Eq, Structural, Debug)]
pub struct IoRegs {
    pub cgb_ram_bank: u8,
    pub serial_byte: u8,
    /// Set by a write of the serial data register, for the host to pick up.
    pub serial_written: bool,
    pub serial_transfer_start: bool,
    pub serial_clock_fast: bool,
    pub serial_shift_internal: bool,
    pub iflags: u8,
    pub dma_addr: u8,
    pub ie_reg: u8,
}

impl Interconnect {
    pub open spec fn wf(self) -> bool {
        &&& self.ppu.wf()
        &&& self.apu.wave_ok()
        &&& self.ram@.len() == RAM_SIZE
        &&& self.hram@.len() == HRAM_SIZE
        &&& (self.in_bootrom ==> self.boot@.len() >= BOOT_SIZE)
    }

    /// `self` and `o` agree on every part whose flag is false.
    pub open spec fn same_but(self, o: Interconnect, ppu: bool, apu: bool, timer: bool, cart: bool, mem: bool, io: bool) -> bool {
        &&& (ppu || self.ppu == o.ppu)
        &&& (apu || self.apu == o.apu)
        &&& (timer || self.timer == o.timer)
        &&& (cart || self.cart == o.cart)
        &&& (mem || (self.ram == o.ram && self.hram == o.hram))
        &&& (io || (self.io == o.io && self.in_bootrom == o.in_bootrom))
        &&& self.boot == o.boot
    }

    pub open spec fn serial_control(self) -> u8 {
        (if self.io.serial_transfer_start { 0x80u8 } else { 0u8 }) | (if self.io.serial_clock_fast { 0x02u8 } else { 0u8 })
            | (if self.io.serial_shift_internal { 0x01u8 } else { 0u8 })
    }

    /// What a read of `addr` gives; unmapped addresses give open bus here, and the read
    /// itself fails on them.
    pub open spec fn read_spec(self, addr: u16) -> u8 {
        match map_spec(addr) {
            Addr::Rom(o) => if self.in_bootrom && o < BOOT_SIZE { self.boot@[o as int] } else { self.cart.rom_byte(o as int) },
            Addr::Vram(o) => self.ppu.vram_byte(o as int),
            Addr::Xram(o) => self.cart.ram_byte(o as int),
            Addr::Ram(o) => self.ram@[o as int],
            Addr::Echo(o) => self.ram@[o as int],
            Addr::Oam(o) => self.ppu.oam_read(o as int),
            Addr::Hram(o) => self.hram@[o as int],
            Addr::SerialData => self.io.serial_byte,
            Addr::SerialControl => self.serial_control(),
            Addr::TimerDivReg => (self.timer.divider_reg / 256) as u8,
            Addr::TimerCounter => self.timer.counter,
            Addr::TimerModulo => self.timer.modulo,
            Addr::TimerControl => self.timer.timer_control(),
            Addr::InterruptFlags => self.io.iflags,
            Addr::ApuChan1Sweep => self.apu.chan1_sweep_reg(),
            Addr::ApuChan1WaveLength => self.apu.chan1_wavelength_reg(),
            Addr::ApuChan1Envelope => self.apu.chan1_envelope_reg(),
            Addr::ApuChan1FreqHi => self.apu.chan1_freq_hi_reg(),
            Addr::ApuChan2WaveLength => self.apu.chan2_wavelength_reg(),
            Addr::ApuChan2Envelope => self.apu.chan2_envelope_reg(),
            Addr::ApuChan2FreqHi => self.apu.chan2_freq_hi_reg(),
            Addr::ApuChan3Enable => self.apu.chan3_enable_reg(),
            Addr::ApuChan3Length => self.apu.chan3_length_reg(),
            Addr::ApuChan3Volume => self.apu.chan3_volume_reg(),
            Addr::ApuChan3FreqHi => self.apu.chan3_freq_hi_reg(),
            Addr::ApuWaveRam(o) => self.apu.wave_pattern_ram@[o as int],
            Addr::ApuChan4Length => self.apu.chan4_length_reg(),
            Addr::ApuChan4Envelope => self.apu.chan4_envelope_reg(),
            Addr::ApuChan4PolyCounter => self.apu.chan4_polycounter_reg(),
            Addr::ApuChan4CounterConsec => self.apu.chan4_counter_consec_reg(),
            Addr::ApuChanControl => self.apu.chan_control_reg(),
            Addr::ApuOutputSelect => self.apu.output_select,
            Addr::ApuSoundOnReg => self.apu.sound_on_reg_reg(),
            Addr::PpuControlReg => self.ppu.lcd_ctrl(),
            Addr::PpuStatusReg => self.ppu.lcd_stat(),
            Addr::PpuScrollY => self.ppu.scy,
            Addr::PpuScrollX => self.ppu.scx,
            Addr::PpuLcdY => self.ppu.line,
            Addr::PpuLcdYCompare => self.ppu.lyc,
            Addr::PpuOamDma => self.io.dma_addr,
            Addr::PpuWindowY => self.ppu.wy,
            Addr::PpuWindowX => self.ppu.wx,
            Addr::CgbSpeedSwitch => 0,
            Addr::PpuDestVramBank => 0,
            Addr::BootromDisable => if self.in_bootrom { 1 } else { 0 },
            Addr::CgbRamBank => self.io.cgb_ram_bank & 0x07,
            Addr::InterruptsEnable => self.io.ie_reg,
            _ => 0xFF,
        }
    }

    /// The byte block transfer copies from `a`: sources from 0xE000 up read work RAM.
    #[verifier::opaque]
    pub open spec fn dma_source(self, a: int) -> u8 {
        let s = if a >= 0xE000 { a - 0x2000 } else { a };
        if s < 0x8000 {
            if self.in_bootrom && s < BOOT_SIZE { self.boot@[s] } else { self.cart.rom_byte(s) }
        } else if s < 0xA000 {
            self.ppu.vram@[s - 0x8000]
        } else if s < 0xC000 {
            self.cart.ram_byte(s - 0xA000)
        } else {
            self.ram@[s - 0xC000]
        }
    }

    /// The effect of a block transfer from page `v`: sprite memory holds the 160 source
    /// bytes, and nothing else changes but the transfer register.
    pub open spec fn dma_done(self, v: u8, post: Interconnect) -> bool {
        &&& post.same_but(self, true, false, false, false, false, true)
        &&& post.in_bootrom == self.in_bootrom
        &&& post.io == (IoRegs { dma_addr: v, ..self.io })
        &&& post.ppu.same_setup_but_oam(self.ppu)
        &&& post.ppu.wf()
        &&& forall|k: int| 0 <= k < OAM_SIZE ==> #[trigger] post.ppu.oam_byte(k) == stored_byte(k, self.dma_source(v as int * 256 + k))
    }

    /// What a write into a memory region does.
    #[verifier::opaque]
    pub open spec fn writes_mem(self, a: Addr, v: u8, post: Interconnect) -> bool {
        match a {
            Addr::Rom(o) => post.same_but(self, false, false, false, true, false, false) && post.cart == self.cart.after_mbc_write(o as int, v),
            Addr::Vram(o) => post.same_but(self, true, false, false, false, false, false) && post.ppu == (Ppu { vram: post.ppu.vram, ..self.ppu })
                && post.ppu.vram@ == (if self.ppu.mode == Mode::Vram { self.ppu.vram@ } else { self.ppu.vram@.update(o as int, v) }),
            Addr::Xram(o) => post.same_but(self, false, false, false, true, false, false) && post.cart == (Cart { ram: post.cart.ram, ..self.cart })
                && post.cart.ram@ == (if self.cart.ram_timer_enable && self.cart.ram_phys(o as int) < self.cart.ram@.len() {
                    self.cart.ram@.update(self.cart.ram_phys(o as int), v) } else { self.cart.ram@ }),
            Addr::Ram(o) => post.same_but(self, false, false, false, false, true, false) && post.hram == self.hram && post.ram@ == self.ram@.update(o as int, v),
            Addr::Echo(o) => post.same_but(self, false, false, false, false, true, false) && post.hram == self.hram && post.ram@ == self.ram@.update(o as int, v),
            Addr::Oam(o) => post.same_but(self, true, false, false, false, false, false) && post.ppu == (Ppu { oam: post.ppu.oam, ..self.ppu })
                && post.ppu.oam@ == (if self.ppu.mode == Mode::Vram || self.ppu.mode == Mode::Oam { self.ppu.oam@ } else {
                    crate::ppu::oam_written(self.ppu.oam@, o as int, v) }),
            Addr::Hram(o) => post.same_but(self, false, false, false, false, true, false) && post.ram == self.ram && post.hram@ == self.hram@.update(o as int, v),
            _ => post == self,
        }
    }

    /// What a write of a timer register does.
    #[verifier::opaque]
    pub open spec fn writes_timer(self, a: Addr, v: u8, post: Interconnect) -> bool {
        match a {
            Addr::TimerDivReg => {
                let t = self.timer.after_div_write();
                post.same_but(self, false, false, true, false, false, true) && post.timer == t.0 && post.in_bootrom == self.in_bootrom
                    && post.io == (IoRegs { iflags: if t.1 { self.io.iflags | INT_TIMER } else { self.io.iflags }, ..self.io })
            },
            Addr::TimerCounter => post.same_but(self, false, false, true, false, false, false) && post.timer == (Timer { counter: v, ..self.timer }),
            Addr::TimerModulo => post.same_but(self, false, false, true, false, false, false) && post.timer == (Timer { modulo: v, ..self.timer }),
            _ => post.same_but(self, false, false, true, false, false, false)
                && post.timer == (Timer { enabled: v & 0x04 != 0, input_clock: crate::timer::clock_of(v), ..self.timer }),
        }
    }

    /// What a write of a sound register does.
    #[verifier::opaque]
    pub open spec fn writes_sound(self, a: Addr, v: u8, post: Interconnect) -> bool {
        &&& post.same_but(self, false, true, false, false, false, false)
        &&& match a {
            Addr::ApuChan1Sweep => post.apu == self.apu.after_chan1_sweep(v),
            Addr::ApuChan1WaveLength => post.apu == self.apu.after_chan1_wavelength(v),
            Addr::ApuChan1Envelope => post.apu == self.apu.after_chan1_envelope(v),
            Addr::ApuChan1FreqLo => post.apu == self.apu.after_chan1_freq_lo(v),
            Addr::ApuChan1FreqHi => post.apu == self.apu.after_chan1_freq_hi(v),
            Addr::ApuChan2WaveLength => post.apu == self.apu.after_chan2_wavelength(v),
            Addr::ApuChan2Envelope => post.apu == self.apu.after_chan2_envelope(v),
            Addr::ApuChan2FreqLo => post.apu == self.apu.after_chan2_freq_lo(v),
            Addr::ApuChan2FreqHi => post.apu == self.apu.after_chan2_freq_hi(v),
            Addr::ApuChan3Enable => post.apu == self.apu.after_chan3_enable(v),
            Addr::ApuChan3Length => post.apu == self.apu.after_chan3_length(v),
            Addr::ApuChan3Volume => post.apu == self.apu.after_chan3_volume(v),
            Addr::ApuChan3FreqLo => post.apu == self.apu.after_chan3_freq_lo(v),
            Addr::ApuChan3FreqHi => post.apu == self.apu.after_chan3_freq_hi(v),
            Addr::ApuWaveRam(o) => post.apu == (Apu { wave_pattern_ram: post.apu.wave_pattern_ram, ..self.apu })
                && post.apu.wave_pattern_ram@ == self.apu.wave_pattern_ram@.update(o as int, v),
            Addr::ApuChan4Length => post.apu == self.apu.after_chan4_length(v),
            Addr::ApuChan4Envelope => post.apu == self.apu.after_chan4_envelope(v),
            Addr::ApuChan4PolyCounter => post.apu == self.apu.after_chan4_polycounter(v),
            Addr::ApuChan4CounterConsec => post.apu == self.apu.after_chan4_counter_consec(v),
            Addr::ApuChanControl => post.apu == self.apu.after_chan_control(v),
            Addr::ApuOutputSelect => post.apu == (Apu { output_select: v, ..self.apu }),
            _ => post.apu == self.apu.after_sound_on_reg(v),
        }
    }

    /// What a write of a pixel-unit register does.
    #[verifier::opaque]
    pub open spec fn writes_video(self, a: Addr, v: u8, post: Interconnect) -> bool {
        match a {
            Addr::PpuOamDma => self.dma_done(v, post),
            Addr::PpuLcdY => post == self,
            _ => post.same_but(self, true, false, false, false, false, false) && post.ppu == match a {
                Addr::PpuControlReg => self.ppu.after_lcd_ctrl(v),
                Addr::PpuStatusReg => self.ppu.after_lcd_stat(v),
                Addr::PpuScrollY => Ppu { scy: v, ..self.ppu },
                Addr::PpuScrollX => Ppu { scx: v, ..self.ppu },
                Addr::PpuLcdYCompare => self.ppu.after_lyc(v),
                Addr::PpuBgPalette => Ppu { bgp: Palette::of_byte(v), ..self.ppu },
                Addr::PpuObj0Palette => Ppu { obp0: Palette::of_byte(v), ..self.ppu },
                Addr::PpuObj1Palette => Ppu { obp1: Palette::of_byte(v), ..self.ppu },
                Addr::PpuWindowY => Ppu { wy: v, ..self.ppu },
                _ => Ppu { wx: v, ..self.ppu },
            },
        }
    }

    /// What a write of `v` to `addr` does, from `self` to `post`.
    pub open spec fn writes(self, addr: u16, v: u8, post: Interconnect) -> bool {
        match map_spec(addr) {
            Addr::Rom(_) | Addr::Vram(_) | Addr::Xram(_) | Addr::Ram(_) | Addr::Echo(_) | Addr::Oam(_)
            | Addr::Hram(_) | Addr::Unused => self.writes_mem(map_spec(addr), v, post),
            Addr::TimerDivReg | Addr::TimerCounter | Addr::TimerModulo | Addr::TimerControl => self.writes_timer(map_spec(addr), v, post),
            Addr::ApuChan1Sweep | Addr::ApuChan1WaveLength | Addr::ApuChan1Envelope | Addr::ApuChan1FreqLo
            | Addr::ApuChan1FreqHi | Addr::ApuChan2WaveLength | Addr::ApuChan2Envelope | Addr::ApuChan2FreqLo
            | Addr::ApuChan2FreqHi | Addr::ApuChan3Enable | Addr::ApuChan3Length | Addr::ApuChan3Volume
            | Addr::ApuChan3FreqLo | Addr::ApuChan3FreqHi | Addr::ApuWaveRam(_) | Addr::ApuChan4Length
            | Addr::ApuChan4Envelope | Addr::ApuChan4PolyCounter | Addr::ApuChan4CounterConsec
            | Addr::ApuChanControl | Addr::ApuOutputSelect | Addr::ApuSoundOnReg => self.writes_sound(map_spec(addr), v, post),
            Addr::PpuControlReg | Addr::PpuStatusReg | Addr::PpuScrollY | Addr::PpuScrollX | Addr::PpuLcdY
            | Addr::PpuLcdYCompare | Addr::PpuOamDma | Addr::PpuBgPalette | Addr::PpuObj0Palette
            | Addr::PpuObj1Palette | Addr::PpuWindowY | Addr::PpuWindowX => self.writes_video(map_spec(addr), v, post),
            Addr::SerialData => post.same_but(self, false, false, false, false, false, true) && post.in_bootrom == self.in_bootrom
                && post.io == (IoRegs { serial_byte: v, serial_written: true, ..self.io }),
            Addr::SerialControl => post.same_but(self, false, false, false, false, false, true) && post.in_bootrom == self.in_bootrom
                && post.io == (IoRegs {
                    serial_transfer_start: v & 0x80 != 0,
                    serial_clock_fast: v & 0x02 != 0,
                    serial_shift_internal: v & 0x01 != 0,
                    ..self.io
                }),
            Addr::InterruptFlags => post.same_but(self, false, false, false, false, false, true) && post.in_bootrom == self.in_bootrom
                && post.io == (IoRegs { iflags: v, ..self.io }),
            Addr::BootromDisable => post.same_but(self, false, false, false, false, false, true) && post.io == self.io
                && post.in_bootrom == (self.in_bootrom && v == 0),
            Addr::CgbRamBank => post.same_but(self, false, false, false, false, false, true) && post.in_bootrom == self.in_bootrom
                && post.io == (IoRegs { cgb_ram_bank: v & 0x07, ..self.io }),
            Addr::InterruptsEnable => post.same_but(self, false, false, false, false, false, true) && post.in_bootrom == self.in_bootrom
                && post.io == (IoRegs { ie_reg: v, ..self.io }),
            _ => post == self,
        }
    }
}

impl Interconnect {
    pub fn new(boot_rom: Vec<u8>, cart_rom: Vec<u8>) -> (r: Result<Interconnect, Fault>)
        requires
            cart_rom@.len() >= HEADER_END,
        ensures
            Header::parses(cart_rom@) <==> r is Ok,
            r matches Ok(ic) ==> {
                &&& ic.wf()
                &&& ic.cart.rom@ == cart_rom@
                &&& ic.boot@ == boot_rom@
                &&& ic.in_bootrom == (boot_rom@.len() >= BOOT_SIZE)
                &&& ic.io.iflags == 0
                &&& ic.io.ie_reg == 0
                &&& ic.ppu.mode == Mode::Oam
                &&& ic.ppu.line == 0
                &&& ic.ppu.modeclock == 0
                &&& ic.timer == Timer::initial()
            },
    {
        let cart = match Cart::new(cart_rom) {
            Ok(c) => c,
            Err(e) => {
                return Err(e);
            },
        };
        Ok(Interconnect {
            ppu: Ppu::new(),
            apu: Apu::new(),
            timer: Timer::new(),
            in_bootrom: boot_rom.len() >= BOOT_SIZE,
            boot: boot_rom,
            cart,
            ram: vec![0u8; RAM_SIZE],
            hram: vec![0u8; HRAM_SIZE],
            io: IoRegs {
                cgb_ram_bank: 0,
                serial_byte: 0,
                serial_written: false,
                serial_transfer_start: false,
                serial_clock_fast: false,
                serial_shift_internal: false,
                iflags: 0,
                dma_addr: 0,
                ie_reg: 0,
            },
        })
    }

    pub fn framebuffer(&self) -> (r: &[Color])
        ensures
            r@ == self.ppu.fb@,
    {
        self.ppu.framebuffer()
    }

    fn read_serial_control(&self) -> (r: u8)
        ensures
            r == self.serial_control(),
    {
        (if self.io.serial_transfer_start { 0x80u8 } else { 0u8 }) | (if self.io.serial_clock_fast { 0x02u8 } else { 0u8 })
            | (if self.io.serial_shift_internal { 0x01u8 } else { 0u8 })
    }

    fn write_serial_control(&mut self, value: u8)
        ensures
            final(self).same_but(*old(self), false, false, false, false, false, true),
            final(self).in_bootrom == old(self).in_bootrom,
            final(self).io == (IoRegs {
                serial_transfer_start: value & 0x80 != 0,
                serial_clock_fast: value & 0x02 != 0,
                serial_shift_internal: value & 0x01 != 0,
                ..old(self).io
            }),
    {
        self.io.serial_transfer_start = value & 0x80 != 0;
        self.io.serial_clock_fast = value & 0x02 != 0;
        self.io.serial_shift_internal = value & 0x01 != 0;
    }

    /// A byte read: the owner of the address answers; an unmapped address is fatal.
    pub fn read_byte(&self, addr: u16) -> (r: Result<u8, Fault>)
        requires
            self.wf(),
        ensures
            r == (if map_spec(addr) == Addr::Unmapped { Err(Fault::UnmappedAddress(addr)) } else { Ok(self.read_spec(addr)) }),
    {
        let v = match map_addr(addr) {
            Addr::Rom(o) => if self.in_bootrom && o < BOOT_SIZE { self.boot[o] } else { self.cart.rom_read_byte(o) },
            Addr::Vram(o) => self.ppu.read_vram(o),
            Addr::Xram(o) => self.cart.ram_read_byte(o),
            Addr::Ram(o) => self.ram[o],
            Addr::Echo(o) => self.ram[o],
            Addr::Oam(o) => self.ppu.read_oam(o),
            Addr::Hram(o) => self.hram[o],
            Addr::SerialData => self.io.serial_byte,
            Addr::SerialControl => self.read_serial_control(),
            Addr::TimerDivReg => self.timer.read_div_reg(),
            Addr::TimerCounter => self.timer.read_counter(),
            Addr::TimerModulo => self.timer.modulo,
            Addr::TimerControl => self.timer.read_timer_control(),
            Addr::InterruptFlags => self.io.iflags,
            Addr::ApuChan1Sweep => self.apu.read_chan1_sweep(),
            Addr::ApuChan1WaveLength => self.apu.read_chan1_wavelength(),
            Addr::ApuChan1Envelope => self.apu.read_chan1_envelope(),
            Addr::ApuChan1FreqHi => self.apu.read_chan1_freq_hi(),
            Addr::ApuChan2WaveLength => self.apu.read_chan2_wavelength(),
            Addr::ApuChan2Envelope => self.apu.read_chan2_envelope(),
            Addr::ApuChan2FreqHi => self.apu.read_chan2_freq_hi(),
            Addr::ApuChan3Enable => self.apu.read_chan3_enable(),
            Addr::ApuChan3Length => self.apu.read_chan3_length(),
            Addr::ApuChan3Volume => self.apu.read_chan3_volume(),
            Addr::ApuChan3FreqHi => self.apu.read_chan3_freq_hi(),
            Addr::ApuWaveRam(o) => self.apu.read_wave_pattern_ram(o),
            Addr::ApuChan4Length => self.apu.read_chan4_length(),
            Addr::ApuChan4Envelope => self.apu.read_chan4_envelope(),
            Addr::ApuChan4PolyCounter => self.apu.read_chan4_polycounter(),
            Addr::ApuChan4CounterConsec => self.apu.read_chan4_counter_consec(),
            Addr::ApuChanControl => self.apu.read_chan_control(),
            Addr::ApuOutputSelect => self.apu.output_select,
            Addr::ApuSoundOnReg => self.apu.read_sound_on_reg(),
            Addr::PpuControlReg => self.ppu.read_lcd_ctrl(),
            Addr::PpuStatusReg => self.ppu.read_lcd_stat(),
            Addr::PpuScrollY => self.ppu.scy,
            Addr::PpuScrollX => self.ppu.scx,
            Addr::PpuLcdY => self.ppu.line,
            Addr::PpuLcdYCompare => self.ppu.lyc,
            Addr::PpuOamDma => self.io.dma_addr,
            Addr::PpuWindowY => self.ppu.wy,
            Addr::PpuWindowX => self.ppu.wx,
            Addr::CgbSpeedSwitch => 0,
            Addr::PpuDestVramBank => 0,
            Addr::BootromDisable => if self.in_bootrom { 1 } else { 0 },
            Addr::CgbRamBank => self.io.cgb_ram_bank & 0x07,
            Addr::InterruptsEnable => self.io.ie_reg,
            Addr::Unmapped => {
                return Err(Fault::UnmappedAddress(addr));
            },
            _ => 0xFF,
        };
        Ok(v)
    }

    /// A 16-bit read: two byte reads, little-endian.
    pub fn read_word(&self, addr: u16) -> (r: Result<u16, Fault>)
        requires
            self.wf(),
        ensures
            ({
                let next = ((addr as u32 + 1) % 65536) as u16;
                r == (if map_spec(addr) == Addr::Unmapped {
                    Err(Fault::UnmappedAddress(addr))
                } else if map_spec(next) == Addr::Unmapped {
                    Err(Fault::UnmappedAddress(next))
                } else {
                    Ok(crate::regs::word(self.read_spec(next), self.read_spec(addr)))
                })
            }),
    {
        let lo = match self.read_byte(addr) {
            Ok(v) => v,
            Err(e) => {
                return Err(e);
            },
        };
        let next = ((addr as u32 + 1) % 65536) as u16;
        let hi = match self.read_byte(next) {
            Ok(v) => v,
            Err(e) => {
                return Err(e);
            },
        };
        Ok((hi as u16) * 256 + (lo as u16))
    }
}

impl Interconnect {
    fn dma_source_byte(&self, a: usize) -> (r: u8)
        requires
            self.wf(),
            a < 0x10000,
        ensures
            r == self.dma_source(a as int),
    {
        proof {
            reveal(Interconnect::dma_source);
        }
        let s = if a >= 0xE000 { a - 0x2000 } else { a };
        if s < 0x8000 {
            if self.in_bootrom && s < BOOT_SIZE { self.boot[s] } else { self.cart.rom_read_byte(s) }
        } else if s < 0xA000 {
            self.ppu.vram[s - 0x8000]
        } else if s < 0xC000 {
            self.cart.ram_read_byte(s - 0xA000)
        } else {
            self.ram[s - 0xC000]
        }
    }

    /// Block transfer: 160 bytes from page `v` into sprite memory, through the sprite
    /// record accessors.
    #[verifier::rlimit(100)]
    fn dma(&mut self, v: u8)
        requires
            old(self).wf(),
        ensures
            final(self).wf(),
            old(self).dma_done(v, *final(self)),
    {
        self.io.dma_addr = v;
        let base = (v as usize) * 256;
        let mut k: usize = 0;
        while k < OAM_SIZE
            invariant
                k <= OAM_SIZE,
                base == v as int * 256,
                self.wf(),
                self.same_but(*old(self), true, false, false, false, false, true),
                self.in_bootrom == old(self).in_bootrom,
                self.io == (IoRegs { dma_addr: v, ..old(self).io }),
                self.ppu.same_setup_but_oam(old(self).ppu),
                forall|j: int| 0 <= j < k ==> #[trigger] self.ppu.oam_byte(j) == stored_byte(j, old(self).dma_source(v as int * 256 + j)),
            decreases OAM_SIZE - k,
        {
            let b = self.dma_source_byte(base + k);
            proof {
                lemma_dma_source_kept(*old(self), *self, base + k);
            }
            let ghost before = self.ppu;
            self.ppu.store_oam(k, b);
            proof {
                assert forall|j: int| 0 <= j < k + 1 implies #[trigger] self.ppu.oam_byte(j) == stored_byte(j, old(self).dma_source(v as int * 256 + j)) by {
                    if j < k {
                        assert(before.oam_byte(j) == stored_byte(j, old(self).dma_source(v as int * 256 + j)));
                        lemma_other_byte_kept(before, self.ppu, k as int, b, j);
                    } else {
                        lemma_written_byte(before, self.ppu, k as int, b);
                    }
                }
            }
            k = k + 1;
        }
    }

    #[verifier::rlimit(100)]
    fn write_cart_area(&mut self, a: Addr, value: u8)
        requires
            old(self).wf(),
            offset_ok(a),
            a is Rom || a is Xram,
        ensures
            final(self).wf(),
            old(self).writes_mem(a, value, *final(self)),
    {
        proof {
            reveal(Interconnect::writes_mem);
        }
        match a {
            Addr::Rom(o) => self.cart.mbc_write_byte(o, value),
            Addr::Xram(o) => self.cart.ram_write_byte(o, value),
            _ => {},
        }
    }

    #[verifier::rlimit(100)]
    fn write_vram_area(&mut self, o: usize, value: u8)
        requires
            old(self).wf(),
            o < 0x2000,
        ensures
            final(self).wf(),
            old(self).writes_mem(Addr::Vram(o), value, *final(self)),
    {
        proof {
            reveal(Interconnect::writes_mem);
        }
        self.ppu.write_vram(o, value);
    }

    #[verifier::rlimit(100)]
    fn write_oam_area(&mut self, o: usize, value: u8)
        requires
            old(self).wf(),
            o < 0xA0,
        ensures
            final(self).wf(),
            old(self).writes_mem(Addr::Oam(o), value, *final(self)),
    {
        proof {
            reveal(Interconnect::writes_mem);
        }
        self.ppu.write_oam(o, value);
    }

    #[verifier::rlimit(100)]
    fn write_work_ram(&mut self, a: Addr, value: u8)
        requires
            old(self).wf(),
            offset_ok(a),
            a is Ram || a is Echo || a is Hram || a is Unused,
        ensures
            final(self).wf(),
            old(self).writes_mem(a, value, *final(self)),
    {
        proof {
            reveal(Interconnect::writes_mem);
        }
        match a {
            Addr::Ram(o) => self.ram.set(o, value),
            Addr::Echo(o) => self.ram.set(o, value),
            Addr::Hram(o) => self.hram.set(o, value),
            _ => {},
        }
    }

    fn write_timer(&mut self, a: Addr, value: u8)
        requires
            old(self).wf(),
            offset_ok(a),
            a is TimerDivReg || a is TimerCounter || a is TimerModulo || a is TimerControl,
        ensures
            final(self).wf(),
            old(self).writes_timer(a, value, *final(self)),
    {
        proof {
            reveal(Interconnect::writes_timer);
        }
        match a {
            Addr::TimerDivReg => {
                if self.timer.write_div_reg() {
                    self.io.iflags = self.io.iflags | INT_TIMER;
                }
            },
            Addr::TimerCounter => self.timer.write_counter(value),
            Addr::TimerModulo => self.timer.modulo = value,
            _ => self.timer.write_timer_control(value),
        }
    }

    #[verifier::rlimit(100)]
    fn write_sound(&mut self, a: Addr, value: u8)
        requires
            old(self).wf(),
            offset_ok(a),
            a is ApuChan1Sweep || a is ApuChan1WaveLength || a is ApuChan1Envelope || a is ApuChan1FreqLo
                || a is ApuChan1FreqHi || a is ApuChan2WaveLength || a is ApuChan2Envelope || a is ApuChan2FreqLo
                || a is ApuChan2FreqHi || a is ApuChan3Enable || a is ApuChan3Length || a is ApuChan3Volume
                || a is ApuChan3FreqLo || a is ApuChan3FreqHi || a is ApuWaveRam || a is ApuChan4Length
                || a is ApuChan4Envelope || a is ApuChan4PolyCounter || a is ApuChan4CounterConsec
                || a is ApuChanControl || a is ApuOutputSelect || a is ApuSoundOnReg,
        ensures
            final(self).wf(),
            old(self).writes_sound(a, value, *final(self)),
    {
        proof {
            reveal(Interconnect::writes_sound);
        }
        match a {
            Addr::ApuChan1Sweep => self.apu.write_chan1_sweep(value),
            Addr::ApuChan1WaveLength => self.apu.write_chan1_wavelength(value),
            Addr::ApuChan1Envelope => self.apu.write_chan1_envelope(value),
            Addr::ApuChan1FreqLo => self.apu.write_chan1_freq_lo(value),
            Addr::ApuChan1FreqHi => self.apu.write_chan1_freq_hi(value),
            Addr::ApuChan2WaveLength => self.apu.write_chan2_wavelength(value),
            Addr::ApuChan2Envelope => self.apu.write_chan2_envelope(value),
            Addr::ApuChan2FreqLo => self.apu.write_chan2_freq_lo(value),
            Addr::ApuChan2FreqHi => self.apu.write_chan2_freq_hi(value),
            Addr::ApuChan3Enable => self.apu.write_chan3_enable(value),
            Addr::ApuChan3Length => self.apu.write_chan3_length(value),
            Addr::ApuChan3Volume => self.apu.write_chan3_volume(value),
            Addr::ApuChan3FreqLo => self.apu.write_chan3_freq_lo(value),
            Addr::ApuChan3FreqHi => self.apu.write_chan3_freq_hi(value),
            Addr::ApuWaveRam(o) => self.apu.write_wave_pattern_ram(o, value),
            Addr::ApuChan4Length => self.apu.write_chan4_length(value),
            Addr::ApuChan4Envelope => self.apu.write_chan4_envelope(value),
            Addr::ApuChan4PolyCounter => self.apu.write_chan4_polycounter(value),
            Addr::ApuChan4CounterConsec => self.apu.write_chan4_counter_consec(value),
            Addr::ApuChanControl => self.apu.write_chan_control(value),
            Addr::ApuOutputSelect => self.apu.output_select = value,
            _ => self.apu.write_sound_on_reg(value),
        }
    }

    #[verifier::rlimit(100)]
    fn write_lcd(&mut self, a: Addr, value: u8)
        requires
            old(self).wf(),
            a is PpuControlReg || a is PpuStatusReg || a is PpuOamDma || a is PpuLcdY,
        ensures
            final(self).wf(),
            old(self).writes_video(a, value, *final(self)),
    {
        proof {
            reveal(Interconnect::writes_video);
        }
        match a {
            Addr::PpuControlReg => self.ppu.write_lcd_ctrl(value),
            Addr::PpuStatusReg => self.ppu.write_lcd_stat(value),
            Addr::PpuOamDma => self.dma(value),
            _ => {},
        }
    }

    #[verifier::rlimit(100)]
    fn write_scroll(&mut self, a: Addr, value: u8)
        requires
            old(self).wf(),
            a is PpuScrollY || a is PpuScrollX || a is PpuLcdYCompare || a is PpuWindowY || a is PpuWindowX,
        ensures
            final(self).wf(),
            old(self).writes_video(a, value, *final(self)),
    {
        proof {
            reveal(Interconnect::writes_video);
        }
        match a {
            Addr::PpuScrollY => self.ppu.scy = value,
            Addr::PpuScrollX => self.ppu.scx = value,
            Addr::PpuLcdYCompare => self.ppu.write_lyc(value),
            Addr::PpuWindowY => self.ppu.wy = value,
            _ => self.ppu.wx = value,
        }
    }

    #[verifier::rlimit(100)]
    fn write_palette(&mut self, a: Addr, value: u8)
        requires
            old(self).wf(),
            a is PpuBgPalette || a is PpuObj0Palette || a is PpuObj1Palette,
        ensures
            final(self).wf(),
            old(self).writes_video(a, value, *final(self)),
    {
        proof {
            reveal(Interconnect::writes_video);
        }
        match a {
            Addr::PpuBgPalette => self.ppu.write_bg_palette(value),
            Addr::PpuObj0Palette => self.ppu.write_obj0_palette(value),
            _ => self.ppu.write_obj1_palette(value),
        }
    }

    /// A byte write: the owner of the address takes it; an unmapped address is fatal.
    pub fn write_byte(&mut self, addr: u16, value: u8) -> (r: Result<(), Fault>)
        requires
            old(self).wf(),
        ensures
            final(self).wf(),
            map_spec(addr) == Addr::Unmapped ==> r == Err::<(), Fault>(Fault::UnmappedAddress(addr)) && *final(self) == *old(self),
            map_spec(addr) != Addr::Unmapped ==> r is Ok && old(self).writes(addr, value, *final(self)),
    {
        let a = map_addr(addr);
        match a {
            Addr::Rom(_) | Addr::Vram(_) | Addr::Xram(_) | Addr::Ram(_) | Addr::Echo(_) | Addr::Oam(_)
            | Addr::Hram(_) | Addr::Unused => if matches!(a, Addr::Rom(_) | Addr::Xram(_)) {
                self.write_cart_area(a, value)
            } else if let Addr::Vram(o) = a {
                self.write_vram_area(o, value)
            } else if let Addr::Oam(o) = a {
                self.write_oam_area(o, value)
            } else {
                self.write_work_ram(a, value)
            },
            Addr::TimerDivReg | Addr::TimerCounter | Addr::TimerModulo | Addr::TimerControl => self.write_timer(a, value),
            Addr::ApuChan1Sweep | Addr::ApuChan1WaveLength | Addr::ApuChan1Envelope | Addr::ApuChan1FreqLo
            | Addr::ApuChan1FreqHi | Addr::ApuChan2WaveLength | Addr::ApuChan2Envelope | Addr::ApuChan2FreqLo
            | Addr::ApuChan2FreqHi | Addr::ApuChan3Enable | Addr::ApuChan3Length | Addr::ApuChan3Volume
            | Addr::ApuChan3FreqLo | Addr::ApuChan3FreqHi | Addr::ApuWaveRam(_) | Addr::ApuChan4Length
            | Addr::ApuChan4Envelope | Addr::ApuChan4PolyCounter | Addr::ApuChan4CounterConsec
            | Addr::ApuChanControl | Addr::ApuOutputSelect | Addr::ApuSoundOnReg => self.write_sound(a, value),
            Addr::PpuControlReg | Addr::PpuStatusReg | Addr::PpuScrollY | Addr::PpuScrollX | Addr::PpuLcdY
            | Addr::PpuLcdYCompare | Addr::PpuOamDma | Addr::PpuBgPalette | Addr::PpuObj0Palette
            | Addr::PpuObj1Palette | Addr::PpuWindowY | Addr::PpuWindowX => if matches!(a, Addr::PpuControlReg | Addr::PpuStatusReg | Addr::PpuOamDma | Addr::PpuLcdY) {
                self.write_lcd(a, value)
            } else if matches!(a, Addr::PpuBgPalette | Addr::PpuObj0Palette | Addr::PpuObj1Palette) {
                self.write_palette(a, value)
            } else {
                self.write_scroll(a, value)
            },
            Addr::SerialData => {
                self.io.serial_byte = value;
                self.io.serial_written = true;
            },
            Addr::SerialControl => self.write_serial_control(value),
            Addr::InterruptFlags => self.io.iflags = value,
            Addr::BootromDisable => self.in_bootrom = self.in_bootrom && value == 0,
            Addr::CgbRamBank => self.io.cgb_ram_bank = value & 0x07,
            Addr::InterruptsEnable => self.io.ie_reg = value,
            Addr::Unmapped => {
                return Err(Fault::UnmappedAddress(addr));
            },
            _ => {},
        }
        Ok(())
    }
}

impl Interconnect {
    /// What `step(cycles)` does, from `self` to `post`.
    pub open spec fn stepped(self, cycles: nat, post: Interconnect) -> bool {
        &&& post.wf()
        &&& post.timer == self.timer.run(cycles).0
        &&& exists|r: u8| #[trigger] self.ppu.stepped(cycles as int, post.ppu, r) && post.io == (IoRegs {
            iflags: self.io.iflags | (if self.timer.run(cycles).1 { INT_TIMER } else { 0u8 }) | r,
            ..self.io
        })
        &&& post.same_but(self, true, false, true, false, false, true)
        &&& post.in_bootrom == self.in_bootrom
    }

    /// `cycles` clock cycles (at most 80, the shortest pixel-unit phase) of the timer and the
    /// pixel unit; their interrupt requests are latched into the interrupt-flag register.
    pub fn step(&mut self, cycles: usize)
        requires
            old(self).wf(),
            cycles <= 80,
        ensures
            old(self).stepped(cycles as nat, *final(self)),
    {
        let overflow = self.timer.step(cycles);
        let requests = self.ppu.step(cycles);
        let t: u8 = if overflow { INT_TIMER } else { 0u8 };
        self.io.iflags = self.io.iflags | t | requests;
    }

    /// Takes the byte last written to the serial data register, if one is waiting.
    pub fn take_serial(&mut self) -> (r: Option<u8>)
        ensures
            r == (if old(self).io.serial_written { Some(old(self).io.serial_byte) } else { None::<u8> }),
            final(self).io == (IoRegs { serial_written: false, ..old(self).io }),
            final(self).same_but(*old(self), false, false, false, false, false, true),
            final(self).in_bootrom == old(self).in_bootrom,
    {
        let r = if self.io.serial_written { Some(self.io.serial_byte) } else { None };
        self.io.serial_written = false;
        r
    }
}

/// Work RAM and its echo are one memory: a byte written at 0xC000 + o reads back at
/// 0xE000 + o, and one written at 0xE000 + o reads back at 0xC000 + o.
pub proof fn lemma_echo(b: Interconnect, o: u16, v: u8, post: Interconnect)
    requires
        b.wf(),
        o < 0x1E00,
    ensures
        b.writes((0xC000 + o) as u16, v, post) ==> post.read_spec((0xE000 + o) as u16) == v,
        b.writes((0xE000 + o) as u16, v, post) ==> post.read_spec((0xC000 + o) as u16) == v,
{
    reveal(Interconnect::writes_mem);
    crate::mem_map::lemma_echo_alias(o);
}

/// Block-transfer sources do not depend on sprite memory or the bus registers.
proof fn lemma_dma_source_kept(a: Interconnect, b: Interconnect, x: int)
    requires
        b.same_but(a, true, false, false, false, false, true),
        b.in_bootrom == a.in_bootrom,
        b.ppu.same_setup_but_oam(a.ppu),
    ensures
        b.dma_source(x) == a.dma_source(x),
{
    reveal(Interconnect::dma_source);
}

} // verus!
