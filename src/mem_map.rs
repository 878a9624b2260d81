use vstd::prelude::*;

verus! {

/// The region or register that a bus address selects, with the offset into the region.
#[derive(Clone, Copy, PartialEq, Eq, Structural, Debug)]
pub enum Addr {
    Rom(usize),
    Vram(usize),
    Xram(usize),
    Ram(usize),
    Echo(usize),
    Oam(usize),
    Unused,
    Hram(usize),
    JoypadReg,
    SerialData,
    SerialControl,
    TimerDivReg,
    TimerCounter,
    TimerModulo,
    TimerControl,
    InterruptFlags,
    ApuChan1Sweep,
    ApuChan1WaveLength,
    ApuChan1Envelope,
    ApuChan1FreqLo,
    ApuChan1FreqHi,
    ApuChan2WaveLength,
    ApuChan2Envelope,
    ApuChan2FreqLo,
    ApuChan2FreqHi,
    ApuChan3Enable,
    ApuChan3Length,
    ApuChan3Volume,
    ApuChan3FreqLo,
    ApuChan3FreqHi,
    ApuWaveRam(usize),
    ApuChan4Length,
    ApuChan4Envelope,
    ApuChan4PolyCounter,
    ApuChan4CounterConsec,
    ApuChanControl,
    ApuOutputSelect,
    ApuSoundOnReg,
    PpuControlReg,
    PpuStatusReg,
    PpuScrollY,
    PpuScrollX,
    PpuLcdY,
    PpuLcdYCompare,
    PpuOamDma,
    PpuBgPalette,
    PpuObj0Palette,
    PpuObj1Palette,
    PpuWindowY,
    PpuWindowX,
    CgbSpeedSwitch,
    PpuDestVramBank,
    BootromDisable,
    CgbIrComms,
    CgbRamBank,
    FF7F,
    InterruptsEnable,
    Unmapped,
}

/// Every bus address belongs to exactly one region; `Unmapped` marks the holes in the
/// I/O page, which no component answers.
pub open spec fn map_spec(addr: u16) -> Addr {
    if addr <= 0x7FFF {
        Addr::Rom(addr as usize)
    } else if addr <= 0x9FFF {
        Addr::Vram((addr - 0x8000) as usize)
    } else if addr <= 0xBFFF {
        Addr::Xram((addr - 0xA000) as usize)
    } else if addr <= 0xDFFF {
        Addr::Ram((addr - 0xC000) as usize)
    } else if addr <= 0xFDFF {
        Addr::Echo((addr - 0xE000) as usize)
    } else if addr <= 0xFE9F {
        Addr::Oam((addr - 0xFE00) as usize)
    } else if addr <= 0xFEFF {
        Addr::Unused
    } else if 0xFF80 <= addr && addr <= 0xFFFE {
        Addr::Hram((addr - 0xFF80) as usize)
    } else if 0xFF30 <= addr && addr <= 0xFF3F {
        Addr::ApuWaveRam((addr - 0xFF30) as usize)
    } else {
        match addr {
            0xFF00 => Addr::JoypadReg,
            0xFF01 => Addr::SerialData,
            0xFF02 => Addr::SerialControl,
            0xFF04 => Addr::TimerDivReg,
            0xFF05 => Addr::TimerCounter,
            0xFF06 => Addr::TimerModulo,
            0xFF07 => Addr::TimerControl,
            0xFF0F => Addr::InterruptFlags,
            0xFF10 => Addr::ApuChan1Sweep,
            0xFF11 => Addr::ApuChan1WaveLength,
            0xFF12 => Addr::ApuChan1Envelope,
            0xFF13 => Addr::ApuChan1FreqLo,
            0xFF14 => Addr::ApuChan1FreqHi,
            0xFF16 => Addr::ApuChan2WaveLength,
            0xFF17 => Addr::ApuChan2Envelope,
            0xFF18 => Addr::ApuChan2FreqLo,
            0xFF19 => Addr::ApuChan2FreqHi,
            0xFF1A => Addr::ApuChan3Enable,
            0xFF1B => Addr::ApuChan3Length,
            0xFF1C => Addr::ApuChan3Volume,
            0xFF1D => Addr::ApuChan3FreqLo,
            0xFF1E => Addr::ApuChan3FreqHi,
            0xFF20 => Addr::ApuChan4Length,
            0xFF21 => Addr::ApuChan4Envelope,
            0xFF22 => Addr::ApuChan4PolyCounter,
            0xFF23 => Addr::ApuChan4CounterConsec,
            0xFF24 => Addr::ApuChanControl,
            0xFF25 => Addr::ApuOutputSelect,
            0xFF26 => Addr::ApuSoundOnReg,
            0xFF40 => Addr::PpuControlReg,
            0xFF41 => Addr::PpuStatusReg,
            0xFF42 => Addr::PpuScrollY,
            0xFF43 => Addr::PpuScrollX,
            0xFF44 => Addr::PpuLcdY,
            0xFF45 => Addr::PpuLcdYCompare,
            0xFF46 => Addr::PpuOamDma,
            0xFF47 => Addr::PpuBgPalette,
            0xFF48 => Addr::PpuObj0Palette,
            0xFF49 => Addr::PpuObj1Palette,
            0xFF4A => Addr::PpuWindowY,
            0xFF4B => Addr::PpuWindowX,
            0xFF4D => Addr::CgbSpeedSwitch,
            0xFF4F => Addr::PpuDestVramBank,
            0xFF50 => Addr::BootromDisable,
            0xFF56 => Addr::CgbIrComms,
            0xFF70 => Addr::CgbRamBank,
            0xFF7F => Addr::FF7F,
            0xFFFF => Addr::InterruptsEnable,
            _ => Addr::Unmapped,
        }
    }
}


/// The offset a region carries lies inside the region.
pub open spec fn offset_ok(a: Addr) -> bool {
    match a {
        Addr::Rom(o) => o < 0x8000,
        Addr::Vram(o) => o < 0x2000,
        Addr::Xram(o) => o < 0x2000,
        Addr::Ram(o) => o < 0x2000,
        Addr::Echo(o) => o < 0x1E00,
        Addr::Oam(o) => o < 0xA0,
        Addr::Hram(o) => o < 0x7F,
        Addr::ApuWaveRam(o) => o < 0x10,
        _ => true,
    }
}

pub fn map_addr(addr: u16) -> (r: Addr)
    ensures
        r == map_spec(addr),
        offset_ok(r),
{
    if addr <= 0x7FFF {
        Addr::Rom(addr as usize)
    } else if addr <= 0x9FFF {
        Addr::Vram((addr - 0x8000) as usize)
    } else if addr <= 0xBFFF {
        Addr::Xram((addr - 0xA000) as usize)
    } else if addr <= 0xDFFF {
        Addr::Ram((addr - 0xC000) as usize)
    } else if addr <= 0xFDFF {
        Addr::Echo((addr - 0xE000) as usize)
    } else if addr <= 0xFE9F {
        Addr::Oam((addr - 0xFE00) as usize)
    } else if addr <= 0xFEFF {
        Addr::Unused
    } else if 0xFF80 <= addr && addr <= 0xFFFE {
        Addr::Hram((addr - 0xFF80) as usize)
    } else if 0xFF30 <= addr && addr <= 0xFF3F {
        Addr::ApuWaveRam((addr - 0xFF30) as usize)
    } else {
        match addr {
            0xFF00 => Addr::JoypadReg,
            0xFF01 => Addr::SerialData,
            0xFF02 => Addr::SerialControl,
            0xFF04 => Addr::TimerDivReg,
            0xFF05 => Addr::TimerCounter,
            0xFF06 => Addr::TimerModulo,
            0xFF07 => Addr::TimerControl,
            0xFF0F => Addr::InterruptFlags,
            0xFF10 => Addr::ApuChan1Sweep,
            0xFF11 => Addr::ApuChan1WaveLength,
            0xFF12 => Addr::ApuChan1Envelope,
            0xFF13 => Addr::ApuChan1FreqLo,
            0xFF14 => Addr::ApuChan1FreqHi,
            0xFF16 => Addr::ApuChan2WaveLength,
            0xFF17 => Addr::ApuChan2Envelope,
            0xFF18 => Addr::ApuChan2FreqLo,
            0xFF19 => Addr::ApuChan2FreqHi,
            0xFF1A => Addr::ApuChan3Enable,
            0xFF1B => Addr::ApuChan3Length,
            0xFF1C => Addr::ApuChan3Volume,
            0xFF1D => Addr::ApuChan3FreqLo,
            0xFF1E => Addr::ApuChan3FreqHi,
            0xFF20 => Addr::ApuChan4Length,
            0xFF21 => Addr::ApuChan4Envelope,
            0xFF22 => Addr::ApuChan4PolyCounter,
            0xFF23 => Addr::ApuChan4CounterConsec,
            0xFF24 => Addr::ApuChanControl,
            0xFF25 => Addr::ApuOutputSelect,
            0xFF26 => Addr::ApuSoundOnReg,
            0xFF40 => Addr::PpuControlReg,
            0xFF41 => Addr::PpuStatusReg,
            0xFF42 => Addr::PpuScrollY,
            0xFF43 => Addr::PpuScrollX,
            0xFF44 => Addr::PpuLcdY,
            0xFF45 => Addr::PpuLcdYCompare,
            0xFF46 => Addr::PpuOamDma,
            0xFF47 => Addr::PpuBgPalette,
            0xFF48 => Addr::PpuObj0Palette,
            0xFF49 => Addr::PpuObj1Palette,
            0xFF4A => Addr::PpuWindowY,
            0xFF4B => Addr::PpuWindowX,
            0xFF4D => Addr::CgbSpeedSwitch,
            0xFF4F => Addr::PpuDestVramBank,
            0xFF50 => Addr::BootromDisable,
            0xFF56 => Addr::CgbIrComms,
            0xFF70 => Addr::CgbRamBank,
            0xFF7F => Addr::FF7F,
            0xFFFF => Addr::InterruptsEnable,
            _ => Addr::Unmapped,
        }
    }
}


/// Work RAM and its echo are one memory: an echo offset is a work RAM offset.
pub proof fn lemma_echo_alias(o: u16)
    requires
        o < 0x1E00,
    ensures
        map_spec((0xC000 + o) as u16) == Addr::Ram(o as usize),
        map_spec((0xE000 + o) as u16) == Addr::Echo(o as usize),
{
}

} // verus!
