use vstd::prelude::*;

use crate::fault::Fault;

verus! {

/// The banking controller a cartridge declares.
#[derive(Clone, Copy, PartialEq, Eq, Structural, Debug)]
pub enum Mbc {
    RomOnly,
    Mbc1,
    Mbc1Ram,
    Mbc1RamBat,
    Mbc3RamBat,
}

#[derive(Clone, Copy, PartialEq, Eq, Structural, Debug)]
pub enum CgbFlag {
    No,
    Capable,
    Only,
}

#[derive(Clone, Copy, PartialEq, Eq, Structural, Debug)]
pub enum SgbFlag {
    No,
    Yes,
}

/// Whether the upper bank-select bits of an MBC1 address ROM or RAM banks.
#[derive(Clone, Copy, PartialEq, Eq, Structural, Debug)]
pub enum RomRam {
    Rom,
    Ram,
}

/// The fields of the cartridge header that the emulator reads.
#[derive(Debug)]
pub struct Header {
    pub title: Vec<u8>,
    pub cgb_flag: CgbFlag,
    pub sgb_flag: SgbFlag,
    pub cart_type: Mbc,
    /// Number of 16 KiB ROM banks.
    pub rom_banks: usize,
    /// Cartridge RAM in bytes.
    pub ram_size: usize,
}

pub open spec fn mbc_of(code: u8) -> Option<Mbc> {
    match code {
        0x00 => Some(Mbc::RomOnly),
        0x01 => Some(Mbc::Mbc1),
        0x02 => Some(Mbc::Mbc1Ram),
        0x03 => Some(Mbc::Mbc1RamBat),
        0x13 => Some(Mbc::Mbc3RamBat),
        _ => None,
    }
}

/// ROM-size codes 0 to 8 give 2 << code banks.
pub open spec fn rom_banks_of(code: u8) -> Option<usize> {
    if code <= 8 {
        Some((2usize << code) as usize)
    } else {
        None
    }
}

pub open spec fn ram_size_of(code: u8) -> Option<usize> {
    match code {
        0 => Some(0usize),
        1 => Some(2048usize),
        2 => Some(8192usize),
        3 => Some(32768usize),
        4 => Some(131072usize),
        5 => Some(65536usize),
        _ => None,
    }
}

pub open spec fn cgb_of(code: u8) -> CgbFlag {
    match code {
        0x80 => CgbFlag::Capable,
        0xC0 => CgbFlag::Only,
        _ => CgbFlag::No,
    }
}

/// Offsets of the header fields in the image.
pub const TITLE_START: usize = 0x134;
pub const TITLE_END: usize = 0x143;
pub const HEADER_END: usize = 0x150;

impl Header {
    /// The header is well formed when the controller, ROM-size and RAM-size codes all mean
    /// something.
    pub open spec fn parses(rom: Seq<u8>) -> bool {
        &&& mbc_of(rom[0x147]) is Some
        &&& rom_banks_of(rom[0x148]) is Some
        &&& ram_size_of(rom[0x149]) is Some
    }

    pub fn new(rom: &Vec<u8>) -> (r: Result<Header, Fault>)
        requires
            rom@.len() >= HEADER_END,
        ensures
            Header::parses(rom@) <==> r is Ok,
            r matches Ok(h) ==> {
                &&& h.title@ == rom@.subrange(TITLE_START as int, TITLE_END as int)
                &&& h.cgb_flag == cgb_of(rom@[0x143])
                &&& h.sgb_flag == (if rom@[0x146] == 0x03 { SgbFlag::Yes } else { SgbFlag::No })
                &&& Some(h.cart_type) == mbc_of(rom@[0x147])
                &&& Some(h.rom_banks) == rom_banks_of(rom@[0x148])
                &&& Some(h.ram_size) == ram_size_of(rom@[0x149])
            },
            mbc_of(rom@[0x147]) is None ==> r == Err::<Header, Fault>(Fault::UnsupportedCartridge(rom@[0x147])),
            mbc_of(rom@[0x147]) is Some && rom_banks_of(rom@[0x148]) is None ==> r == Err::<Header, Fault>(Fault::UnknownRomSize(rom@[0x148])),
            mbc_of(rom@[0x147]) is Some && rom_banks_of(rom@[0x148]) is Some && ram_size_of(rom@[0x149]) is None
                ==> r == Err::<Header, Fault>(Fault::UnknownRamSize(rom@[0x149])),
    {
        let mut title: Vec<u8> = Vec::new();
        let mut i: usize = TITLE_START;
        while i < TITLE_END
            invariant
                TITLE_START <= i <= TITLE_END,
                rom@.len() >= HEADER_END,
                title@ == rom@.subrange(TITLE_START as int, i as int),
            decreases TITLE_END - i,
        {
            title.push(rom[i]);
            i = i + 1;
            assert(title@ =~= rom@.subrange(TITLE_START as int, i as int));
        }
        let cgb = match rom[0x143] {
            0x80 => CgbFlag::Capable,
            0xC0 => CgbFlag::Only,
            _ => CgbFlag::No,
        };
        let sgb = if rom[0x146] == 0x03 { SgbFlag::Yes } else { SgbFlag::No };
        let cart = match rom[0x147] {
            0x00 => Mbc::RomOnly,
            0x01 => Mbc::Mbc1,
            0x02 => Mbc::Mbc1Ram,
            0x03 => Mbc::Mbc1RamBat,
            0x13 => Mbc::Mbc3RamBat,
            _ => {
                return Err(Fault::UnsupportedCartridge(rom[0x147]));
            },
        };
        let rom_code = rom[0x148];
        if rom_code > 8 {
            return Err(Fault::UnknownRomSize(rom_code));
        }
        let rom_banks: usize = 2usize << rom_code;
        let ram_size: usize = match rom[0x149] {
            0 => 0,
            1 => 2048,
            2 => 8192,
            3 => 32768,
            4 => 131072,
            5 => 65536,
            _ => {
                return Err(Fault::UnknownRamSize(rom[0x149]));
            },
        };
        Ok(Header { title, cgb_flag: cgb, sgb_flag: sgb, cart_type: cart, rom_banks, ram_size })
    }
}

/// A cartridge: its images and the state of its banking controller.
#[derive(Debug)]
pub struct Cart {
    pub header: Header,
    pub ram_timer_enable: bool,
    pub rom_bank: u8,
    pub ram_bank_rtc: u8,
    pub rom_ram_mode: RomRam,
    pub rom: Vec<u8>,
    pub ram: Vec<u8>,
}

pub open spec fn is_mbc1(m: Mbc) -> bool {
    m == Mbc::Mbc1 || m == Mbc::Mbc1Ram || m == Mbc::Mbc1RamBat
}

pub const ROM_BANK_SIZE: usize = 0x4000;
pub const RAM_BANK_SIZE: usize = 0x2000;

impl Cart {
    /// The ROM bank that the switchable window shows; in RAM mode an MBC1 uses only the
    /// low five bits.
    pub open spec fn current_rom_bank(self) -> u8 {
        if is_mbc1(self.header.cart_type) && self.rom_ram_mode == RomRam::Ram {
            self.rom_bank & 0x1F
        } else {
            self.rom_bank
        }
    }

    /// Where in the ROM image a ROM-area offset lands: bank 0 below 0x4000, else the
    /// selected bank, banks 0 and 1 both meaning bank 1.
    pub open spec fn rom_phys(self, offset: int) -> int {
        if offset < 0x4000 || self.header.cart_type == Mbc::RomOnly {
            offset
        } else {
            let bank = self.current_rom_bank();
            offset + 0x4000 * (if bank == 0 { 0int } else { bank as int - 1 })
        }
    }

    /// The byte a ROM-area read gives; past the end of the image, open bus.
    pub open spec fn rom_byte(self, offset: int) -> u8 {
        let p = self.rom_phys(offset);
        if p < self.rom@.len() { self.rom@[p] } else { 0xFF }
    }

    /// Where in the RAM image a cartridge-RAM offset lands.
    pub open spec fn ram_phys(self, offset: int) -> int {
        if self.header.cart_type == Mbc::Mbc3RamBat || (is_mbc1(self.header.cart_type)
            && self.rom_ram_mode == RomRam::Ram) {
            self.ram_bank_rtc as int * 0x2000 + offset
        } else {
            offset
        }
    }

    /// The byte a cartridge-RAM read gives: open bus unless RAM is enabled and present.
    pub open spec fn ram_byte(self, offset: int) -> u8 {
        let p = self.ram_phys(offset);
        if self.ram_timer_enable && p < self.ram@.len() { self.ram@[p] } else { 0xFF }
    }

    /// The controller state after a write into the ROM area.
    pub open spec fn after_mbc_write(self, offset: int, value: u8) -> Cart {
        if self.header.cart_type == Mbc::RomOnly {
            self
        } else if offset < 0x2000 {
            Cart { ram_timer_enable: value & 0x0F == 0x0A, ..self }
        } else if offset < 0x4000 {
            if is_mbc1(self.header.cart_type) {
                Cart { rom_bank: (self.rom_bank & 0x60) | (value & 0x1F), ..self }
            } else {
                Cart { rom_bank: value & 0x7F, ..self }
            }
        } else if offset < 0x6000 {
            if is_mbc1(self.header.cart_type) {
                Cart {
                    rom_bank: (self.rom_bank & 0x1F) | ((value & 0x03) << 5u8),
                    ram_bank_rtc: value & 0x03,
                    ..self
                }
            } else {
                Cart { ram_bank_rtc: value & 0x0F, ..self }
            }
        } else if is_mbc1(self.header.cart_type) {
            Cart { rom_ram_mode: if value & 1 == 0 { RomRam::Rom } else { RomRam::Ram }, ..self }
        } else {
            self
        }
    }

    pub fn new(rom: Vec<u8>) -> (r: Result<Cart, Fault>)
        requires
            rom@.len() >= HEADER_END,
        ensures
            Header::parses(rom@) <==> r is Ok,
            r matches Ok(c) ==> {
                &&& c.rom@ == rom@
                &&& c.ram@ == Seq::new(c.header.ram_size as nat, |i: int| 0u8)
                &&& Some(c.header.cart_type) == mbc_of(rom@[0x147])
                &&& Some(c.header.ram_size) == ram_size_of(rom@[0x149])
                &&& !c.ram_timer_enable
                &&& c.rom_bank == 0
                &&& c.ram_bank_rtc == 0
                &&& c.rom_ram_mode == RomRam::Rom
            },
    {
        let header = match Header::new(&rom) {
            Ok(h) => h,
            Err(e) => {
                return Err(e);
            },
        };
        let ram: Vec<u8> = vec![0u8; header.ram_size];
        assert(ram@ =~= Seq::new(header.ram_size as nat, |i: int| 0u8));
        Ok(Cart {
            header,
            ram_timer_enable: false,
            rom_bank: 0,
            ram_bank_rtc: 0,
            rom_ram_mode: RomRam::Rom,
            rom,
            ram,
        })
    }

    fn current_bank(&self) -> (r: u8)
        ensures
            r == self.current_rom_bank(),
    {
        match self.header.cart_type {
            Mbc::Mbc1 | Mbc::Mbc1Ram | Mbc::Mbc1RamBat => if self.rom_ram_mode == RomRam::Ram {
                self.rom_bank & 0x1F
            } else {
                self.rom_bank
            },
            _ => self.rom_bank,
        }
    }

    /// A read in the ROM area, 0x0000 to 0x7FFF.
    pub fn rom_read_byte(&self, offset: usize) -> (r: u8)
        requires
            offset < 0x8000,
        ensures
            r == self.rom_byte(offset as int),
    {
        let phys: usize = if offset < ROM_BANK_SIZE || self.header.cart_type == Mbc::RomOnly {
            offset
        } else {
            let bank = self.current_bank();
            let b: usize = if bank == 0 { 0 } else { (bank - 1) as usize };
            offset + ROM_BANK_SIZE * b
        };
        if phys < self.rom.len() {
            self.rom[phys]
        } else {
            0xFF
        }
    }

    fn ram_index(&self, offset: usize) -> (r: usize)
        requires
            offset < 0x2000,
        ensures
            r as int == self.ram_phys(offset as int),
    {
        match self.header.cart_type {
            Mbc::Mbc3RamBat => (self.ram_bank_rtc as usize) * RAM_BANK_SIZE + offset,
            Mbc::Mbc1 | Mbc::Mbc1Ram | Mbc::Mbc1RamBat => if self.rom_ram_mode == RomRam::Ram {
                (self.ram_bank_rtc as usize) * RAM_BANK_SIZE + offset
            } else {
                offset
            },
            _ => offset,
        }
    }

    /// A read of cartridge RAM, 0xA000 to 0xBFFF.
    pub fn ram_read_byte(&self, offset: usize) -> (r: u8)
        requires
            offset < 0x2000,
        ensures
            r == self.ram_byte(offset as int),
    {
        if !self.ram_timer_enable {
            return 0xFF;
        }
        let p = self.ram_index(offset);
        if p < self.ram.len() {
            self.ram[p]
        } else {
            0xFF
        }
    }

    /// A write to cartridge RAM: stored only when RAM is enabled and present.
    pub fn ram_write_byte(&mut self, offset: usize, value: u8)
        requires
            offset < 0x2000,
        ensures
            final(self).header == old(self).header,
            final(self).rom == old(self).rom,
            final(self).ram_timer_enable == old(self).ram_timer_enable,
            final(self).rom_bank == old(self).rom_bank,
            final(self).ram_bank_rtc == old(self).ram_bank_rtc,
            final(self).rom_ram_mode == old(self).rom_ram_mode,
            final(self).ram@ == (if old(self).ram_timer_enable && old(self).ram_phys(offset as int)
                < old(self).ram@.len() {
                old(self).ram@.update(old(self).ram_phys(offset as int), value)
            } else {
                old(self).ram@
            }),
    {
        if self.ram_timer_enable {
            let p = self.ram_index(offset);
            if p < self.ram.len() {
                self.ram.set(p, value);
            }
        }
    }

    /// A write into the ROM area, taken as a bank-control write.
    pub fn mbc_write_byte(&mut self, offset: usize, value: u8)
        requires
            offset < 0x8000,
        ensures
            *final(self) == old(self).after_mbc_write(offset as int, value),
    {
        match self.header.cart_type {
            Mbc::RomOnly => {},
            Mbc::Mbc1 | Mbc::Mbc1Ram | Mbc::Mbc1RamBat => self.mbc1_write(offset, value),
            Mbc::Mbc3RamBat => self.mbc3_write(offset, value),
        }
    }

    fn mbc1_write(&mut self, offset: usize, value: u8)
        requires
            offset < 0x8000,
            is_mbc1(old(self).header.cart_type),
        ensures
            *final(self) == old(self).after_mbc_write(offset as int, value),
    {
        if offset < 0x2000 {
            self.ram_timer_enable = value & 0x0F == 0x0A;
        } else if offset < 0x4000 {
            self.rom_bank = (self.rom_bank & 0x60) | (value & 0x1F);
        } else if offset < 0x6000 {
            self.rom_bank = (self.rom_bank & 0x1F) | ((value & 0x03) << 5u8);
            self.ram_bank_rtc = value & 0x03;
        } else {
            self.rom_ram_mode = if value & 1 == 0 { RomRam::Rom } else { RomRam::Ram };
        }
    }

    fn mbc3_write(&mut self, offset: usize, value: u8)
        requires
            offset < 0x8000,
            old(self).header.cart_type == Mbc::Mbc3RamBat,
        ensures
            *final(self) == old(self).after_mbc_write(offset as int, value),
    {
        if offset < 0x2000 {
            self.ram_timer_enable = value & 0x0F == 0x0A;
        } else if offset < 0x4000 {
            self.rom_bank = value & 0x7F;
        } else if offset < 0x6000 {
            self.ram_bank_rtc = value & 0x0F;
        }
    }
}

/// Banks 0 and 1 alias: with either selected the switchable window shows image bank 1, and
/// the fixed window always shows the start of the image.
pub proof fn lemma_banking_boundary(c: Cart)
    requires
        c.header.cart_type != Mbc::RomOnly,
        c.rom@.len() >= 0x8000,
        c.current_rom_bank() <= 1,
    ensures
        c.rom_byte(0x4000) == c.rom@[0x4000],
        c.rom_byte(0) == c.rom@[0],
{
}

/// With bank N > 1 selected, a read of offset 0x4000 is moved on by (N - 1) * 0x4000 bytes,
/// to the image byte at N * 0x4000.
pub proof fn lemma_banking_select(c: Cart, n: u8)
    requires
        c.header.cart_type != Mbc::RomOnly,
        c.current_rom_bank() == n,
        n > 1,
        (n as int) * 0x4000 < c.rom@.len(),
    ensures
        c.rom_byte(0x4000) == c.rom@[(n as int) * 0x4000],
{
}

} // verus!
