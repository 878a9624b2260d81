use rustboy::alu::{add8, sub8};
use rustboy::cart::Cart;
use rustboy::color::Color;
use rustboy::cpu::Cpu;
use rustboy::dmg::{pending_interrupt, Dmg};
use rustboy::fault::Fault;
use rustboy::flags::Flags;
use rustboy::interconnect::Interconnect;
use rustboy::mem_map::{map_addr, Addr};
use rustboy::opcode::{decode, Instruction, Opcode, Operand8};
use rustboy::ppu::{Mode, Ppu};
use rustboy::regs::{Reg16, Reg8, Regs};
use rustboy::timer::Timer;

fn rom_with(cart_type: u8, rom_code: u8, ram_code: u8, banks: usize) -> Vec<u8> {
    let mut rom = vec![0u8; banks * 0x4000];
    for (i, b) in rom.iter_mut().enumerate() {
        *b = (i / 0x4000) as u8 ^ (i as u8);
    }
    rom[0x147] = cart_type;
    rom[0x148] = rom_code;
    rom[0x149] = ram_code;
    rom
}

fn bus() -> Interconnect {
    Interconnect::new(Vec::new(), rom_with(0x01, 2, 2, 8)).unwrap()
}

#[test]
fn add_flags_all_pairs() {
    for a in 0..=255u8 {
        for b in 0..=255u8 {
            let (r, f) = add8(a, b, false);
            assert_eq!(r, a.wrapping_add(b));
            assert_eq!(f.zero, (a as u16 + b as u16) % 256 == 0);
            assert_eq!(f.half, (a & 0xF) + (b & 0xF) > 0xF);
            assert_eq!(f.carry, a as u16 + b as u16 > 255);
            assert!(!f.sub);
        }
    }
}

#[test]
fn sub_and_cp_flags_all_pairs() {
    for a in 0..=255u8 {
        for b in 0..=255u8 {
            let (r, f) = sub8(a, b, false);
            assert_eq!(r, a.wrapping_sub(b));
            assert_eq!(f.zero, a == b);
            assert_eq!(f.half, (a & 0xF) < (b & 0xF));
            assert_eq!(f.carry, a < b);
            assert!(f.sub);
            let mut regs = Regs::new();
            regs.a = a;
            regs.cpi(b);
            assert_eq!(regs.a, a);
            assert_eq!(regs.flags, f);
        }
    }
}

#[test]
fn adc_uses_carry() {
    let mut regs = Regs::new();
    regs.a = 0x0F;
    regs.flags.carry = true;
    regs.addi(0x00, true);
    assert_eq!(regs.a, 0x10);
    assert!(regs.flags.half);
    assert!(!regs.flags.carry);
}

#[test]
fn inc_keeps_carry() {
    let mut regs = Regs::new();
    regs.b = 0xFF;
    regs.flags.carry = true;
    regs.inc(Reg8::B);
    assert_eq!(regs.b, 0);
    assert!(regs.flags.zero && regs.flags.half && regs.flags.carry);
}

#[test]
fn flags_pack_round_trip() {
    let f = Flags { zero: true, sub: false, half: true, carry: false };
    assert_eq!(f.pack(), 0xA0);
    assert_eq!(Flags::unpack(0xA5), f);
}

#[test]
fn push_pop_round_trip_every_pair() {
    for reg in [Reg16::AF, Reg16::BC, Reg16::DE, Reg16::HL] {
        let mut bus = bus();
        let mut cpu = Cpu::new();
        cpu.regs.sp = 0xDFF0;
        cpu.regs.write16(0x12F0, Reg16::AF);
        cpu.regs.write16(0x3456, Reg16::BC);
        cpu.regs.write16(0x789A, Reg16::DE);
        cpu.regs.write16(0xBCDE, Reg16::HL);
        let before = cpu.regs.read16(reg);
        cpu.execute(Opcode::Push(reg), &mut bus).unwrap();
        assert_eq!(cpu.regs.sp, 0xDFEE);
        cpu.regs.write16(0x0000, reg);
        cpu.execute(Opcode::Pop(reg), &mut bus).unwrap();
        assert_eq!(cpu.regs.read16(reg), before);
        assert_eq!(cpu.regs.sp, 0xDFF0);
    }
}

#[test]
fn echo_mirrors_work_ram() {
    let mut bus = bus();
    for o in [0u16, 1, 0x100, 0x1DFF] {
        bus.write_byte(0xC000 + o, (o as u8) ^ 0x5A).unwrap();
        assert_eq!(bus.read_byte(0xE000 + o).unwrap(), (o as u8) ^ 0x5A);
        bus.write_byte(0xE000 + o, 0x33).unwrap();
        assert_eq!(bus.read_byte(0xC000 + o).unwrap(), 0x33);
    }
}

#[test]
fn banking_boundary() {
    let rom = rom_with(0x01, 2, 0, 8);
    let expect = rom.clone();
    let mut cart = Cart::new(rom).unwrap();
    let bank0 = cart.rom_read_byte(0x4000);
    cart.mbc_write_byte(0x2000, 1);
    assert_eq!(cart.rom_read_byte(0x4000), bank0);
    assert_eq!(cart.rom_read_byte(0x4000), expect[0x4000]);
    assert_eq!(cart.rom_read_byte(0x0000), expect[0]);
    cart.mbc_write_byte(0x2000, 3);
    assert_eq!(cart.rom_read_byte(0x4000), expect[3 * 0x4000]);
    assert_eq!(cart.rom_read_byte(0x4001), expect[3 * 0x4000 + 1]);
}

#[test]
fn cart_ram_gated_by_enable() {
    let mut cart = Cart::new(rom_with(0x03, 2, 2, 8)).unwrap();
    cart.ram_write_byte(0x10, 0x42);
    assert_eq!(cart.ram_read_byte(0x10), 0xFF);
    cart.mbc_write_byte(0x0000, 0x0A);
    cart.ram_write_byte(0x10, 0x42);
    assert_eq!(cart.ram_read_byte(0x10), 0x42);
}

#[test]
fn unsupported_cartridge_is_fatal() {
    let r = Cart::new(rom_with(0x20, 0, 0, 2));
    assert!(matches!(r, Err(Fault::UnsupportedCartridge(0x20))));
    let r = Cart::new(rom_with(0x00, 9, 0, 2));
    assert!(matches!(r, Err(Fault::UnknownRomSize(9))));
    let r = Cart::new(rom_with(0x00, 0, 7, 2));
    assert!(matches!(r, Err(Fault::UnknownRamSize(7))));
}

#[test]
fn interrupt_priority() {
    assert_eq!(pending_interrupt(0b00011, 0b00011), Some(0));
    assert_eq!(pending_interrupt(0b00010, 0b00011), Some(1));
    assert_eq!(pending_interrupt(0b00100, 0b00011), None);
    let mut dmg = Dmg::new(Vec::new(), rom_with(0x01, 2, 0, 8)).unwrap();
    dmg.interconnect.io.iflags = 0b00011;
    dmg.interconnect.io.ie_reg = 0b00011;
    dmg.cpu.ime = true;
    dmg.cpu.regs.sp = 0xDFF0;
    assert_eq!(dmg.proc_interrupts().unwrap(), 4);
    assert_eq!(dmg.cpu.regs.pc, 0x40);
    assert_eq!(dmg.interconnect.io.iflags, 0b00010);
    assert!(!dmg.cpu.ime);
}

#[test]
fn disabled_master_enable_clears_flag_without_jump() {
    let mut dmg = Dmg::new(Vec::new(), rom_with(0x01, 2, 0, 8)).unwrap();
    dmg.interconnect.io.iflags = 0b00101;
    dmg.interconnect.io.ie_reg = 0b00100;
    dmg.cpu.ime = false;
    dmg.cpu.halted = true;
    assert_eq!(dmg.proc_interrupts().unwrap(), 0);
    assert_eq!(dmg.interconnect.io.iflags, 0b00001);
    assert!(!dmg.cpu.halted);
    assert_eq!(dmg.cpu.regs.pc, 0x0100);
}

#[test]
fn undefined_opcode_in_stream_faults_at_its_address() {
    let mut rom = rom_with(0x00, 0, 0, 2);
    rom[0x100] = 0xD3;
    let mut dmg = Dmg::new(Vec::new(), rom).unwrap();
    assert_eq!(dmg.step(), Err(Fault::UndefinedOpcode(0x0100, 0xD3)));
}

#[test]
fn stat_enable_write_rearms_edge() {
    let mut ppu = Ppu::new();
    ppu.write_lcd_stat(0x40);
    ppu.step(4);
    assert!(ppu.stat_line);
    ppu.write_lcd_stat(0x08);
    assert!(!ppu.stat_line);
    ppu.step(76);
    ppu.step(80);
    ppu.step(80);
    let r = ppu.step(12);
    assert_eq!(ppu.mode, Mode::Hblank);
    assert_eq!(r & 2, 2);
}

#[test]
fn pixel_unit_timing() {
    let mut ppu = Ppu::new();
    for _ in 0..20 {
        ppu.step(4);
    }
    assert_eq!(ppu.mode, Mode::Vram);
    for _ in 0..43 {
        ppu.step(4);
    }
    assert_eq!(ppu.mode, Mode::Hblank);
    for _ in 0..51 {
        ppu.step(4);
    }
    assert_eq!(ppu.mode, Mode::Oam);
    assert_eq!(ppu.line, 1);

    let mut ppu = Ppu::new();
    ppu.line = 143;
    ppu.step(80);
    ppu.step(80);
    ppu.step(80);
    ppu.step(12);
    assert_eq!(ppu.mode, Mode::Hblank);
    let mut req = 0;
    for _ in 0..51 {
        req |= ppu.step(4);
    }
    assert_eq!(ppu.mode, Mode::Vblank);
    assert_eq!(ppu.line, 144);
    assert_eq!(req & 1, 1);
}

#[test]
fn vblank_lasts_ten_lines() {
    let mut ppu = Ppu::new();
    ppu.line = 144;
    ppu.mode = Mode::Vblank;
    for _ in 0..(10 * 456 / 4) {
        ppu.step(4);
    }
    assert_eq!(ppu.mode, Mode::Oam);
    assert_eq!(ppu.line, 0);
}

fn sprite_scene(idx_a: usize, idx_b: usize) -> Ppu {
    let mut ppu = Ppu::new();
    ppu.mode = Mode::Hblank;
    ppu.tile_data_unsigned = true;
    // tile 1: every pixel value 1; tile 2: every pixel value 3
    for row in 0..8 {
        ppu.write_vram(16 + row * 2, 0xFF);
        ppu.write_vram(16 + row * 2 + 1, 0x00);
        ppu.write_vram(32 + row * 2, 0xFF);
        ppu.write_vram(32 + row * 2 + 1, 0xFF);
    }
    ppu.write_obj0_palette(0b11_10_01_00);
    for (idx, tile) in [(idx_a, 1u8), (idx_b, 2u8)] {
        ppu.write_oam(idx * 4, 16);
        ppu.write_oam(idx * 4 + 1, 8);
        ppu.write_oam(idx * 4 + 2, tile);
        ppu.write_oam(idx * 4 + 3, 0);
    }
    ppu.mode = Mode::Vram;
    ppu.line = 0;
    ppu.modeclock = 0;
    ppu.step(80);
    ppu.step(80);
    ppu.step(12);
    ppu
}

#[test]
fn sprite_tie_break_lower_index_wins() {
    let ppu = sprite_scene(3, 7);
    assert_eq!(ppu.framebuffer()[0], Color::Light);
    let ppu = sprite_scene(7, 3);
    assert_eq!(ppu.framebuffer()[0], Color::On);
}

#[test]
fn timer_overflow_reloads_modulo() {
    let mut t = Timer::new();
    t.write_timer_control(0b101);
    t.modulo = 0xAB;
    t.write_counter(0xFF);
    let overflow = t.step(16);
    assert!(overflow);
    assert_eq!(t.read_counter(), 0xAB);
    assert_eq!(t.read_div_reg(), 0);
    t.step(256);
    assert_eq!(t.read_div_reg(), 1);
}

#[test]
fn divider_write_can_tick() {
    let mut t = Timer::new();
    t.write_timer_control(0b101);
    t.step(8);
    assert_eq!(t.read_counter(), 0);
    t.write_div_reg();
    assert_eq!(t.read_counter(), 1);
}

#[test]
fn unmapped_address_faults() {
    let mut bus = bus();
    assert_eq!(bus.read_byte(0xFF03), Err(Fault::UnmappedAddress(0xFF03)));
    assert_eq!(bus.write_byte(0xFF4C, 1), Err(Fault::UnmappedAddress(0xFF4C)));
    assert_eq!(bus.read_byte(0xFEA0).unwrap(), 0xFF);
    assert!(matches!(map_addr(0xFF80), Addr::Hram(0)));
}

#[test]
fn undefined_opcode_faults() {
    let mut cpu = Cpu::new();
    let mut bus = bus();
    assert_eq!(cpu.execute(Opcode::Undefined(0xD3), &mut bus), Err(Fault::UndefinedOpcode(0x0100, 0xD3)));
    assert_eq!(decode(0xD3, 0, 0), Opcode::Undefined(0xD3));
}

#[test]
fn decode_and_lengths() {
    assert_eq!(decode(0x00, 0, 0), Opcode::Nop);
    assert_eq!(decode(0x3E, 0x42, 0), Opcode::Ld(Operand8::Register(Reg8::A), Operand8::Immediate(0x42)));
    assert_eq!(decode(0x76, 0, 0), Opcode::Halt);
    assert_eq!(Instruction::new(decode(0xC3, 0x34, 0x1234)).bytes(), 3);
    assert_eq!(Instruction::new(decode(0xCB, 0x7C, 0)).opcode(), Opcode::Bit(7, Operand8::Register(Reg8::H)));
    assert_eq!(Instruction::new(Opcode::Call(rustboy::regs::JF::Always, 0)).cycles(true), 6);
}

#[test]
fn step_runs_program() {
    let mut rom = rom_with(0x00, 0, 0, 2);
    // LD A,5 ; ADD A,3 ; JR -2 (to itself)
    rom[0x100] = 0x3E;
    rom[0x101] = 0x05;
    rom[0x102] = 0xC6;
    rom[0x103] = 0x03;
    rom[0x104] = 0x18;
    rom[0x105] = 0xFE;
    let mut dmg = Dmg::new(Vec::new(), rom).unwrap();
    assert_eq!(dmg.step().unwrap(), 2);
    assert_eq!(dmg.step().unwrap(), 2);
    assert_eq!(dmg.cpu().regs.a, 8);
    assert_eq!(dmg.step().unwrap(), 3);
    assert_eq!(dmg.cpu().current_pc(), 0x104);
}

#[test]
fn serial_byte_is_handed_out() {
    let mut dmg = Dmg::new(Vec::new(), rom_with(0x00, 0, 0, 2)).unwrap();
    dmg.interconnect.write_byte(0xFF01, b'A').unwrap();
    assert_eq!(dmg.take_serial(), Some(b'A'));
    assert_eq!(dmg.take_serial(), None);
}

#[test]
fn boot_overlay_until_disabled() {
    let mut boot = vec![0u8; 256];
    boot[0] = 0x3E;
    boot[1] = 0x07;
    let mut dmg = Dmg::new(boot, rom_with(0x00, 0, 0, 2)).unwrap();
    assert_eq!(dmg.cpu().current_pc(), 0);
    assert_eq!(dmg.interconnect.read_byte(0x0000).unwrap(), 0x3E);
    dmg.step().unwrap();
    assert_eq!(dmg.cpu().regs.a, 7);
    dmg.interconnect.write_byte(0xFF50, 1).unwrap();
    assert_eq!(dmg.interconnect.read_byte(0x0000).unwrap(), 0x00);
}

#[test]
fn color_rgb() {
    assert_eq!(Color::from_u8(2), Color::Dark);
    assert_eq!((Color::On.red(), Color::On.green(), Color::On.blue()), (15, 56, 15));
}
