use vstd::prelude::*;

use crate::flags::Flags;

verus! {

/// Carry-in as a number.
pub open spec fn bit_of(c: bool) -> u16 {
    if c { 1 } else { 0 }
}

/// 8-bit addition `a + v + carry_in`: result and flags.
pub open spec fn add8_spec(a: u8, v: u8, cin: bool) -> (u8, Flags) {
    let r = (((a as u16) + (v as u16) + bit_of(cin)) % 256) as u8;
    (r, Flags {
        zero: r == 0,
        sub: false,
        half: ((a & 0x0F) as u16) + ((v & 0x0F) as u16) + bit_of(cin) > 0x0F,
        carry: (a as u16) + (v as u16) + bit_of(cin) > 0xFF,
    })
}

/// 8-bit subtraction `a - v - carry_in`: result and flags.
pub open spec fn sub8_spec(a: u8, v: u8, cin: bool) -> (u8, Flags) {
    let r = (((a as u16) + 256 - (v as u16) - bit_of(cin)) % 256) as u8;
    (r, Flags {
        zero: r == 0,
        sub: true,
        half: ((a & 0x0F) as u16) < ((v & 0x0F) as u16) + bit_of(cin),
        carry: (a as u16) < (v as u16) + bit_of(cin),
    })
}

pub open spec fn and8_spec(a: u8, v: u8) -> (u8, Flags) {
    let r = a & v;
    (r, Flags { zero: r == 0, sub: false, half: true, carry: false })
}

pub open spec fn or8_spec(a: u8, v: u8) -> (u8, Flags) {
    let r = a | v;
    (r, Flags { zero: r == 0, sub: false, half: false, carry: false })
}

pub open spec fn xor8_spec(a: u8, v: u8) -> (u8, Flags) {
    let r = a ^ v;
    (r, Flags { zero: r == 0, sub: false, half: false, carry: false })
}

/// Increment: carry is left as it was.
pub open spec fn inc8_spec(v: u8, f: Flags) -> (u8, Flags) {
    let r = (((v as u16) + 1) % 256) as u8;
    (r, Flags { zero: r == 0, sub: false, half: v & 0x0F == 0x0F, carry: f.carry })
}

/// Decrement: carry is left as it was.
pub open spec fn dec8_spec(v: u8, f: Flags) -> (u8, Flags) {
    let r = (((v as u16) + 255) % 256) as u8;
    (r, Flags { zero: r == 0, sub: true, half: v & 0x0F == 0, carry: f.carry })
}

/// 16-bit addition into HL: zero is left as it was, half from bit 11, carry from bit 15.
pub open spec fn add16_spec(hl: u16, v: u16, f: Flags) -> (u16, Flags) {
    let r = (((hl as u32) + (v as u32)) % 65536) as u16;
    (r, Flags {
        zero: f.zero,
        sub: false,
        half: ((hl & 0x0FFF) as u32) + ((v & 0x0FFF) as u32) > 0x0FFF,
        carry: (hl as u32) + (v as u32) > 0xFFFF,
    })
}

/// Stack pointer plus a signed offset; flags from the low byte, as an unsigned add.
pub open spec fn add_sp_spec(sp: u16, e: i8) -> (u16, Flags) {
    let off = (e as i16) as u16;
    let r = (((sp as u32) + (off as u32)) % 65536) as u16;
    (r, Flags {
        zero: false,
        sub: false,
        half: ((sp & 0x0F) as u32) + ((off & 0x0F) as u32) > 0x0F,
        carry: ((sp & 0xFF) as u32) + ((off & 0xFF) as u32) > 0xFF,
    })
}

/// The correction that decimal adjustment adds (after an addition) or takes away (after a
/// subtraction).
pub open spec fn daa_adjust(a: u8, f: Flags) -> u8 {
    if !f.sub {
        ((if f.half || (a & 0x0F) > 9 { 0x06u8 } else { 0u8 }) | (if f.carry || a > 0x99 {
            0x60u8
        } else {
            0u8
        })) as u8
    } else {
        ((if f.half { 0x06u8 } else { 0u8 }) | (if f.carry { 0x60u8 } else { 0u8 })) as u8
    }
}

pub open spec fn daa_spec(a: u8, f: Flags) -> (u8, Flags) {
    let adj = daa_adjust(a, f);
    let r = if !f.sub {
        (((a as u16) + (adj as u16)) % 256) as u8
    } else {
        (((a as u16) + 256 - (adj as u16)) % 256) as u8
    };
    (r, Flags {
        zero: r == 0,
        sub: f.sub,
        half: false,
        carry: f.carry || (!f.sub && a > 0x99),
    })
}

/// Rotate left; bit 7 goes to carry and to bit 0.
pub open spec fn rlc_spec(v: u8) -> (u8, Flags) {
    let r = (((v as u16) * 2) % 256 + (v as u16) / 128) as u8;
    (r, Flags { zero: r == 0, sub: false, half: false, carry: v >= 128 })
}

/// Rotate left through carry.
pub open spec fn rl_spec(v: u8, f: Flags) -> (u8, Flags) {
    let r = (((v as u16) * 2) % 256 + bit_of(f.carry)) as u8;
    (r, Flags { zero: r == 0, sub: false, half: false, carry: v >= 128 })
}

/// Rotate right; bit 0 goes to carry and to bit 7.
pub open spec fn rrc_spec(v: u8) -> (u8, Flags) {
    let r = ((v as u16) / 2 + ((v as u16) % 2) * 128) as u8;
    (r, Flags { zero: r == 0, sub: false, half: false, carry: v % 2 == 1 })
}

/// Rotate right through carry.
pub open spec fn rr_spec(v: u8, f: Flags) -> (u8, Flags) {
    let r = ((v as u16) / 2 + bit_of(f.carry) * 128) as u8;
    (r, Flags { zero: r == 0, sub: false, half: false, carry: v % 2 == 1 })
}

/// Arithmetic shift left.
pub open spec fn sla_spec(v: u8) -> (u8, Flags) {
    let r = (((v as u16) * 2) % 256) as u8;
    (r, Flags { zero: r == 0, sub: false, half: false, carry: v >= 128 })
}

/// Arithmetic shift right: bit 7 is kept.
pub open spec fn sra_spec(v: u8) -> (u8, Flags) {
    let r = ((v as u16) / 2 + ((v as u16) / 128) * 128) as u8;
    (r, Flags { zero: r == 0, sub: false, half: false, carry: v % 2 == 1 })
}

/// Logical shift right.
pub open spec fn srl_spec(v: u8) -> (u8, Flags) {
    let r = v / 2;
    (r, Flags { zero: r == 0, sub: false, half: false, carry: v % 2 == 1 })
}

/// Exchange the two nibbles.
pub open spec fn swap_spec(v: u8) -> (u8, Flags) {
    let r = ((v % 16) * 16 + v / 16) as u8;
    (r, Flags { zero: r == 0, sub: false, half: false, carry: false })
}

/// Test of bit `b`: zero is set when the bit is clear; carry is left as it was.
pub open spec fn bit_spec(b: u8, v: u8, f: Flags) -> Flags {
    Flags { zero: (v >> b) & 1 == 0, sub: false, half: true, carry: f.carry }
}

pub open spec fn set_bit_spec(b: u8, v: u8) -> u8 {
    v | (1u8 << b)
}

pub open spec fn res_bit_spec(b: u8, v: u8) -> u8 {
    v & !(1u8 << b)
}

pub fn add8(a: u8, v: u8, cin: bool) -> (r: (u8, Flags))
    ensures
        r == add8_spec(a, v, cin),
        r.1.zero <==> (a as int + v as int + bit_of(cin)) % 256 == 0,
        r.1.half <==> (a & 0x0F) as int + (v & 0x0F) as int + bit_of(cin) > 0x0F,
        r.1.carry <==> a as int + v as int + bit_of(cin) > 255,
        !r.1.sub,
{
    let c: u16 = if cin { 1 } else { 0 };
    let r = (((a as u16) + (v as u16) + c) % 256) as u8;
    (r, Flags {
        zero: r == 0,
        sub: false,
        half: ((a & 0x0F) as u16) + ((v & 0x0F) as u16) + c > 0x0F,
        carry: (a as u16) + (v as u16) + c > 0xFF,
    })
}

pub fn sub8(a: u8, v: u8, cin: bool) -> (r: (u8, Flags))
    ensures
        r == sub8_spec(a, v, cin),
        r.1.zero <==> (a as int - v as int - bit_of(cin)) % 256 == 0,
        r.1.half <==> ((a & 0x0F) as int) < (v & 0x0F) as int + bit_of(cin),
        r.1.carry <==> (a as int) < v as int + bit_of(cin),
        r.1.sub,
{
    let c: u16 = if cin { 1 } else { 0 };
    let r = (((a as u16) + 256 - (v as u16) - c) % 256) as u8;
    proof {
        let x = (a as u16) + 256 - (v as u16) - c;
        assert(x as int == a as int - v as int - c as int + 256);
        assert((x as int) % 256 == (a as int - v as int - c as int) % 256) by {
            vstd::arithmetic::div_mod::lemma_mod_add_multiples_vanish(
                a as int - v as int - c as int,
                256,
            );
        }
    }
    (r, Flags {
        zero: r == 0,
        sub: true,
        half: ((a & 0x0F) as u16) < ((v & 0x0F) as u16) + c,
        carry: (a as u16) < (v as u16) + c,
    })
}

pub fn and8(a: u8, v: u8) -> (r: (u8, Flags))
    ensures
        r == and8_spec(a, v),
{
    let r = a & v;
    (r, Flags { zero: r == 0, sub: false, half: true, carry: false })
}

pub fn or8(a: u8, v: u8) -> (r: (u8, Flags))
    ensures
        r == or8_spec(a, v),
{
    let r = a | v;
    (r, Flags { zero: r == 0, sub: false, half: false, carry: false })
}

pub fn xor8(a: u8, v: u8) -> (r: (u8, Flags))
    ensures
        r == xor8_spec(a, v),
{
    let r = a ^ v;
    (r, Flags { zero: r == 0, sub: false, half: false, carry: false })
}

pub fn inc8(v: u8, f: Flags) -> (r: (u8, Flags))
    ensures
        r == inc8_spec(v, f),
{
    let r = (((v as u16) + 1) % 256) as u8;
    (r, Flags { zero: r == 0, sub: false, half: v & 0x0F == 0x0F, carry: f.carry })
}

pub fn dec8(v: u8, f: Flags) -> (r: (u8, Flags))
    ensures
        r == dec8_spec(v, f),
{
    let r = (((v as u16) + 255) % 256) as u8;
    (r, Flags { zero: r == 0, sub: true, half: v & 0x0F == 0, carry: f.carry })
}

pub fn add16(hl: u16, v: u16, f: Flags) -> (r: (u16, Flags))
    ensures
        r == add16_spec(hl, v, f),
{
    let r = (((hl as u32) + (v as u32)) % 65536) as u16;
    (r, Flags {
        zero: f.zero,
        sub: false,
        half: ((hl & 0x0FFF) as u32) + ((v & 0x0FFF) as u32) > 0x0FFF,
        carry: (hl as u32) + (v as u32) > 0xFFFF,
    })
}

pub fn add_sp(sp: u16, e: i8) -> (r: (u16, Flags))
    ensures
        r == add_sp_spec(sp, e),
{
    let off: u16 = #[verifier::truncate] ((e as i16) as u16);
    let r = (((sp as u32) + (off as u32)) % 65536) as u16;
    (r, Flags {
        zero: false,
        sub: false,
        half: ((sp & 0x0F) as u32) + ((off & 0x0F) as u32) > 0x0F,
        carry: ((sp & 0xFF) as u32) + ((off & 0xFF) as u32) > 0xFF,
    })
}

pub fn daa(a: u8, f: Flags) -> (r: (u8, Flags))
    ensures
        r == daa_spec(a, f),
{
    let adj: u8 = if !f.sub {
        (if f.half || (a & 0x0F) > 9 { 0x06u8 } else { 0u8 }) | (if f.carry || a > 0x99 {
            0x60u8
        } else {
            0u8
        })
    } else {
        (if f.half { 0x06u8 } else { 0u8 }) | (if f.carry { 0x60u8 } else { 0u8 })
    };
    let r = if !f.sub {
        (((a as u16) + (adj as u16)) % 256) as u8
    } else {
        (((a as u16) + 256 - (adj as u16)) % 256) as u8
    };
    (r, Flags { zero: r == 0, sub: f.sub, half: false, carry: f.carry || (!f.sub && a > 0x99) })
}

pub fn rlc(v: u8) -> (r: (u8, Flags))
    ensures
        r == rlc_spec(v),
{
    let r = (((v as u16) * 2) % 256 + (v as u16) / 128) as u8;
    (r, Flags { zero: r == 0, sub: false, half: false, carry: v >= 128 })
}

pub fn rl(v: u8, f: Flags) -> (r: (u8, Flags))
    ensures
        r == rl_spec(v, f),
{
    let c: u16 = if f.carry { 1 } else { 0 };
    let r = (((v as u16) * 2) % 256 + c) as u8;
    (r, Flags { zero: r == 0, sub: false, half: false, carry: v >= 128 })
}

pub fn rrc(v: u8) -> (r: (u8, Flags))
    ensures
        r == rrc_spec(v),
{
    let r = ((v as u16) / 2 + ((v as u16) % 2) * 128) as u8;
    (r, Flags { zero: r == 0, sub: false, half: false, carry: v % 2 == 1 })
}

pub fn rr(v: u8, f: Flags) -> (r: (u8, Flags))
    ensures
        r == rr_spec(v, f),
{
    let c: u16 = if f.carry { 1 } else { 0 };
    let r = ((v as u16) / 2 + c * 128) as u8;
    (r, Flags { zero: r == 0, sub: false, half: false, carry: v % 2 == 1 })
}

pub fn sla(v: u8) -> (r: (u8, Flags))
    ensures
        r == sla_spec(v),
{
    let r = (((v as u16) * 2) % 256) as u8;
    (r, Flags { zero: r == 0, sub: false, half: false, carry: v >= 128 })
}

pub fn sra(v: u8) -> (r: (u8, Flags))
    ensures
        r == sra_spec(v),
{
    let r = ((v as u16) / 2 + ((v as u16) / 128) * 128) as u8;
    (r, Flags { zero: r == 0, sub: false, half: false, carry: v % 2 == 1 })
}

pub fn srl(v: u8) -> (r: (u8, Flags))
    ensures
        r == srl_spec(v),
{
    let r = v / 2;
    (r, Flags { zero: r == 0, sub: false, half: false, carry: v % 2 == 1 })
}

pub fn swap(v: u8) -> (r: (u8, Flags))
    ensures
        r == swap_spec(v),
{
    let r = ((v % 16) * 16 + v / 16) as u8;
    (r, Flags { zero: r == 0, sub: false, half: false, carry: false })
}

pub fn bit(b: u8, v: u8, f: Flags) -> (r: Flags)
    requires
        b < 8,
    ensures
        r == bit_spec(b, v, f),
{
    Flags { zero: (v >> b) & 1 == 0, sub: false, half: true, carry: f.carry }
}

pub fn set_bit(b: u8, v: u8) -> (r: u8)
    requires
        b < 8,
    ensures
        r == set_bit_spec(b, v),
{
    v | (1u8 << b)
}

pub fn res_bit(b: u8, v: u8) -> (r: u8)
    requires
        b < 8,
    ensures
        r == res_bit_spec(b, v),
{
    v & !(1u8 << b)
}

} // verus!
