use vstd::prelude::*;

verus! {

/// The four condition flags of the processor.
#[derive(Clone, Copy, PartialEq, Eq, Structural, Debug)]
pub struct Flags {
    pub zero: bool,
    pub sub: bool,
    pub half: bool,
    pub carry: bool,
}

/// The packed flags byte: zero, subtract, half-carry, carry in bits 7..4, bits 3..0 clear.
pub open spec fn pack_spec(f: Flags) -> u8 {
    ((if f.zero { 0x80u8 } else { 0u8 }) | (if f.sub { 0x40u8 } else { 0u8 }) | (if f.half {
        0x20u8
    } else {
        0u8
    }) | (if f.carry { 0x10u8 } else { 0u8 })) as u8
}

/// The flags that a packed byte describes; bits 3..0 are ignored.
pub open spec fn unpack_spec(b: u8) -> Flags {
    Flags {
        zero: b & 0x80 != 0,
        sub: b & 0x40 != 0,
        half: b & 0x20 != 0,
        carry: b & 0x10 != 0,
    }
}

impl Flags {
    pub fn new() -> (r: Flags)
        ensures
            r == (Flags { zero: false, sub: false, half: false, carry: false }),
    {
        Flags { zero: false, sub: false, half: false, carry: false }
    }

    pub fn pack(&self) -> (r: u8)
        ensures
            r == pack_spec(*self),
            r & 0x0F == 0,
    {
        let r: u8 = (if self.zero { 0x80u8 } else { 0u8 }) | (if self.sub { 0x40u8 } else { 0u8 }) | (
        if self.half {
            0x20u8
        } else {
            0u8
        }) | (if self.carry { 0x10u8 } else { 0u8 });
        proof {
            lemma_pack_low_clear(*self);
        }
        r
    }

    pub fn unpack(b: u8) -> (r: Flags)
        ensures
            r == unpack_spec(b),
    {
        Flags { zero: b & 0x80 != 0, sub: b & 0x40 != 0, half: b & 0x20 != 0, carry: b & 0x10 != 0 }
    }
}

/// A packed byte has its low nibble clear.
pub proof fn lemma_pack_low_clear(f: Flags)
    ensures
        pack_spec(f) & 0x0F == 0,
{
    let z = f.zero;
    let s = f.sub;
    let h = f.half;
    let c = f.carry;
    assert((((if z { 0x80u8 } else { 0u8 }) | (if s { 0x40u8 } else { 0u8 }) | (if h { 0x20u8 } else { 0u8 }) | (if c { 0x10u8 } else { 0u8 })) as u8) & 0x0F == 0) by (bit_vector);
}

/// Unpacking a packed byte gives back the same flags.
pub proof fn lemma_unpack_pack(f: Flags)
    ensures
        unpack_spec(pack_spec(f)) == f,
{
    let z = f.zero;
    let s = f.sub;
    let h = f.half;
    let c = f.carry;
    let b = pack_spec(f);
    assert(b & 0x80 != 0 <==> z) by (bit_vector)
        requires b == ((if z { 0x80u8 } else { 0u8 }) | (if s { 0x40u8 } else { 0u8 }) | (if h { 0x20u8 } else { 0u8 }) | (if c { 0x10u8 } else { 0u8 }));
    assert(b & 0x40 != 0 <==> s) by (bit_vector)
        requires b == ((if z { 0x80u8 } else { 0u8 }) | (if s { 0x40u8 } else { 0u8 }) | (if h { 0x20u8 } else { 0u8 }) | (if c { 0x10u8 } else { 0u8 }));
    assert(b & 0x20 != 0 <==> h) by (bit_vector)
        requires b == ((if z { 0x80u8 } else { 0u8 }) | (if s { 0x40u8 } else { 0u8 }) | (if h { 0x20u8 } else { 0u8 }) | (if c { 0x10u8 } else { 0u8 }));
    assert(b & 0x10 != 0 <==> c) by (bit_vector)
        requires b == ((if z { 0x80u8 } else { 0u8 }) | (if s { 0x40u8 } else { 0u8 }) | (if h { 0x20u8 } else { 0u8 }) | (if c { 0x10u8 } else { 0u8 }));
}

} // verus!
