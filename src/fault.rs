use vstd::prelude::*;

verus! {

/// A fatal condition: emulation cannot go on past it.
#[derive(Clone, Copy, PartialEq, Eq, Structural, Debug)]
pub enum Fault {
    /// A read or write at an address that no component answers.
    UnmappedAddress(u16),
    /// An opcode with no defined behaviour, with the address it was fetched from.
    UndefinedOpcode(u16, u8),
    /// A cartridge whose banking controller has no implemented decode.
    UnsupportedCartridge(u8),
    /// A header ROM-size code with no meaning.
    UnknownRomSize(u8),
    /// A header RAM-size code with no meaning.
    UnknownRamSize(u8),
}

} // verus!
