//! The conditions on which the machine cannot go on.
use vstd::prelude::*;

verus! {

/// A fatal condition: a cartridge that cannot be loaded, or a request at
/// run time that the core does not carry out. The host reports it and stops.
#[derive(Clone, Copy, Debug, PartialEq, Eq, Structural)]
pub enum Fault {
    /// A base opcode with no defined behaviour was fetched at `address`.
    UnknownOpcode { opcode: u8, address: u16 },
    /// The header names a bank controller that is not one of the four
    /// families.
    UnsupportedCartridge { kind: u8 },
    /// The header's ROM size code is above 8.
    UnsupportedRomSize { code: u8 },
    /// The header's RAM size code is above 5.
    UnsupportedRamSize { code: u8 },
    /// The bank count is outside what the controller can address.
    BankCount { count: u16 },
    /// The image ends before the header fields.
    TruncatedImage,
    /// The boot ROM has not the size that the machine's generation asks
    /// for.
    BootRomSize,
    /// The image is longer than the ROM banks it declares.
    OversizedImage,
    /// The saved RAM is longer than the RAM banks the header declares.
    OversizedSave,
    /// A video RAM transfer paced by horizontal blanking was requested.
    HblankDma,
    /// A speed switch was armed on a monochrome machine.
    SpeedSwitchOnMonochrome,
}

} // verus!
