use vstd::prelude::*;

verus! {

/// Faults surfaced by the emulator: executing an undocumented opcode, or
/// loading an image that does not fit in the 64 KiB address space.
#[derive(Clone, Copy, Debug, PartialEq, Eq, Structural)]
pub enum EmuError {
    /// An opcode outside the documented instruction set was fetched; carries
    /// the opcode byte and the address it was fetched from.
    UnknownOpcode { opcode: u8, pc: u16 },
    /// A load would run past the end of the address space; carries the
    /// requested origin and the length of the rejected image.
    ImageTooLarge { origin: u16, len: usize },
}

} // verus!
