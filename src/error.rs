use vstd::prelude::*;

verus! {

/// Every way decoding or executing an instruction can fail.
///
/// All of them are ordinary result values: no handler of this crate aborts.
#[derive(Debug, Clone, Copy, PartialEq, Eq, Structural)]
pub enum EmuError {
    /// A read would go past the end of the image.
    BufferUnderrun,
    /// The leading opcode byte (or group sub-opcode) has no handler.
    UnsupportedOpcode(u8),
    /// A 3-bit register field names no register of the requested class.
    UnknownRegister,
    /// A pop or a near return found the stack empty.
    StackUnderflow,
    /// A `$`-terminated string has no terminator within its segment.
    TerminatorNotFound,
    /// A repeated instruction decoded to other text than its first decode.
    InconsistentRepeatDecode,
}


} // verus!
