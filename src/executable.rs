use vstd::prelude::*;
use crate::byte_stream::{fits, ByteStream};

verus! {

/// What an executed instruction did beyond the registers and the image.
#[derive(Debug, Clone, Copy, PartialEq, Eq, Structural)]
pub enum InteruptChange {
    /// No observable effect.
    NoChange,
    /// The image bytes `[start, end)` were emitted to the console.
    String(u16, u16),
}

/// The executable container formats.
#[derive(Debug, Clone, Copy, PartialEq, Eq, Structural)]
pub enum Signature {
    MZ,
    NE,
    LE,
    LX,
    PE,
}

/// A container format that follows the DOS header.
pub trait ExecutableType {
    /// The signature of the format.
    fn signature(&self) -> Signature;

    /// Reads the format's header from the cursor on.
    fn read(bst: &mut ByteStream) -> Self where Self: Sized;
}

/// A Windows "new executable" (NE); its header is not read yet.
pub struct NewExecutable {}

impl ExecutableType for NewExecutable {
    fn signature(&self) -> Signature {
        Signature::NE
    }

    fn read(_bst: &mut ByteStream) -> Self where Self: Sized {
        NewExecutable {  }
    }
}

/// The format whose signature stands under the cursor: `NE` for a new
/// executable; `None` for any other bytes, or too few.
pub fn format_after_header(bst: &ByteStream) -> (r: Option<Signature>)
    ensures
        r == (if fits(bst@.len() as int, bst.cursor() as int, 2) && bst@[bst.cursor() as int] == 0x4E
            && bst@[bst.cursor() + 1] == 0x45 {
            Some(Signature::NE)
        } else {
            None
        }),
{
    match bst.peek_bytes(2) {
        Ok(magic) => {
            if magic[0] == 0x4E && magic[1] == 0x45 {
                Some(Signature::NE)
            } else {
                None
            }
        },
        Err(_) => None,
    }
}

} // verus!
