//! What can go wrong while a cartridge is disassembled.

use vstd::prelude::*;
use vstd::string::StringExecFns;

verus! {

/// Why a cartridge could not be disassembled. Each of these ends the run:
/// nothing is produced for a cartridge that fails.
#[derive(Clone, Copy, Debug, PartialEq, Eq, Structural)]
pub enum DisasmError {
    /// The image ends before the part of the header that is always read.
    UnexpectedEof,
    /// The image does not begin with the iNES signature.
    NotInes,
    /// The code/data log does not have one byte for each byte of program
    /// ROM, so it was not recorded from this cartridge.
    TraceMismatch,
}

impl DisasmError {
    /// The text of the diagnostic.
    pub open spec fn text(self) -> Seq<char> {
        match self {
            DisasmError::UnexpectedEof => "The file ends inside the iNES header."@,
            DisasmError::NotInes => "This file is not an iNES ROM."@,
            DisasmError::TraceMismatch => "The code/data log does not match the program ROM."@,
        }
    }

    /// The diagnostic to show for this error.
    pub fn message(&self) -> (r: String)
        ensures
            r@ == self.text(),
    {
        match self {
            DisasmError::UnexpectedEof => String::from_str("The file ends inside the iNES header."),
            DisasmError::NotInes => String::from_str("This file is not an iNES ROM."),
            DisasmError::TraceMismatch => String::from_str(
                "The code/data log does not match the program ROM.",
            ),
        }
    }
}

} // verus!
