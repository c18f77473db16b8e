//! HCI command opcodes.

use vstd::prelude::*;

verus! {

/// An HCI command opcode: the OGF in the upper 6 bits, the OCF in the lower 10 bits.
#[derive(Copy, Clone, Debug, PartialEq, Eq, Structural)]
pub struct OpCode(pub u16);

} // verus!
