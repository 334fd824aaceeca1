//! The two reserved opcodes. The machine has no behaviour for them: decoding
//! one is fatal.

use vstd::prelude::*;
use crate::defs::error::VmError;

verus! {

/// RES, opcode 13: always fails with `InvalidOpcode`.
pub fn op_res() -> (r: Result<bool, VmError>)
    ensures
        r == Err::<bool, VmError>(VmError::InvalidOpcode),
{
    Err(VmError::InvalidOpcode)
}

/// RTI, opcode 8: always fails with `InvalidOpcode`.
pub fn op_rti() -> (r: Result<bool, VmError>)
    ensures
        r == Err::<bool, VmError>(VmError::InvalidOpcode),
{
    Err(VmError::InvalidOpcode)
}

} // verus!
