//! Request decoder: parses an opaque instruction payload into a typed
//! `MixInstruction`.
//!
//! The payload layout is a one-byte variant tag (`0` for `InitializeMix`)
//! followed by the little-endian `u64` amount, the `u8` layer count and the
//! little-endian `u64` seed.  Trailing bytes are ignored.  No semantic
//! validation (ranges, limits) happens here; that is the engine's job.

use vstd::bytes::spec_u64_from_le_bytes;
use vstd::bytes::u64_from_le_bytes;
use vstd::prelude::*;
use vstd::slice::slice_index_get;
use vstd::slice::slice_subrange;

use crate::error::MixError;

verus! {

/// The single instruction the program accepts.
#[derive(Debug, Clone, Copy, PartialEq, Eq, Structural)]
pub enum MixInstruction {
    InitializeMix {
        /// Amount moved at every hop.
        amount: u64,
        /// Number of intermediate sub-accounts to route through.
        mix_layers: u8,
        /// Caller-chosen seed namespacing the intermediate sub-accounts.
        seed: u64,
    },
}

/// A payload decodes successfully exactly when it has at least the 18 bytes
/// of an `InitializeMix` record and carries its variant tag.
pub open spec fn instruction_well_formed(data: Seq<u8>) -> bool {
    data.len() >= 18 && data[0] == 0u8
}

/// The amount carried by a well-formed payload.
pub open spec fn decoded_amount(data: Seq<u8>) -> u64 {
    spec_u64_from_le_bytes(data.subrange(1, 9))
}

/// The layer count carried by a well-formed payload.
pub open spec fn decoded_layers(data: Seq<u8>) -> u8 {
    data[9]
}

/// The seed carried by a well-formed payload.
pub open spec fn decoded_seed(data: Seq<u8>) -> u64 {
    spec_u64_from_le_bytes(data.subrange(10, 18))
}

/// The request encoded in a well-formed payload.
pub open spec fn spec_decode_instruction(data: Seq<u8>) -> MixInstruction
    recommends
        instruction_well_formed(data),
{
    MixInstruction::InitializeMix {
        amount: decoded_amount(data),
        mix_layers: decoded_layers(data),
        seed: decoded_seed(data),
    }
}

/// Decodes an instruction payload, failing with `InvalidInstructionData`
/// exactly on malformed input.
pub fn decode_instruction(data: &[u8]) -> (r: Result<MixInstruction, MixError>)
    ensures
        r is Ok <==> instruction_well_formed(data@),
        r matches Ok(ins) ==> ins == spec_decode_instruction(data@),
        r is Err ==> r == Err::<MixInstruction, MixError>(MixError::InvalidInstructionData),
{
    if data.len() < 18 {
        return Err(MixError::InvalidInstructionData);
    }
    if *slice_index_get(data, 0) != 0u8 {
        return Err(MixError::InvalidInstructionData);
    }
    let amount = u64_from_le_bytes(slice_subrange(data, 1, 9));
    let mix_layers = *slice_index_get(data, 9);
    let seed = u64_from_le_bytes(slice_subrange(data, 10, 18));
    Ok(MixInstruction::InitializeMix { amount, mix_layers, seed })
}

} // verus!
