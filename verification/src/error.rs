//! Error taxonomy of the forwarding protocol.

use vstd::prelude::*;

verus! {

/// Every way a forwarding request can fail.  Each variant is produced on
/// exactly the inputs stated by the contracts in `instruction` and `engine`.
#[derive(Debug, Clone, Copy, PartialEq, Eq, Structural)]
pub enum MixError {
    /// The instruction payload is malformed.
    InvalidInstructionData,
    /// The supplied account list does not have `layer_count + 4` entries.
    NotEnoughAccounts,
    /// The requested layer count lies outside `[1, 4]`.
    InvalidMixLayers,
    /// The payer's balance is below the requested amount.
    InsufficientFunds,
    /// A supplied sub-account does not match the deterministic derivation
    /// for its layer, or the derivation itself found no valid address.
    PDADerivationFailed,
}

} // verus!
