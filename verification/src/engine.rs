//! The forwarding engine: validation and ordered execution of the hops.
//!
//! The caller supplies the account chain `[proxy_payer, payer, recipient,
//! ledger_service, sub_account_0, ..]`.  The engine validates the request
//! (payer balance, chain length, layer bound, and every sub-account
//! identity against its deterministic derivation), then moves the amount
//! payer -> sub_account_0 -> .. -> recipient, authorizing each hop out of a
//! sub-account with that sub-account's own derivation parameters.  The
//! whole invocation is all-or-nothing: no hop is committed unless every hop
//! succeeds.

use vstd::pervasive::unreached;
use vstd::prelude::*;

use crate::chain::sum_balances;
use crate::chain::transfer;
use crate::chain::ChainAccount;
use crate::chain::TransferAuth;
use crate::error::MixError;
use crate::instruction::decode_instruction;
use crate::instruction::decoded_amount;
use crate::instruction::decoded_layers;
use crate::instruction::decoded_seed;
use crate::instruction::instruction_well_formed;
use crate::instruction::MixInstruction;
use crate::pda::derivation_seeds;
use crate::pda::find_program_address_of;
use crate::pda::generate_intermediate_pda;
use crate::pda::generate_pda_signer_seeds;
use crate::pda::identity_eq;
use crate::pda::program_address_of;
use crate::pda::signer_seeds_for;

verus! {

/// Accounts preceding the sub-accounts in the chain: proxy payer, payer,
/// recipient and the ledger service handle.
pub const FIXED_ACCOUNTS: usize = 4;

/// Position of the payer in the chain.
pub const PAYER: usize = 1;

/// Position of the final recipient in the chain.
pub const RECIPIENT: usize = 2;

/// Hard policy bound on the number of layers.
pub const MAX_MIX_LAYERS: u8 = 4;

/// Whether the supplied sub-account for `layer` matches the deterministic
/// derivation for that layer.
pub open spec fn sub_account_matches(
    program_id: Seq<u8>,
    accounts: Seq<ChainAccount>,
    seed: u64,
    layer: int,
) -> bool {
    match find_program_address_of(derivation_seeds(seed, layer as u8), program_id) {
        Some(p) => accounts[FIXED_ACCOUNTS + layer].identity@ == p.0,
        None => false,
    }
}

/// Whether every supplied sub-account matches its derivation.
pub open spec fn sub_accounts_match(
    program_id: Seq<u8>,
    accounts: Seq<ChainAccount>,
    seed: u64,
    mix_layers: u8,
) -> bool {
    forall|i: int| 0 <= i < mix_layers ==> sub_account_matches(program_id, accounts, seed, i)
}

/// The outcome of validating a request against the supplied account chain,
/// checked in this order: enough accounts to hold the fixed prefix, payer
/// balance, exact chain length, layer bound, sub-account derivations.
pub open spec fn validate_request(
    program_id: Seq<u8>,
    accounts: Seq<ChainAccount>,
    amount: u64,
    mix_layers: u8,
    seed: u64,
) -> Result<(), MixError> {
    if accounts.len() < FIXED_ACCOUNTS {
        Err(MixError::NotEnoughAccounts)
    } else if accounts[PAYER as int].balance < amount {
        Err(MixError::InsufficientFunds)
    } else if accounts.len() != mix_layers + FIXED_ACCOUNTS {
        Err(MixError::NotEnoughAccounts)
    } else if mix_layers == 0 || mix_layers > MAX_MIX_LAYERS {
        Err(MixError::InvalidMixLayers)
    } else if !sub_accounts_match(program_id, accounts, seed, mix_layers) {
        Err(MixError::PDADerivationFailed)
    } else {
        Ok(())
    }
}

/// Runs one forwarding request over the account chain.  It succeeds exactly
/// when validation passes; on success the payer is debited the amount, the
/// recipient is credited it, and every other account — the sub-accounts in
/// particular — ends with the balance it started with.  On failure the
/// chain is untouched: no hop is ever left committed.
#[verifier::loop_isolation(false)]
pub fn process_initialize_mix(
    program_id: &[u8; 32],
    accounts: &mut Vec<ChainAccount>,
    amount: u64,
    mix_layer: u8,
    seed: u64,
) -> (r: Result<(), MixError>)
    requires
        sum_balances(old(accounts)@) <= u64::MAX,
    ensures
        r == validate_request(program_id@, old(accounts)@, amount, mix_layer, seed),
        r is Err ==> final(accounts)@ == old(accounts)@,
        final(accounts)@.len() == old(accounts)@.len(),
        forall|k: int|
            0 <= k < old(accounts)@.len() ==> final(accounts)@[k].identity@ == old(
                accounts,
            )@[k].identity@,
        r is Ok ==> final(accounts)@[PAYER as int].balance == old(
            accounts,
        )@[PAYER as int].balance - amount,
        r is Ok ==> final(accounts)@[RECIPIENT as int].balance == old(
            accounts,
        )@[RECIPIENT as int].balance + amount,
        r is Ok ==> forall|k: int|
            0 <= k < old(accounts)@.len() && k != PAYER && k != RECIPIENT ==> final(accounts)@[k].balance == old(accounts)@[k].balance,
        sum_balances(final(accounts)@) == sum_balances(old(accounts)@),
{
    if accounts.len() < FIXED_ACCOUNTS {
        return Err(MixError::NotEnoughAccounts);
    }
    if accounts[PAYER].balance < amount {
        return Err(MixError::InsufficientFunds);
    }
    if accounts.len() != mix_layer as usize + FIXED_ACCOUNTS {
        return Err(MixError::NotEnoughAccounts);
    }
    if mix_layer == 0 || mix_layer > MAX_MIX_LAYERS {
        return Err(MixError::InvalidMixLayers);
    }
    let layer_count = mix_layer as usize;

    // Validate every sub-account against its derivation and record the
    // bump bytes; nothing is transferred unless all of them match.
    let mut bumps: Vec<u8> = Vec::new();
    let mut i: usize = 0;
    while i < layer_count
        invariant
            i <= layer_count,
            bumps@.len() == i,
            forall|k: int|
                0 <= k < i ==> sub_account_matches(program_id@, old(accounts)@, seed, k),
            forall|k: int|
                0 <= k < i ==> program_address_of(
                    signer_seeds_for(seed, k as u8, bumps@[k]),
                    program_id@,
                ) == Some(old(accounts)@[FIXED_ACCOUNTS + k].identity@),
        decreases layer_count - i,
    {
        match generate_intermediate_pda(program_id, seed, i as u8) {
            Ok(p) => {
                if !identity_eq(&p.0, &accounts[FIXED_ACCOUNTS + i].identity) {
                    proof {
                        assert(!sub_account_matches(program_id@, old(accounts)@, seed, i as int));
                    }
                    return Err(MixError::PDADerivationFailed);
                }
                bumps.push(p.1);
            },
            Err(_) => {
                proof {
                    assert(!sub_account_matches(program_id@, old(accounts)@, seed, i as int));
                }
                return Err(MixError::PDADerivationFailed);
            },
        }
        i += 1;
    }
    proof {
        assert(validate_request(program_id@, old(accounts)@, amount, mix_layer, seed) is Ok);
    }

    // Hop 0: payer funds the first sub-account, under the payer's own
    // signature, which the host verified before the program ran.
    match transfer(accounts, program_id, PAYER, FIXED_ACCOUNTS, amount, &TransferAuth::CallerSigned) {
        Ok(()) => {},
        Err(_) => unreached(),
    }

    // Hops 1 .. mix_layer - 1: each sub-account forwards the amount to the
    // next one, authorized with its own derivation parameters.
    let mut layer: usize = 1;
    while layer < layer_count
        invariant
            1 <= layer <= layer_count,
            accounts@.len() == old(accounts)@.len(),
            forall|k: int|
                0 <= k < old(accounts)@.len() ==> accounts@[k].identity@ == old(
                    accounts,
                )@[k].identity@,
            accounts@[PAYER as int].balance == old(accounts)@[PAYER as int].balance - amount,
            accounts@[FIXED_ACCOUNTS + layer - 1].balance == old(accounts)@[FIXED_ACCOUNTS + layer
                - 1].balance + amount,
            forall|k: int|
                0 <= k < old(accounts)@.len() && k != PAYER && k != FIXED_ACCOUNTS + layer - 1
                    ==> accounts@[k].balance == old(accounts)@[k].balance,
            sum_balances(accounts@) == sum_balances(old(accounts)@),
        decreases layer_count - layer,
    {
        let bump = bumps[layer - 1];
        let seeds = generate_pda_signer_seeds(seed, (layer - 1) as u8, bump);
        proof {
            assert(((layer - 1) as u8) as int == layer - 1);
        }
        let auth = TransferAuth::Derived(seeds);
        match transfer(
            accounts,
            program_id,
            FIXED_ACCOUNTS + layer - 1,
            FIXED_ACCOUNTS + layer,
            amount,
            &auth,
        ) {
            Ok(()) => {},
            Err(_) => unreached(),
        }
        layer += 1;
    }

    // Final hop: the last sub-account pays the recipient, again under its
    // own derivation parameters.
    let bump = bumps[layer_count - 1];
    let seeds = generate_pda_signer_seeds(seed, (layer_count - 1) as u8, bump);
    proof {
        assert(((layer_count - 1) as u8) as int == layer_count - 1);
    }
    let auth = TransferAuth::Derived(seeds);
    match transfer(
        accounts,
        program_id,
        FIXED_ACCOUNTS + layer_count - 1,
        RECIPIENT,
        amount,
        &auth,
    ) {
        Ok(()) => {},
        Err(_) => unreached(),
    }
    Ok(())
}

/// Decodes an instruction payload and runs the request it carries: the
/// program's entry point over the account chain.
pub fn process_instruction(
    program_id: &[u8; 32],
    accounts: &mut Vec<ChainAccount>,
    instruction_data: &[u8],
) -> (r: Result<(), MixError>)
    requires
        sum_balances(old(accounts)@) <= u64::MAX,
    ensures
        !instruction_well_formed(instruction_data@) ==> r == Err::<(), MixError>(
            MixError::InvalidInstructionData,
        ),
        instruction_well_formed(instruction_data@) ==> r == validate_request(
            program_id@,
            old(accounts)@,
            decoded_amount(instruction_data@),
            decoded_layers(instruction_data@),
            decoded_seed(instruction_data@),
        ),
        r is Err ==> final(accounts)@ == old(accounts)@,
        final(accounts)@.len() == old(accounts)@.len(),
        forall|k: int|
            0 <= k < old(accounts)@.len() ==> final(accounts)@[k].identity@ == old(
                accounts,
            )@[k].identity@,
        r is Ok ==> final(accounts)@[PAYER as int].balance == old(
            accounts,
        )@[PAYER as int].balance - decoded_amount(instruction_data@),
        r is Ok ==> final(accounts)@[RECIPIENT as int].balance == old(
            accounts,
        )@[RECIPIENT as int].balance + decoded_amount(instruction_data@),
        r is Ok ==> forall|k: int|
            0 <= k < old(accounts)@.len() && k != PAYER && k != RECIPIENT ==> final(accounts)@[k].balance == old(accounts)@[k].balance,
        sum_balances(final(accounts)@) == sum_balances(old(accounts)@),
{
    match decode_instruction(instruction_data) {
        Err(e) => Err(e),
        Ok(MixInstruction::InitializeMix { amount, mix_layers, seed }) => process_initialize_mix(
            program_id,
            accounts,
            amount,
            mix_layers,
            seed,
        ),
    }
}

} // verus!
