use mix_token::chain::transfer;
use mix_token::chain::ChainAccount;
use mix_token::chain::TransferAuth;
use mix_token::chain::TransferError;
use mix_token::engine::process_initialize_mix;
use mix_token::engine::process_instruction;
use mix_token::error::MixError;
use mix_token::pda::generate_intermediate_pda;
use mix_token::pda::generate_pda_signer_seeds;

const PROGRAM_ID: [u8; 32] = [9u8; 32];

/// Builds the account chain `[proxy_payer, payer, recipient, ledger_service,
/// sub_0, ..]` with correctly derived sub-account identities.
fn build_chain(payer_balance: u64, layer_count: u8, seed: u64) -> Vec<ChainAccount> {
    let mut accounts = vec![
        ChainAccount { identity: [1u8; 32], balance: 0 },
        ChainAccount { identity: [2u8; 32], balance: payer_balance },
        ChainAccount { identity: [3u8; 32], balance: 0 },
        ChainAccount { identity: [4u8; 32], balance: 0 },
    ];
    for layer in 0..layer_count {
        let (identity, _bump) = generate_intermediate_pda(&PROGRAM_ID, seed, layer).unwrap();
        accounts.push(ChainAccount { identity, balance: 0 });
    }
    accounts
}

fn balances(accounts: &[ChainAccount]) -> Vec<u64> {
    accounts.iter().map(|a| a.balance).collect()
}

#[test]
fn transfer_moves_balance_when_caller_signed() {
    let mut accounts = build_chain(1000, 1, 5);
    let r = transfer(&mut accounts, &PROGRAM_ID, 1, 4, 600, &TransferAuth::CallerSigned);
    assert_eq!(r, Ok(()));
    assert_eq!(accounts[1].balance, 400);
    assert_eq!(accounts[4].balance, 600);
}

#[test]
fn transfer_rejects_insufficient_balance() {
    let mut accounts = build_chain(100, 1, 5);
    let before = balances(&accounts);
    let r = transfer(&mut accounts, &PROGRAM_ID, 1, 4, 101, &TransferAuth::CallerSigned);
    assert_eq!(r, Err(TransferError::InsufficientBalance));
    assert_eq!(balances(&accounts), before);
}

#[test]
fn transfer_rejects_proof_for_wrong_sender() {
    let mut accounts = build_chain(1000, 2, 5);
    accounts[4].balance = 50;
    // A proof built from layer 1's parameters cannot spend from sub-account 0.
    let (_identity, bump) = generate_intermediate_pda(&PROGRAM_ID, 5, 1).unwrap();
    let seeds = generate_pda_signer_seeds(5, 1, bump);
    let before = balances(&accounts);
    let r = transfer(&mut accounts, &PROGRAM_ID, 4, 5, 50, &TransferAuth::Derived(seeds));
    assert_eq!(r, Err(TransferError::Unauthorized));
    assert_eq!(balances(&accounts), before);
}

#[test]
fn transfer_accepts_own_derivation_proof() {
    let mut accounts = build_chain(1000, 2, 5);
    accounts[4].balance = 50;
    let (_identity, bump) = generate_intermediate_pda(&PROGRAM_ID, 5, 0).unwrap();
    let seeds = generate_pda_signer_seeds(5, 0, bump);
    let r = transfer(&mut accounts, &PROGRAM_ID, 4, 5, 50, &TransferAuth::Derived(seeds));
    assert_eq!(r, Ok(()));
    assert_eq!(accounts[4].balance, 0);
    assert_eq!(accounts[5].balance, 50);
}

#[test]
fn rejects_layer_count_zero() {
    let mut accounts = build_chain(1000, 0, 9);
    let r = process_initialize_mix(&PROGRAM_ID, &mut accounts, 100, 0, 9);
    assert_eq!(r, Err(MixError::InvalidMixLayers));
}

#[test]
fn rejects_layer_count_five() {
    let mut accounts = build_chain(1000, 5, 9);
    let r = process_initialize_mix(&PROGRAM_ID, &mut accounts, 100, 5, 9);
    assert_eq!(r, Err(MixError::InvalidMixLayers));
}

#[test]
fn rejects_account_list_one_short() {
    let mut accounts = build_chain(1000, 2, 9);
    accounts.pop();
    let r = process_initialize_mix(&PROGRAM_ID, &mut accounts, 100, 2, 9);
    assert_eq!(r, Err(MixError::NotEnoughAccounts));
}

#[test]
fn rejects_payer_one_below_amount() {
    let mut accounts = build_chain(999, 2, 9);
    let r = process_initialize_mix(&PROGRAM_ID, &mut accounts, 1000, 2, 9);
    assert_eq!(r, Err(MixError::InsufficientFunds));
}

#[test]
fn accepts_payer_balance_exactly_amount() {
    let mut accounts = build_chain(1000, 2, 9);
    let r = process_initialize_mix(&PROGRAM_ID, &mut accounts, 1000, 2, 9);
    assert_eq!(r, Ok(()));
    assert_eq!(accounts[1].balance, 0);
    assert_eq!(accounts[2].balance, 1000);
}

#[test]
fn end_to_end_two_layers() {
    let mut accounts = build_chain(5000, 2, 42);
    let r = process_initialize_mix(&PROGRAM_ID, &mut accounts, 1000, 2, 42);
    assert_eq!(r, Ok(()));
    // Payer debited, recipient credited, both sub-accounts net zero.
    assert_eq!(accounts[1].balance, 4000);
    assert_eq!(accounts[2].balance, 1000);
    assert_eq!(accounts[4].balance, 0);
    assert_eq!(accounts[5].balance, 0);
    assert_eq!(accounts[0].balance, 0);
    assert_eq!(accounts[3].balance, 0);
}

#[test]
fn end_to_end_single_layer() {
    let mut accounts = build_chain(1000, 1, 77);
    let r = process_initialize_mix(&PROGRAM_ID, &mut accounts, 250, 1, 77);
    assert_eq!(r, Ok(()));
    assert_eq!(accounts[1].balance, 750);
    assert_eq!(accounts[2].balance, 250);
    assert_eq!(accounts[4].balance, 0);
}

#[test]
fn end_to_end_four_layers() {
    let mut accounts = build_chain(1000, 4, 123);
    let r = process_initialize_mix(&PROGRAM_ID, &mut accounts, 1000, 4, 123);
    assert_eq!(r, Ok(()));
    assert_eq!(accounts[1].balance, 0);
    assert_eq!(accounts[2].balance, 1000);
    for sub in 4..8 {
        assert_eq!(accounts[sub].balance, 0);
    }
}

#[test]
fn end_to_end_largest_amount() {
    let mut accounts = build_chain(u64::MAX, 3, 8);
    let r = process_initialize_mix(&PROGRAM_ID, &mut accounts, u64::MAX, 3, 8);
    assert_eq!(r, Ok(()));
    assert_eq!(accounts[1].balance, 0);
    assert_eq!(accounts[2].balance, u64::MAX);
    for sub in 4..7 {
        assert_eq!(accounts[sub].balance, 0);
    }
}

#[test]
fn wrong_sub_account_aborts_before_any_hop() {
    let mut accounts = build_chain(5000, 2, 42);
    accounts[5].identity = [0xAA; 32];
    let before = balances(&accounts);
    let r = process_initialize_mix(&PROGRAM_ID, &mut accounts, 1000, 2, 42);
    assert_eq!(r, Err(MixError::PDADerivationFailed));
    // Atomicity: hop 0 must not be left committed.
    assert_eq!(balances(&accounts), before);
}

#[test]
fn wrong_first_sub_account_is_rejected() {
    let mut accounts = build_chain(5000, 2, 42);
    accounts[4].identity = [0xBB; 32];
    let before = balances(&accounts);
    let r = process_initialize_mix(&PROGRAM_ID, &mut accounts, 1000, 2, 42);
    assert_eq!(r, Err(MixError::PDADerivationFailed));
    assert_eq!(balances(&accounts), before);
}

#[test]
fn process_instruction_runs_decoded_request() {
    let mut data = vec![0u8];
    data.extend_from_slice(&1000u64.to_le_bytes());
    data.push(2);
    data.extend_from_slice(&42u64.to_le_bytes());
    let mut accounts = build_chain(5000, 2, 42);
    let r = process_instruction(&PROGRAM_ID, &mut accounts, &data);
    assert_eq!(r, Ok(()));
    assert_eq!(accounts[1].balance, 4000);
    assert_eq!(accounts[2].balance, 1000);
}

#[test]
fn process_instruction_rejects_malformed_payload() {
    let mut accounts = build_chain(5000, 2, 42);
    let before = balances(&accounts);
    let r = process_instruction(&PROGRAM_ID, &mut accounts, &[0u8; 17]);
    assert_eq!(r, Err(MixError::InvalidInstructionData));
    assert_eq!(balances(&accounts), before);
}
