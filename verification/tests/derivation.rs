use mix_token::pda::generate_intermediate_pda;
use mix_token::pda::generate_pda_signer_seeds;
use mix_token::pda::verify_derivation_proof;

const PROGRAM_ID: [u8; 32] = [7u8; 32];

#[test]
fn derive_is_deterministic() {
    let first = generate_intermediate_pda(&PROGRAM_ID, 99, 1).unwrap();
    let second = generate_intermediate_pda(&PROGRAM_ID, 99, 1).unwrap();
    assert_eq!(first.0, second.0);
    assert_eq!(first.1, second.1);
}

#[test]
fn derived_addresses_pairwise_distinct() {
    let mut addresses: Vec<[u8; 32]> = Vec::new();
    for layer in 0..4u8 {
        let (address, _bump) = generate_intermediate_pda(&PROGRAM_ID, 99, layer).unwrap();
        addresses.push(address);
    }
    for i in 0..addresses.len() {
        for j in 0..addresses.len() {
            if i != j {
                assert_ne!(addresses[i], addresses[j]);
            }
        }
    }
}

#[test]
fn distinct_seeds_give_distinct_addresses() {
    let (a, _) = generate_intermediate_pda(&PROGRAM_ID, 1, 0).unwrap();
    let (b, _) = generate_intermediate_pda(&PROGRAM_ID, 2, 0).unwrap();
    assert_ne!(a, b);
}

#[test]
fn signer_seeds_byte_identical_to_derivation_components() {
    let seeds = generate_pda_signer_seeds(5, 1, 254);
    assert_eq!(seeds.len(), 4);
    assert_eq!(seeds[0], b"mix_intermediate".to_vec());
    assert_eq!(seeds[1], 5u64.to_le_bytes().to_vec());
    assert_eq!(seeds[2], vec![1u8]);
    assert_eq!(seeds[3], vec![254u8]);
}

#[test]
fn signer_seeds_round_trip_rederives_address() {
    let (address, bump) = generate_intermediate_pda(&PROGRAM_ID, 42, 3).unwrap();
    let seeds = generate_pda_signer_seeds(42, 3, bump);
    assert!(verify_derivation_proof(&seeds, &PROGRAM_ID, &address));
}

#[test]
fn proof_for_other_layer_is_rejected() {
    let (address, _bump) = generate_intermediate_pda(&PROGRAM_ID, 42, 3).unwrap();
    let (_other, other_bump) = generate_intermediate_pda(&PROGRAM_ID, 42, 2).unwrap();
    let seeds = generate_pda_signer_seeds(42, 2, other_bump);
    assert!(!verify_derivation_proof(&seeds, &PROGRAM_ID, &address));
}

#[test]
fn derivation_matches_ledger_primitive() {
    let (address, bump) = generate_intermediate_pda(&PROGRAM_ID, 11, 0).unwrap();
    let pid = solana_program::pubkey::Pubkey::new_from_array(PROGRAM_ID);
    let (expected, expected_bump) = solana_program::pubkey::Pubkey::find_program_address(
        &[b"mix_intermediate", &11u64.to_le_bytes(), &0u8.to_le_bytes()],
        &pid,
    );
    assert_eq!(address, expected.to_bytes());
    assert_eq!(bump, expected_bump);
}
