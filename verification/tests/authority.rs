use anchor_lang::prelude::Pubkey;
use gift_bridge::{Identity, MintAuthority, MINT_AUTHORITY_LABEL};

#[test]
fn label_is_the_text_mint_authority() {
    assert_eq!(&MINT_AUTHORITY_LABEL, b"mint_authority");
}

#[test]
fn authority_is_the_program_derived_address() {
    let config_key = Identity::new([7u8; 32]);
    let program_id = Identity::new([9u8; 32]);
    let authority = MintAuthority::find(config_key, program_id).expect("an authority exists");
    let (expected, bump) = Pubkey::find_program_address(
        &[b"mint_authority", &[7u8; 32]],
        &Pubkey::new_from_array([9u8; 32]),
    );
    assert_eq!(authority.address().to_bytes(), expected.to_bytes());
    assert_eq!(authority.bump(), bump);
    assert_eq!(authority.config_key(), config_key);
    assert_eq!(authority.program_id(), program_id);
    assert_ne!(authority.address(), config_key);
    assert_ne!(authority.address(), program_id);
}

#[test]
fn derivation_can_be_repeated() {
    let first = MintAuthority::find(Identity::new([1u8; 32]), Identity::new([2u8; 32]));
    let again = MintAuthority::find(Identity::new([1u8; 32]), Identity::new([2u8; 32]));
    assert!(first.is_some());
    assert_eq!(first, again);
}

#[test]
fn authority_depends_on_the_configuration_and_on_the_program() {
    let base = MintAuthority::find(Identity::new([1u8; 32]), Identity::new([2u8; 32])).unwrap();
    let other_config =
        MintAuthority::find(Identity::new([3u8; 32]), Identity::new([2u8; 32])).unwrap();
    let other_program =
        MintAuthority::find(Identity::new([1u8; 32]), Identity::new([3u8; 32])).unwrap();
    assert_ne!(base.address(), other_config.address());
    assert_ne!(base.address(), other_program.address());
}

#[test]
fn signer_seeds_end_with_the_bump() {
    let authority = MintAuthority::find(Identity::new([7u8; 32]), Identity::new([9u8; 32])).unwrap();
    let seeds = authority.signer_seeds();
    assert_eq!(seeds.len(), 3);
    assert_eq!(seeds[0], b"mint_authority".to_vec());
    assert_eq!(seeds[1], vec![7u8; 32]);
    assert_eq!(seeds[2], vec![authority.bump()]);
    let parts: Vec<&[u8]> = seeds.iter().map(|seed| seed.as_slice()).collect();
    let rebuilt = Pubkey::create_program_address(&parts, &Pubkey::new_from_array([9u8; 32]))
        .expect("the seeds derive an address");
    assert_eq!(rebuilt.to_bytes(), authority.address().to_bytes());
}
