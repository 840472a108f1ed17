use solana_keypair::Keypair;
use solana_pubkey::Pubkey;
use solana_signer::Signer;
use token::approve::{get_multisig_signers, signer_pubkeys};
use token::Approve;

#[test]
fn fresh_builder_resolves_payer() {
    let payer = Keypair::new();
    let delegate = Pubkey::new_from_array([1u8; 32]);
    let source = Pubkey::new_from_array([2u8; 32]);
    let builder = Approve::new(&payer, &delegate, &source, 5);
    assert_eq!(builder.resolved_authority(), payer.pubkey());
    assert_eq!(builder.resolved_signer_keys(), vec![payer.pubkey()]);
}

#[test]
fn owner_replaces_payer_as_authority() {
    let payer = Keypair::new();
    let owner = Keypair::new();
    let delegate = Pubkey::new_from_array([1u8; 32]);
    let source = Pubkey::new_from_array([2u8; 32]);
    let builder = Approve::new(&payer, &delegate, &source, 5).owner(&owner);
    assert_eq!(builder.resolved_authority(), owner.pubkey());
    assert_eq!(builder.resolved_signer_keys(), vec![owner.pubkey()]);
}

#[test]
fn last_setter_wins_owner_then_multisig() {
    let payer = Keypair::new();
    let single = Keypair::new();
    let group = Pubkey::new_from_array([7u8; 32]);
    let first = Keypair::new();
    let second = Keypair::new();
    let delegate = Pubkey::new_from_array([1u8; 32]);
    let source = Pubkey::new_from_array([2u8; 32]);
    let group_signers: Vec<&Keypair> = vec![&first, &second];
    let builder = Approve::new(&payer, &delegate, &source, 9)
        .owner(&single)
        .multisig(&group, &group_signers);
    assert_eq!(builder.resolved_authority(), group);
    assert_eq!(
        builder.resolved_signer_keys(),
        vec![first.pubkey(), second.pubkey()]
    );
}

#[test]
fn last_setter_wins_multisig_then_owner() {
    let payer = Keypair::new();
    let single = Keypair::new();
    let group = Pubkey::new_from_array([7u8; 32]);
    let first = Keypair::new();
    let second = Keypair::new();
    let delegate = Pubkey::new_from_array([1u8; 32]);
    let source = Pubkey::new_from_array([2u8; 32]);
    let group_signers: Vec<&Keypair> = vec![&first, &second];
    let builder = Approve::new(&payer, &delegate, &source, 9)
        .multisig(&group, &group_signers)
        .owner(&single);
    assert_eq!(builder.resolved_authority(), single.pubkey());
    assert_eq!(builder.resolved_signer_keys(), vec![single.pubkey()]);
}

#[test]
fn empty_multisig_signer_set_accepted_by_builder() {
    let payer = Keypair::new();
    let group = Pubkey::new_from_array([7u8; 32]);
    let delegate = Pubkey::new_from_array([1u8; 32]);
    let source = Pubkey::new_from_array([2u8; 32]);
    let builder = Approve::new(&payer, &delegate, &source, 9).multisig(&group, &[]);
    assert_eq!(builder.resolved_authority(), group);
    assert_eq!(builder.resolved_signer_keys(), Vec::<Pubkey>::new());
}

#[test]
fn multisig_signers_empty_for_plain_authority() {
    let authority = Pubkey::new_from_array([3u8; 32]);
    let resolved = get_multisig_signers(&authority, &vec![authority]);
    assert_eq!(resolved, Vec::<Pubkey>::new());
}

#[test]
fn multisig_signers_passed_verbatim() {
    let authority = Pubkey::new_from_array([3u8; 32]);
    let first = Pubkey::new_from_array([4u8; 32]);
    let second = Pubkey::new_from_array([5u8; 32]);
    let resolved = get_multisig_signers(&authority, &vec![first, second]);
    assert_eq!(resolved, vec![first, second]);
}

#[test]
fn multisig_signers_keep_empty_and_repeated_sets() {
    let authority = Pubkey::new_from_array([3u8; 32]);
    assert_eq!(
        get_multisig_signers(&authority, &vec![]),
        Vec::<Pubkey>::new()
    );
    assert_eq!(
        get_multisig_signers(&authority, &vec![authority, authority]),
        vec![authority, authority]
    );
}

#[test]
fn signer_pubkeys_in_given_order() {
    let first = Keypair::new();
    let second = Keypair::new();
    let signers: Vec<&Keypair> = vec![&first, &second, &first];
    assert_eq!(
        signer_pubkeys(&signers),
        vec![first.pubkey(), second.pubkey(), first.pubkey()]
    );
}
