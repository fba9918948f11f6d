use anchor_lang::prelude::Pubkey;
use anchor_vault::address::{verify, Address, Tag};

const PROGRAM: [u8; 32] = [
    18, 200, 2, 145, 159, 66, 182, 190, 88, 201, 162, 207, 202, 194, 243, 251, 30, 19, 239, 181,
    237, 139, 103, 104, 178, 144, 106, 253, 32, 254, 152, 134,
];

const OWNER: [u8; 32] = [
    1, 2, 3, 4, 5, 6, 7, 8, 9, 10, 11, 12, 13, 14, 15, 16, 17, 18, 19, 20, 21, 22, 23, 24, 25, 26,
    27, 28, 29, 30, 31, 32,
];

const OWNER_STATE: [u8; 32] = [
    46, 74, 209, 54, 162, 232, 30, 3, 147, 49, 207, 187, 96, 174, 249, 53, 156, 113, 165, 180,
    107, 85, 52, 73, 181, 240, 205, 118, 239, 58, 22, 199,
];

const OWNER_VAULT: [u8; 32] = [
    5, 52, 211, 124, 239, 189, 210, 242, 76, 172, 167, 106, 210, 136, 160, 102, 40, 189, 204, 144,
    188, 243, 255, 117, 246, 180, 55, 123, 124, 174, 15, 142,
];

#[test]
fn tag_bytes_are_ascii_names() {
    assert_eq!(&Tag::State.to_bytes(), b"state");
    assert_eq!(&Tag::Vault.to_bytes(), b"vault");
}

#[test]
fn address_new_keeps_bytes() {
    assert_eq!(Address::new(OWNER).bytes, OWNER);
}

#[test]
fn same_as_compares_every_byte() {
    let a = Address::new(OWNER);
    let mut last = OWNER;
    last[31] ^= 1;
    let mut first = OWNER;
    first[0] ^= 1;
    assert!(a.same_as(&Address::new(OWNER)));
    assert!(!a.same_as(&Address::new(last)));
    assert!(!a.same_as(&Address::new(first)));
}

#[test]
fn derive_state_address_known_value() {
    let found = anchor_vault::address::derive(Tag::State, &Address::new(OWNER), &Address::new(PROGRAM));
    assert_eq!(found, Ok((Address::new(OWNER_STATE), 253)));
}

#[test]
fn derive_vault_address_known_value() {
    let found = anchor_vault::address::derive(Tag::Vault, &Address::new(OWNER_STATE), &Address::new(PROGRAM));
    assert_eq!(found, Ok((Address::new(OWNER_VAULT), 254)));
}

#[test]
fn derive_agrees_with_find_program_address() {
    let program = Pubkey::new_from_array(PROGRAM);
    for seed in 0u8..20 {
        let owner = [seed; 32];
        let (state, state_bump) = Pubkey::find_program_address(&[b"state", &owner], &program);
        assert_eq!(
            anchor_vault::address::derive(Tag::State, &Address::new(owner), &Address::new(PROGRAM)),
            Ok((Address::new(state.to_bytes()), state_bump))
        );
        let (vault, vault_bump) =
            Pubkey::find_program_address(&[b"vault", state.as_ref()], &program);
        assert_eq!(
            anchor_vault::address::derive(Tag::Vault, &Address::new(state.to_bytes()), &Address::new(PROGRAM)),
            Ok((Address::new(vault.to_bytes()), vault_bump))
        );
    }
}

#[test]
fn derive_is_deterministic() {
    let owner = Address::new(OWNER);
    let program = Address::new(PROGRAM);
    let first = anchor_vault::address::derive(Tag::State, &owner, &program);
    let second = anchor_vault::address::derive(Tag::State, &owner, &program);
    assert_eq!(first, second);
    let (state, _) = first.unwrap();
    assert_eq!(anchor_vault::address::derive(Tag::Vault, &state, &program), anchor_vault::address::derive(Tag::Vault, &state, &program));
}

#[test]
fn derive_depends_on_tag_component_and_program() {
    let owner = Address::new(OWNER);
    let program = Address::new(PROGRAM);
    let (state, _) = anchor_vault::address::derive(Tag::State, &owner, &program).unwrap();
    let (under_vault_tag, _) = anchor_vault::address::derive(Tag::Vault, &owner, &program).unwrap();
    let (other_owner, _) = anchor_vault::address::derive(Tag::State, &Address::new([7; 32]), &program).unwrap();
    let (other_program, _) = anchor_vault::address::derive(Tag::State, &owner, &Address::new([9; 32])).unwrap();
    assert_ne!(state, under_vault_tag);
    assert_ne!(state, other_owner);
    assert_ne!(state, other_program);
    assert_ne!(state, owner);
    assert_ne!(state, program);
}

#[test]
fn verify_accepts_the_derived_address_only() {
    let owner = Address::new(OWNER);
    let program = Address::new(PROGRAM);
    let state = Address::new(OWNER_STATE);
    assert!(verify(Tag::State, &owner, 253, &program, &state));
    assert!(!verify(Tag::State, &owner, 253, &program, &owner));
    assert!(!verify(Tag::State, &owner, 253, &program, &program));
    assert!(!verify(Tag::State, &owner, 253, &program, &Address::new(OWNER_VAULT)));
    assert!(!verify(Tag::Vault, &owner, 253, &program, &state));
    assert!(!verify(Tag::State, &Address::new([7; 32]), 253, &program, &state));
    assert!(!verify(Tag::State, &owner, 253, &Address::new([9; 32]), &state));
}

#[test]
fn verify_rejects_bumps_that_derive_nothing() {
    let owner = Address::new(OWNER);
    let program = Address::new(PROGRAM);
    let state = Address::new(OWNER_STATE);
    assert!(!verify(Tag::State, &owner, 255, &program, &state));
    assert!(!verify(Tag::State, &owner, 254, &program, &state));
}

#[test]
fn verify_with_a_lower_bump_derives_another_address() {
    let owner = Address::new(OWNER);
    let program = Pubkey::new_from_array(PROGRAM);
    let state = Address::new(OWNER_STATE);
    let mut lower: Option<(Pubkey, u8)> = None;
    for bump in (0u8..253).rev() {
        if let Ok(key) = Pubkey::create_program_address(&[b"state", &OWNER, &[bump]], &program) {
            lower = Some((key, bump));
            break;
        }
    }
    let (key, bump) = lower.unwrap();
    assert!(!verify(Tag::State, &owner, bump, &Address::new(PROGRAM), &state));
    assert!(verify(
        Tag::State,
        &owner,
        bump,
        &Address::new(PROGRAM),
        &Address::new(key.to_bytes())
    ));
}

#[test]
fn verify_agrees_with_create_program_address() {
    let program = Pubkey::new_from_array(PROGRAM);
    for bump in 0u8..=255 {
        let created = Pubkey::create_program_address(&[b"vault", &OWNER_STATE, &[bump]], &program);
        let claimed = match &created {
            Ok(key) => Address::new(key.to_bytes()),
            Err(_) => Address::new(OWNER_VAULT),
        };
        assert_eq!(
            verify(
                Tag::Vault,
                &Address::new(OWNER_STATE),
                bump,
                &Address::new(PROGRAM),
                &claimed
            ),
            created.is_ok()
        );
    }
}

#[test]
fn derived_bump_is_the_highest_that_verifies() {
    let program = Address::new(PROGRAM);
    for seed in 0u8..10 {
        let owner = Address::new([seed; 32]);
        let (address, bump) = anchor_vault::address::derive(Tag::State, &owner, &program).unwrap();
        assert!(verify(Tag::State, &owner, bump, &program, &address));
        let real = Pubkey::new_from_array(PROGRAM);
        for higher in (bump as u16 + 1)..=255 {
            assert!(Pubkey::create_program_address(
                &[b"state", &owner.bytes, &[higher as u8]],
                &real
            )
            .is_err());
        }
    }
}
