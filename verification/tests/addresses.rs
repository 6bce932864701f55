use std::str::FromStr;

use anchor_lang::prelude::Pubkey;
use owned_counter::identity::Identity;
use owned_counter::resolver::{derive_counter_address, program_id};

const DECLARED_ID: &str = "2CtNPDTHjvsPJZ9rX4R8EpVpU37FgL1G4UXCXqBeqStQ";

#[test]
fn program_id_is_the_declared_one() {
    let declared = Pubkey::from_str(DECLARED_ID).unwrap();
    assert_eq!(program_id().to_bytes(), declared.to_bytes());
    assert_eq!(program_id().bytes[0], 17);
    assert_eq!(program_id().bytes[31], 57);
}

#[test]
fn counter_address_is_the_program_derived_address() {
    let program = Pubkey::from_str(DECLARED_ID).unwrap();
    for seed in [0u8, 1, 2, 100, 255] {
        let owner = Identity::new([seed; 32]);
        let (expected, bump) = Pubkey::find_program_address(&[b"counter", &[seed; 32]], &program);
        let found = derive_counter_address(&owner);
        assert_eq!(found, Some((Identity::new(expected.to_bytes()), bump)));
    }
}

#[test]
fn counter_address_is_neither_the_owner_nor_the_program() {
    let owner = Identity::new([11u8; 32]);
    let (address, _) = derive_counter_address(&owner).unwrap();
    assert_ne!(address, owner);
    assert_ne!(address, program_id());
}

#[test]
fn counter_address_has_no_private_key() {
    let owner = Identity::new([12u8; 32]);
    let (address, _) = derive_counter_address(&owner).unwrap();
    assert!(!Pubkey::new_from_array(address.to_bytes()).is_on_curve());
}

#[test]
fn counter_address_is_recreated_from_its_bump() {
    let program = Pubkey::from_str(DECLARED_ID).unwrap();
    let owner = Identity::new([13u8; 32]);
    let (address, bump) = derive_counter_address(&owner).unwrap();
    let again = Pubkey::create_program_address(&[b"counter", &owner.to_bytes(), &[bump]], &program);
    assert_eq!(again.unwrap().to_bytes(), address.to_bytes());
}

#[test]
fn deriving_twice_gives_the_same_address() {
    let owner = Identity::new([14u8; 32]);
    assert_eq!(derive_counter_address(&owner), derive_counter_address(&owner));
}

#[test]
fn owners_have_addresses_of_their_own() {
    let a = derive_counter_address(&Identity::new([1u8; 32])).unwrap().0;
    let b = derive_counter_address(&Identity::new([2u8; 32])).unwrap().0;
    assert_ne!(a, b);
}

#[test]
fn identities_are_equal_where_their_bytes_are() {
    let mut bytes = [0u8; 32];
    for (i, byte) in bytes.iter_mut().enumerate() {
        *byte = i as u8;
    }
    let id = Identity::new(bytes);
    assert_eq!(id.to_bytes(), bytes);
    assert_eq!(id, Identity::new(bytes));
    for i in 0..32 {
        let mut other = bytes;
        other[i] ^= 1;
        assert_ne!(id, Identity::new(other));
    }
}
