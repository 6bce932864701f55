//! The account resolver: where an owner's counter lives.
//!
//! The address of a counter is derived from the fixed label `"counter"`, the
//! owner's identity and the identity of this program. Nobody holds a private
//! key for a derived address, so only the program can create a record there.

use vstd::prelude::*;
use crate::identity::Identity;

verus! {

/// The label that every counter address is derived from: the ASCII bytes of
/// `counter`.
pub open spec fn counter_label() -> Seq<u8> {
    seq![99u8, 111u8, 117u8, 110u8, 116u8, 101u8, 114u8]
}

/// The bytes of the identity under which this program is deployed,
/// `2CtNPDTHjvsPJZ9rX4R8EpVpU37FgL1G4UXCXqBeqStQ` in base 58.
pub open spec fn program_id_bytes() -> Seq<u8> {
    seq![
        17u8, 231u8, 40u8, 152u8, 2u8, 132u8, 109u8, 137u8,
        127u8, 107u8, 77u8, 152u8, 156u8, 184u8, 37u8, 222u8,
        140u8, 184u8, 22u8, 187u8, 119u8, 49u8, 240u8, 64u8,
        215u8, 187u8, 31u8, 30u8, 16u8, 127u8, 169u8, 57u8,
    ]
}

/// The identity under which this program is deployed.
pub fn program_id() -> (id: Identity)
    ensures
        id@ == program_id_bytes(),
{
    let bytes: [u8; 32] = [
        17, 231, 40, 152, 2, 132, 109, 137,
        127, 107, 77, 152, 156, 184, 37, 222,
        140, 184, 22, 187, 119, 49, 240, 64,
        215, 187, 31, 30, 16, 127, 169, 57,
    ];
    assert(bytes@ =~= program_id_bytes());
    Identity::new(bytes)
}

/// What `Pubkey::try_find_program_address` returns for the two seeds `label`
/// and `key` under the program `program_id`: the derived address and its bump
/// seed, or `None` where no bump seed gives an address off the curve or a
/// seed is too long.
pub uninterp spec fn program_address(label: Seq<u8>, key: Seq<u8>, program_id: Seq<u8>) -> Option<(Seq<u8>, u8)>;

/// The mathematical value of a derivation result.
pub open spec fn derivation_view(found: Option<(Identity, u8)>) -> Option<(Seq<u8>, u8)> {
    match found {
        Some((address, bump)) => Some((address@, bump)),
        None => None,
    }
}

/// Calls `anchor_lang::prelude::Pubkey::try_find_program_address` with the
/// seeds `[label, key]`. Trusted: the result is the one that the derivation
/// gives for these three byte strings, which depends on nothing else. The
/// call returns for every input: seeds that are too long give `None`.
#[verifier::external_body]
fn try_find_program_address(label: &[u8], key: &Identity, program_id: &Identity) -> (found: Option<(Identity, u8)>)
    ensures
        derivation_view(found) == program_address(label@, key@, program_id@),
{
    let program = anchor_lang::prelude::Pubkey::new_from_array(program_id.bytes);
    match anchor_lang::prelude::Pubkey::try_find_program_address(&[label, &key.bytes], &program) {
        Some((address, bump)) => Some((Identity { bytes: address.to_bytes() }, bump)),
        None => None,
    }
}

/// The address and bump seed of the counter that belongs to `owner`, or
/// `None` where the derivation finds none.
pub open spec fn counter_address(owner: Seq<u8>) -> Option<(Seq<u8>, u8)> {
    program_address(counter_label(), owner, program_id_bytes())
}

/// Derives the address of the counter that belongs to `owner`.
pub fn derive_counter_address(owner: &Identity) -> (found: Option<(Identity, u8)>)
    ensures
        derivation_view(found) == counter_address(owner@),
{
    let label: [u8; 7] = [99, 111, 117, 110, 116, 101, 114];
    assert(label@ =~= counter_label());
    let program = program_id();
    try_find_program_address(label.as_slice(), owner, &program)
}

} // verus!
