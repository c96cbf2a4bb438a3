//! Account addresses.
use vstd::prelude::*;
use anchor_lang::prelude::Pubkey;

verus! {

#[verifier::external_type_specification]
#[verifier::external_body]
pub struct ExPubkey(Pubkey);

/// Compares two addresses with `Pubkey`'s `==`, which Solana derives over the 32 bytes
/// of the key; the contract says the answer is whether the two keys are the same value.
#[verifier::external_body]
pub(crate) fn same_key(a: &Pubkey, b: &Pubkey) -> (r: bool)
    ensures
        r == (*a == *b),
{
    a == b
}

} // verus!
