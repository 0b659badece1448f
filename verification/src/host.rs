//! What the ledger takes from the Soroban SDK: the address type that names
//! principals and assets. Nothing in this file is proved; the contracts here
//! are statements about the SDK.

use vstd::prelude::*;

verus! {

/// `soroban_sdk::Address`, an identifier that the ledger stores and hands back
/// without ever looking inside it.
#[verifier::external_type_specification]
#[verifier::external_body]
pub struct ExAddress(soroban_sdk::Address);

/// Calls `Clone::clone` of `soroban_sdk::Address`. The SDK derives that impl:
/// the copy holds the same host handle as the address it was made from, so
/// the contract claims that the two are the same address.
#[verifier::external_body]
pub(crate) fn copy_address(address: &soroban_sdk::Address) -> (copy: soroban_sdk::Address)
    ensures
        copy == *address,
{
    address.clone()
}

} // verus!
