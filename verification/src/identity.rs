//! Identities: the authority that may write, and the tokens that signals are about.

use anchor_lang::prelude::Pubkey;
use vstd::prelude::*;

verus! {

/// `Pubkey` of `anchor_lang`: an opaque 32-byte address. Nothing inside a
/// value is visible to proofs; two values are told apart by `same_key` only.
#[verifier::external_type_specification]
#[verifier::external_body]
pub struct ExPubkey(Pubkey);

/// Calls `==` of `Pubkey` (its derived `PartialEq`, which compares the 32
/// bytes). Trusted: the result is `true` exactly when the two keys are the
/// same value.
#[verifier::external_body]
pub(crate) fn same_key(a: &Pubkey, b: &Pubkey) -> (same: bool)
    ensures
        same == (*a == *b),
{
    a == b
}

} // verus!
