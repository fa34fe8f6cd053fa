use crate::types::AccountId;
use sp_runtime::traits::AccountIdConversion;
use sp_runtime::{AccountId32, ModuleId};
use vstd::prelude::*;

verus! {

/// The bytes of the account that belongs to the module with identifier
/// `module_id`: the four bytes `modl`, the identifier, and zeros up to the
/// length of an account identifier.
pub open spec fn module_account_bytes(module_id: Seq<u8>) -> Seq<u8> {
    seq![0x6du8, 0x6fu8, 0x64u8, 0x6cu8] + module_id + Seq::new(20, |i: int| 0u8)
}

/// Calls `AccountIdConversion::into_account` of `sp_runtime` on a `ModuleId`,
/// for accounts of 32 bytes.
///
/// The contract claims what the trait's impl for every `TypeId` shows: the
/// account is decoded from the type's tag `modl`, followed by the encoded
/// identifier (its eight bytes as they are), followed by zeros.
#[verifier::external_body]
pub(crate) fn module_account(module_id: &[u8; 8]) -> (account: AccountId)
    ensures
        account@ == module_account_bytes(module_id@),
{
    let account: AccountId32 = ModuleId(*module_id).into_account();
    account.into()
}

} // verus!
