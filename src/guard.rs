use vstd::prelude::*;

use crate::accounts::{keys_equal, AccountState, Pubkey};
use crate::errors::GameEngineError;

verus! {

/// The address of the system program, which owns every fresh account: 32
/// zero bytes.
pub open spec fn system_program_id() -> Seq<u8> {
    Seq::new(32, |i: int| 0u8)
}

pub fn system_program_key() -> (r: Pubkey)
    ensures
        r@ == system_program_id(),
{
    let r: Pubkey = [0u8; 32];
    assert(r@ =~= system_program_id());
    r
}

/// A signer check: the account must have signed, and be writable where
/// `must_be_writable` asks for it.
pub open spec fn signer_outcome(account: AccountState, must_be_writable: bool) -> Result<
    (),
    GameEngineError,
> {
    if !account.is_signer {
        Err(GameEngineError::MissingSignature)
    } else if must_be_writable && !account.is_writable {
        Err(GameEngineError::NotWritable)
    } else {
        Ok(())
    }
}

/// An ownership check: the account's storage must be owned by `owner`.
pub open spec fn owner_outcome(account: AccountState, owner: Seq<u8>) -> Result<
    (),
    GameEngineError,
> {
    if account.owner@ != owner {
        Err(GameEngineError::InvalidOwner)
    } else {
        Ok(())
    }
}

/// A fresh-account check: the account must be owned by the system program,
/// hold no data, and be writable where `must_be_writable` asks for it.
pub open spec fn fresh_outcome(account: AccountState, must_be_writable: bool) -> Result<
    (),
    GameEngineError,
> {
    if account.owner@ != system_program_id() {
        Err(GameEngineError::InvalidOwner)
    } else if account.data@.len() != 0 {
        Err(GameEngineError::AlreadyInitialized)
    } else if must_be_writable && !account.is_writable {
        Err(GameEngineError::NotWritable)
    } else {
        Ok(())
    }
}

/// A system-program check: the account must be the system program itself.
pub open spec fn system_program_outcome(account: AccountState) -> Result<(), GameEngineError> {
    if account.key@ != system_program_id() {
        Err(GameEngineError::IncorrectProgramId)
    } else {
        Ok(())
    }
}

/// Requires that `account` signed the transaction, and that it is writable
/// where `must_be_writable` asks for it.
pub fn load_signer(account: &AccountState, must_be_writable: bool) -> (r: Result<
    (),
    GameEngineError,
>)
    ensures
        r == signer_outcome(*account, must_be_writable),
{
    if !account.is_signer {
        return Err(GameEngineError::MissingSignature);
    }
    if must_be_writable && !account.is_writable {
        return Err(GameEngineError::NotWritable);
    }
    Ok(())
}

/// Requires that the storage of `account` is owned by `owner`.
pub fn require_owned_by(account: &AccountState, owner: &Pubkey) -> (r: Result<
    (),
    GameEngineError,
>)
    ensures
        r == owner_outcome(*account, owner@),
{
    if !keys_equal(&account.owner, owner) {
        return Err(GameEngineError::InvalidOwner);
    }
    Ok(())
}

/// Requires that `account` is unallocated storage of the system program,
/// so that an address is never put to use twice.
pub fn load_system_account(account: &AccountState, must_be_writable: bool) -> (r: Result<
    (),
    GameEngineError,
>)
    ensures
        r == fresh_outcome(*account, must_be_writable),
{
    let system = system_program_key();
    if !keys_equal(&account.owner, &system) {
        return Err(GameEngineError::InvalidOwner);
    }
    if account.data.len() != 0 {
        return Err(GameEngineError::AlreadyInitialized);
    }
    if must_be_writable && !account.is_writable {
        return Err(GameEngineError::NotWritable);
    }
    Ok(())
}

/// Requires that `account` is the system program.
pub fn load_system_program(account: &AccountState) -> (r: Result<(), GameEngineError>)
    ensures
        r == system_program_outcome(*account),
{
    let system = system_program_key();
    if !keys_equal(&account.key, &system) {
        return Err(GameEngineError::IncorrectProgramId);
    }
    Ok(())
}

} // verus!
