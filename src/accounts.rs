use vstd::prelude::*;

use crate::errors::GameEngineError;

verus! {

/// A 32-byte identity: a program, an account address or a signer.
pub type Pubkey = [u8; 32];

/// The type tag byte of an uninitialized buffer.
pub const UNINITIALIZED_TAG: u8 = 0;

/// The type tag byte of a config record.
pub const CONFIG_TAG: u8 = 1;

/// The kinds of record a buffer can hold, told apart by its first byte.
#[derive(Debug, Clone, Copy, PartialEq, Eq, Structural)]
pub enum GameEngineDiscriminator {
    Uninitialized,
    Config,
}

impl GameEngineDiscriminator {
    /// The tag byte that stands for this kind.
    pub open spec fn spec_as_u8(self) -> u8 {
        match self {
            GameEngineDiscriminator::Uninitialized => UNINITIALIZED_TAG,
            GameEngineDiscriminator::Config => CONFIG_TAG,
        }
    }

    pub fn as_u8(&self) -> (r: u8)
        ensures
            r == self.spec_as_u8(),
    {
        match self {
            GameEngineDiscriminator::Uninitialized => UNINITIALIZED_TAG,
            GameEngineDiscriminator::Config => CONFIG_TAG,
        }
    }

    /// Reads a tag byte; a byte that names no kind is a type mismatch.
    pub fn from_u8(value: u8) -> (r: Result<GameEngineDiscriminator, GameEngineError>)
        ensures
            value == UNINITIALIZED_TAG ==> r == Ok::<_, GameEngineError>(GameEngineDiscriminator::Uninitialized),
            value == CONFIG_TAG ==> r == Ok::<_, GameEngineError>(GameEngineDiscriminator::Config),
            value != UNINITIALIZED_TAG && value != CONFIG_TAG ==> r == Err::<GameEngineDiscriminator, _>(GameEngineError::TypeMismatch),
            r matches Ok(d) ==> d.spec_as_u8() == value,
    {
        if value == UNINITIALIZED_TAG {
            Ok(GameEngineDiscriminator::Uninitialized)
        } else if value == CONFIG_TAG {
            Ok(GameEngineDiscriminator::Config)
        } else {
            Err(GameEngineError::TypeMismatch)
        }
    }
}

/// What an instruction sees of one account: its address, the program that owns
/// its storage, the flags the runtime attached to it, and its data.
#[derive(Debug, Clone, PartialEq, Eq)]
pub struct AccountState {
    pub key: Pubkey,
    pub owner: Pubkey,
    pub is_signer: bool,
    pub is_writable: bool,
    pub data: Vec<u8>,
}

/// Compares two identities byte by byte.
pub fn keys_equal(a: &Pubkey, b: &Pubkey) -> (r: bool)
    ensures
        r == (a@ == b@),
{
    let mut i: usize = 0;
    while i < 32
        invariant
            0 <= i <= 32,
            forall|j: int| 0 <= j < i ==> a@[j] == b@[j],
        decreases 32 - i,
    {
        if a[i] != b[i] {
            assert(a@[i as int] != b@[i as int]);
            return false;
        }
        i = i + 1;
    }
    assert(a@ =~= b@);
    true
}

} // verus!
