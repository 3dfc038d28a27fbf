use vstd::prelude::*;

verus! {

/// Every way an instruction can be refused. Each check has its own variant, so
/// a caller always learns which check failed.
#[derive(Debug, Clone, Copy, PartialEq, Eq, Structural)]
pub enum GameEngineError {
    /// The first payload byte names no known instruction.
    UnknownInstruction,
    /// The payload has the wrong length or an ill-formed field.
    MalformedPayload,
    /// The account list does not have the arity the instruction expects.
    NotEnoughAccountKeys,
    /// The account passed as the system program is not the system program.
    IncorrectProgramId,
    /// A record buffer does not have the schema's exact length.
    SizeMismatch,
    /// A record buffer does not start with the config type tag.
    TypeMismatch,
    /// The seeds and bump do not derive the claimed address.
    InvalidSeeds,
    /// The account is not owned by the expected program.
    InvalidOwner,
    /// The account is not flagged writable.
    NotWritable,
    /// The account did not sign the transaction.
    MissingSignature,
    /// The signer is not the record's admin.
    Unauthorized,
    /// The target account already holds data.
    AlreadyInitialized,
}

} // verus!
