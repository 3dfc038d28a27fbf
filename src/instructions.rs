use vstd::prelude::*;

use crate::accounts::{AccountState, Pubkey};
use crate::errors::GameEngineError;
use crate::initialize_config::{initialize_check_outcome, process_initilaize_config, InitializePlan};
use crate::layout::ConfigSchema;
use crate::update_config::{first_data_replaced, process_update_config, update_process_outcome};

verus! {

/// Opcode of Initialize, the first byte of its payload.
pub const INITIALIZE_OPCODE: u8 = 1;

/// Opcode of Update, the first byte of its payload.
pub const UPDATE_OPCODE: u8 = 2;

/// The instructions the program accepts.
#[derive(Debug, Clone, Copy, PartialEq, Eq, Structural)]
pub enum GameEngineInstructions {
    InitializeConfig,
    UpdateConfig,
}

impl GameEngineInstructions {
    pub open spec fn spec_opcode(self) -> u8 {
        match self {
            GameEngineInstructions::InitializeConfig => INITIALIZE_OPCODE,
            GameEngineInstructions::UpdateConfig => UPDATE_OPCODE,
        }
    }

    pub fn opcode(&self) -> (r: u8)
        ensures
            r == self.spec_opcode(),
    {
        match self {
            GameEngineInstructions::InitializeConfig => INITIALIZE_OPCODE,
            GameEngineInstructions::UpdateConfig => UPDATE_OPCODE,
        }
    }

    /// Reads an opcode byte.
    pub fn try_from(value: &u8) -> (r: Result<GameEngineInstructions, GameEngineError>)
        ensures
            *value == INITIALIZE_OPCODE ==> r == Ok::<_, GameEngineError>(GameEngineInstructions::InitializeConfig),
            *value == UPDATE_OPCODE ==> r == Ok::<_, GameEngineError>(GameEngineInstructions::UpdateConfig),
            *value != INITIALIZE_OPCODE && *value != UPDATE_OPCODE ==> r == Err::<GameEngineInstructions, _>(GameEngineError::UnknownInstruction),
    {
        if *value == INITIALIZE_OPCODE {
            Ok(GameEngineInstructions::InitializeConfig)
        } else if *value == UPDATE_OPCODE {
            Ok(GameEngineInstructions::UpdateConfig)
        } else {
            Err(GameEngineError::UnknownInstruction)
        }
    }
}

/// What a dispatched instruction leaves to the hosting engine.
pub enum InstructionOutcome {
    /// Initialize passed its checks: allocate as the plan says, then write
    /// the record.
    Allocate(InitializePlan),
    /// Update passed its checks and rewrote the config account's data.
    Updated,
}

/// Reads the opcode, the first byte of `data`, and runs the matching
/// instruction with the rest of the payload and the account list.
pub fn process_instruction(
    schema: ConfigSchema,
    program_id: &Pubkey,
    accounts: &mut Vec<AccountState>,
    data: &[u8],
) -> (r: Result<InstructionOutcome, GameEngineError>)
    ensures
        data@.len() == 0 ==> r is Err && r->Err_0 == GameEngineError::MalformedPayload,
        data@.len() > 0 && data@[0] != INITIALIZE_OPCODE && data@[0] != UPDATE_OPCODE ==> r is Err
            && r->Err_0 == GameEngineError::UnknownInstruction,
        data@.len() > 0 && data@[0] == INITIALIZE_OPCODE ==> match initialize_check_outcome(
            schema,
            program_id@,
            old(accounts)@,
            data@,
        ) {
            Ok(ix) => r matches Ok(InstructionOutcome::Allocate(p)) && p.carries(
                schema,
                program_id@,
                old(accounts)@,
                ix,
            ),
            Err(e) => r is Err && r->Err_0 == e,
        },
        data@.len() > 0 && data@[0] == UPDATE_OPCODE ==> match update_process_outcome(
            schema,
            program_id@,
            old(accounts)@,
            data@,
        ) {
            Ok(d) => r matches Ok(InstructionOutcome::Updated) && first_data_replaced(
                old(accounts)@,
                final(accounts)@,
                d,
            ),
            Err(e) => r is Err && r->Err_0 == e,
        },
        !(data@.len() > 0 && data@[0] == UPDATE_OPCODE && update_process_outcome(
            schema,
            program_id@,
            old(accounts)@,
            data@,
        ) is Ok) ==> final(accounts)@ == old(accounts)@,
{
    if data.len() == 0 {
        return Err(GameEngineError::MalformedPayload);
    }
    match GameEngineInstructions::try_from(&data[0])? {
        GameEngineInstructions::InitializeConfig => {
            let plan = process_initilaize_config(schema, program_id, accounts.as_slice(), data)?;
            Ok(InstructionOutcome::Allocate(plan))
        },
        GameEngineInstructions::UpdateConfig => {
            process_update_config(schema, program_id, accounts, data)?;
            Ok(InstructionOutcome::Updated)
        },
    }
}

} // verus!
