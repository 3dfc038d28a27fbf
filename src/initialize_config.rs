use vstd::prelude::*;
use vstd::slice::slice_subrange;

use crate::accounts::{AccountState, GameEngineDiscriminator, Pubkey, CONFIG_TAG};
use crate::address::{config_seed_list, config_seeds_with_bump, seed_views, verify_derivation, verify_outcome};
use crate::config::{initialize_outcome, key_view, lemma_round_trip, ConfigView};
use crate::errors::GameEngineError;
use crate::guard::{
    fresh_outcome, load_signer, load_system_account, load_system_program, signer_outcome,
    system_program_outcome,
};
use crate::instructions::{GameEngineInstructions, INITIALIZE_OPCODE};
use crate::layout::{decode_fee, encode_fee, fee_bytes, fee_of_bytes, lemma_fee_round_trip, push_all, ConfigSchema};

verus! {

/// The payload of an Initialize: the bump of the config address and the fee.
#[derive(Debug, Clone, Copy, PartialEq, Eq, Structural)]
pub struct InitializeConfigIxData {
    pub discriminator: u8,
    pub config_bump: u8,
    pub game_fee_bps: u64,
}

/// The length of an Initialize payload under `schema`: opcode, bump, fee.
pub open spec fn initialize_payload_len(schema: ConfigSchema) -> nat {
    2 + schema.spec_fee_width()
}

/// The bytes of an Initialize payload under `schema`.
pub open spec fn encode_initialize_payload(schema: ConfigSchema, ix: InitializeConfigIxData) -> Seq<u8> {
    seq![ix.discriminator, ix.config_bump] + fee_bytes(schema, ix.game_fee_bps)
}

/// What an Initialize payload holds under `schema`: its length and opcode must
/// be exact.
pub open spec fn decode_initialize_payload(schema: ConfigSchema, d: Seq<u8>) -> Result<
    InitializeConfigIxData,
    GameEngineError,
> {
    if d.len() != initialize_payload_len(schema) || d[0] != INITIALIZE_OPCODE {
        Err(GameEngineError::MalformedPayload)
    } else {
        Ok(
            InitializeConfigIxData {
                discriminator: INITIALIZE_OPCODE,
                config_bump: d[1],
                game_fee_bps: fee_of_bytes(schema, d.subrange(2, d.len() as int)),
            },
        )
    }
}

/// An Initialize payload whose fee fits reads back from its own bytes.
pub proof fn lemma_initialize_payload_round_trip(schema: ConfigSchema, ix: InitializeConfigIxData)
    requires
        ix.discriminator == INITIALIZE_OPCODE,
        schema.fee_fits(ix.game_fee_bps),
    ensures
        decode_initialize_payload(schema, encode_initialize_payload(schema, ix)) == Ok::<
            _,
            GameEngineError,
        >(ix),
{
    lemma_fee_round_trip(schema, ix.game_fee_bps);
    let e = encode_initialize_payload(schema, ix);
    assert(e.subrange(2, e.len() as int) =~= fee_bytes(schema, ix.game_fee_bps));
}

/// The number of accounts an Initialize takes: config, base, admin, the
/// server where the schema has one, rent, and the system program.
pub open spec fn initialize_arity(schema: ConfigSchema) -> nat {
    if schema.has_server {
        6
    } else {
        5
    }
}

/// Whether a buffer already carries the config tag.
pub open spec fn is_tagged(d: Seq<u8>) -> bool {
    d.len() > 0 && d[0] == CONFIG_TAG
}

/// The checks of an Initialize, in order: the payload, the number of
/// accounts, a config buffer that is already tagged, the system program, a
/// fresh writable config account, the derivation of its address from the base
/// and the bump, and an admin that signed and is writable.
pub open spec fn initialize_check_outcome(
    schema: ConfigSchema,
    program_id: Seq<u8>,
    accounts: Seq<AccountState>,
    data: Seq<u8>,
) -> Result<InitializeConfigIxData, GameEngineError> {
    match decode_initialize_payload(schema, data) {
        Err(e) => Err(e),
        Ok(ix) => if accounts.len() != initialize_arity(schema) {
            Err(GameEngineError::NotEnoughAccountKeys)
        } else if is_tagged(accounts[0].data@) {
            Err(GameEngineError::AlreadyInitialized)
        } else if system_program_outcome(accounts[accounts.len() - 1]) is Err {
            Err(GameEngineError::IncorrectProgramId)
        } else {
            match fresh_outcome(accounts[0], true) {
                Err(e) => Err(e),
                Ok(_) => if verify_outcome(
                    program_id,
                    accounts[1].key@,
                    ix.config_bump,
                    accounts[0].key@,
                ) is Err {
                    Err(GameEngineError::InvalidSeeds)
                } else {
                    match signer_outcome(accounts[2], true) {
                        Err(e) => Err(e),
                        Ok(_) => Ok(ix),
                    }
                },
            }
        }
    }
}

/// What an Initialize asks of the hosting engine once its checks pass:
/// allocate `space` bytes for the config account, owned by `owner`, signed
/// with `signer_seeds`; then the record is written with `Config::initialize`.
pub struct InitializePlan {
    pub bump: u8,
    pub base: Pubkey,
    pub admin: Pubkey,
    pub server: Option<Pubkey>,
    pub game_fee_bps: u64,
    pub space: u64,
    pub owner: Pubkey,
    pub signer_seeds: Vec<Vec<u8>>,
}

impl InitializePlan {
    /// Whether this plan is the one an Initialize with payload `ix` on
    /// `accounts` calls for: the record takes its bump and fee from the
    /// payload and its base, admin and server from the accounts, and the
    /// allocation has the record's exact size, belongs to the program and is
    /// signed with the config seeds.
    pub open spec fn carries(
        self,
        schema: ConfigSchema,
        program_id: Seq<u8>,
        accounts: Seq<AccountState>,
        ix: InitializeConfigIxData,
    ) -> bool {
        &&& self.bump == ix.config_bump
        &&& self.base == accounts[1].key
        &&& self.admin == accounts[2].key
        &&& self.server == (if schema.has_server {
            Some(accounts[3].key)
        } else {
            None
        })
        &&& self.game_fee_bps == ix.game_fee_bps
        &&& self.space == schema.spec_record_len()
        &&& self.owner@ == program_id
        &&& seed_views(self.signer_seeds@) == config_seed_list(self.base@, self.bump)
        &&& self.record().fits(schema)
    }

    /// The record this plan writes.
    pub open spec fn record(self) -> ConfigView {
        ConfigView {
            discriminator: GameEngineDiscriminator::Config,
            bump: self.bump,
            base: self.base@,
            admin: self.admin@,
            server: key_view(self.server),
            game_fee_bps: self.game_fee_bps,
        }
    }
}

impl InitializeConfigIxData {
    pub fn new(config_bump: u8, game_fee_bps: u64) -> (r: Self)
        ensures
            r.discriminator == GameEngineInstructions::InitializeConfig.spec_opcode(),
            r.config_bump == config_bump,
            r.game_fee_bps == game_fee_bps,
    {
        InitializeConfigIxData {
            discriminator: GameEngineInstructions::InitializeConfig.opcode(),
            config_bump,
            game_fee_bps,
        }
    }

    /// The wire bytes of this payload under `schema`, opcode first.
    pub fn to_bytes(&self, schema: ConfigSchema) -> (r: Vec<u8>)
        requires
            schema.fee_fits(self.game_fee_bps),
        ensures
            r@ == encode_initialize_payload(schema, *self),
    {
        let mut v: Vec<u8> = Vec::new();
        v.push(self.discriminator);
        v.push(self.config_bump);
        let b = encode_fee(schema, self.game_fee_bps);
        push_all(&mut v, b.as_slice());
        assert(v@ =~= encode_initialize_payload(schema, *self));
        v
    }

    /// Reads an Initialize payload under `schema`.
    pub fn from_bytes(schema: ConfigSchema, data: &[u8]) -> (r: Result<Self, GameEngineError>)
        ensures
            r == decode_initialize_payload(schema, data@),
    {
        if data.len() != 2 + schema.fee_width() || data[0] != INITIALIZE_OPCODE {
            return Err(GameEngineError::MalformedPayload);
        }
        let fee = decode_fee(schema, slice_subrange(data, 2, data.len()));
        Ok(InitializeConfigIxData { discriminator: INITIALIZE_OPCODE, config_bump: data[1], game_fee_bps: fee })
    }
}

/// Runs the checks of an Initialize and, where they pass, returns what the
/// hosting engine must allocate before the record is written.
pub fn process_initilaize_config(
    schema: ConfigSchema,
    program_id: &Pubkey,
    accounts: &[AccountState],
    data: &[u8],
) -> (r: Result<InitializePlan, GameEngineError>)
    ensures
        match initialize_check_outcome(schema, program_id@, accounts@, data@) {
            Err(e) => r == Err::<InitializePlan, _>(e),
            Ok(ix) => r matches Ok(p) && p.carries(schema, program_id@, accounts@, ix),
        },
{
    let ix = InitializeConfigIxData::from_bytes(schema, data)?;
    let arity: usize = if schema.has_server {
        6
    } else {
        5
    };
    if accounts.len() != arity {
        return Err(GameEngineError::NotEnoughAccountKeys);
    }
    let config = &accounts[0];
    if config.data.len() > 0 && config.data[0] == CONFIG_TAG {
        return Err(GameEngineError::AlreadyInitialized);
    }
    load_system_program(&accounts[arity - 1])?;
    load_system_account(config, true)?;
    let base = &accounts[1];
    verify_derivation(program_id, &base.key, ix.config_bump, &config.key)?;
    let admin = &accounts[2];
    load_signer(admin, true)?;
    let server = if schema.has_server {
        Some(accounts[3].key)
    } else {
        None
    };
    let record_len = schema.record_len();
    Ok(InitializePlan {
        bump: ix.config_bump,
        base: base.key,
        admin: admin.key,
        server,
        game_fee_bps: ix.game_fee_bps,
        space: record_len as u64,
        owner: *program_id,
        signer_seeds: config_seeds_with_bump(&base.key, ix.config_bump),
    })
}

/// Initialize happens once per address: once a record has been written into
/// a buffer, an Initialize that names that buffer as its config account is
/// refused with `AlreadyInitialized`, whatever well-formed payload it carries
/// and whatever the other accounts are.
pub proof fn lemma_initialize_once_per_address(
    schema: ConfigSchema,
    program_id: Seq<u8>,
    first: Seq<u8>,
    record: ConfigView,
    accounts: Seq<AccountState>,
    data: Seq<u8>,
)
    requires
        record.fits(schema),
        initialize_outcome(schema, first, record) is Ok,
        accounts.len() == initialize_arity(schema),
        accounts[0].data@ == initialize_outcome(schema, first, record)->Ok_0,
        decode_initialize_payload(schema, data) is Ok,
    ensures
        initialize_check_outcome(schema, program_id, accounts, data) == Err::<
            InitializeConfigIxData,
            _,
        >(GameEngineError::AlreadyInitialized),
{
    lemma_round_trip(schema, record);
}

} // verus!
