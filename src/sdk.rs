use vstd::prelude::*;

use crate::accounts::Pubkey;
use crate::address::{config_seed_prefix, derive_off_curve, found_view, is_search_result};
use crate::config::{decode_config, key_view, view_result, Config};
use crate::errors::GameEngineError;
use crate::guard::{system_program_id, system_program_key};
use crate::initialize_config::{encode_initialize_payload, InitializeConfigIxData};
use crate::instructions::INITIALIZE_OPCODE;
use crate::layout::ConfigSchema;
use crate::update_config::{encode_update_payload, UpdateConfigIxData, UpdateView};

verus! {

/// The program's address, Dv8yNgZsBkebdLnet7eYNBRN6XbgLNxLKLRoaXZ12jUR.
pub open spec fn declared_program_id() -> Seq<u8> {
    seq![
        191u8, 233u8, 10u8, 56u8, 118u8, 119u8, 166u8, 119u8, 33u8, 127u8, 138u8, 241u8, 66u8,
        42u8, 168u8, 26u8, 44u8, 116u8, 110u8, 146u8, 23u8, 179u8, 244u8, 252u8, 33u8, 138u8,
        57u8, 194u8, 66u8, 149u8, 252u8, 70u8,
    ]
}

/// The address of the rent sysvar, SysvarRent111111111111111111111111111111111.
pub open spec fn rent_sysvar_id() -> Seq<u8> {
    seq![
        6u8, 167u8, 213u8, 23u8, 25u8, 44u8, 92u8, 81u8, 33u8, 140u8, 201u8, 76u8, 61u8, 74u8,
        241u8, 127u8, 88u8, 218u8, 238u8, 8u8, 155u8, 161u8, 253u8, 68u8, 227u8, 219u8, 217u8,
        138u8, 0u8, 0u8, 0u8, 0u8,
    ]
}

/// One account of an instruction, with the flags the caller asks for.
#[derive(Debug, Clone, Copy, PartialEq, Eq)]
pub struct AccountMeta {
    pub pubkey: Pubkey,
    pub is_signer: bool,
    pub is_writable: bool,
}

/// An instruction ready to be put in a transaction.
pub struct Instruction {
    pub program_id: Pubkey,
    pub accounts: Vec<AccountMeta>,
    pub data: Vec<u8>,
}

pub open spec fn is_meta(m: AccountMeta, key: Seq<u8>, is_signer: bool, is_writable: bool) -> bool {
    m.pubkey@ == key && m.is_signer == is_signer && m.is_writable == is_writable
}

pub fn turn_based_engine_program_id() -> (r: Pubkey)
    ensures
        r@ == declared_program_id(),
{
    let r: Pubkey = [
        191u8, 233u8, 10u8, 56u8, 118u8, 119u8, 166u8, 119u8, 33u8, 127u8, 138u8, 241u8, 66u8,
        42u8, 168u8, 26u8, 44u8, 116u8, 110u8, 146u8, 23u8, 179u8, 244u8, 252u8, 33u8, 138u8,
        57u8, 194u8, 66u8, 149u8, 252u8, 70u8,
    ];
    assert(r@ =~= declared_program_id());
    r
}

pub fn rent_sysvar_key() -> (r: Pubkey)
    ensures
        r@ == rent_sysvar_id(),
{
    let r: Pubkey = [
        6u8, 167u8, 213u8, 23u8, 25u8, 44u8, 92u8, 81u8, 33u8, 140u8, 201u8, 76u8, 61u8, 74u8,
        241u8, 127u8, 88u8, 218u8, 238u8, 8u8, 155u8, 161u8, 253u8, 68u8, 227u8, 219u8, 217u8,
        138u8, 0u8, 0u8, 0u8, 0u8,
    ];
    assert(r@ =~= rent_sysvar_id());
    r
}

/// The canonical config address of `base` under this program, with its bump.
pub fn config_address(base: &Pubkey) -> (r: Option<(Pubkey, u8)>)
    ensures
        is_search_result(config_seed_prefix(base@), declared_program_id(), found_view(r)),
{
    derive_off_curve(&turn_based_engine_program_id(), base)
}

/// Reads a config record from an account's data.
pub fn deserialize_config(schema: ConfigSchema, data: &[u8]) -> (r: Result<Config, GameEngineError>)
    ensures
        view_result(r) == decode_config(schema, data@),
{
    Config::load_account(schema, data)
}

/// Builds an Initialize for the config of `base`: accounts config, base,
/// admin (signer and payer), the server where the schema has one, rent and the
/// system program; the payload carries the canonical bump and the fee. `None`
/// where no bump derives a config address.
pub fn initialize_config_ix(
    schema: ConfigSchema,
    base: &Pubkey,
    admin: &Pubkey,
    server: Option<Pubkey>,
    game_fee_bps: u64,
) -> (r: Option<Instruction>)
    requires
        schema.has_server == server is Some,
        schema.fee_fits(game_fee_bps),
    ensures
        r is None <==> is_search_result(config_seed_prefix(base@), declared_program_id(), None),
        r matches Some(ix) ==> {
            let n = ix.accounts@.len();
            &&& ix.program_id@ == declared_program_id()
            &&& ix.data@.len() > 1
            &&& is_search_result(
                config_seed_prefix(base@),
                declared_program_id(),
                Some((ix.accounts@[0].pubkey@, ix.data@[1])),
            )
            &&& ix.data@ == encode_initialize_payload(
                schema,
                InitializeConfigIxData {
                    discriminator: INITIALIZE_OPCODE,
                    config_bump: ix.data@[1],
                    game_fee_bps,
                },
            )
            &&& n == if schema.has_server {
                6nat
            } else {
                5nat
            }
            &&& is_meta(ix.accounts@[0], ix.accounts@[0].pubkey@, false, true)
            &&& is_meta(ix.accounts@[1], base@, false, false)
            &&& is_meta(ix.accounts@[2], admin@, true, true)
            &&& (server matches Some(s) ==> is_meta(ix.accounts@[3], s@, false, false))
            &&& is_meta(ix.accounts@[n - 2], rent_sysvar_id(), false, false)
            &&& is_meta(ix.accounts@[n - 1], system_program_id(), false, false)
        },
{
    let program_id = turn_based_engine_program_id();
    let (config, bump) = match config_address(base) {
        Some(found) => found,
        None => {
            return None;
        },
    };
    let mut accounts: Vec<AccountMeta> = Vec::new();
    accounts.push(AccountMeta { pubkey: config, is_signer: false, is_writable: true });
    accounts.push(AccountMeta { pubkey: *base, is_signer: false, is_writable: false });
    accounts.push(AccountMeta { pubkey: *admin, is_signer: true, is_writable: true });
    if let Some(s) = server {
        accounts.push(AccountMeta { pubkey: s, is_signer: false, is_writable: false });
    }
    accounts.push(AccountMeta { pubkey: rent_sysvar_key(), is_signer: false, is_writable: false });
    accounts.push(
        AccountMeta { pubkey: system_program_key(), is_signer: false, is_writable: false },
    );
    let payload = InitializeConfigIxData::new(bump, game_fee_bps);
    let data = payload.to_bytes(schema);
    Some(Instruction { program_id, accounts, data })
}

/// Builds an Update for the config of `base`, signed by `admin`: accounts
/// config and admin; the payload sets each field given and keeps the others.
/// `None` where no bump derives a config address.
pub fn update_config_ix(
    schema: ConfigSchema,
    base: &Pubkey,
    admin: &Pubkey,
    new_admin: Option<Pubkey>,
    new_server: Option<Pubkey>,
    new_game_fee_bps: Option<u64>,
) -> (r: Option<Instruction>)
    requires
        new_server is Some ==> schema.has_server,
        new_game_fee_bps matches Some(f) ==> schema.fee_fits(f),
    ensures
        r is None <==> is_search_result(config_seed_prefix(base@), declared_program_id(), None),
        r matches Some(ix) ==> {
            &&& ix.program_id@ == declared_program_id()
            &&& exists|bump: u8|
                #[trigger] is_search_result(
                    config_seed_prefix(base@),
                    declared_program_id(),
                    Some((ix.accounts@[0].pubkey@, bump)),
                )
            &&& ix.accounts@.len() == 2
            &&& is_meta(ix.accounts@[0], ix.accounts@[0].pubkey@, false, true)
            &&& is_meta(ix.accounts@[1], admin@, true, true)
            &&& ix.data@ == encode_update_payload(
                schema,
                UpdateView {
                    new_admin: key_view(new_admin),
                    new_server: key_view(new_server),
                    new_game_fee_bps,
                },
            )
        },
{
    let program_id = turn_based_engine_program_id();
    let (config, bump) = match config_address(base) {
        Some(found) => found,
        None => {
            return None;
        },
    };
    let mut accounts: Vec<AccountMeta> = Vec::new();
    accounts.push(AccountMeta { pubkey: config, is_signer: false, is_writable: true });
    accounts.push(AccountMeta { pubkey: *admin, is_signer: true, is_writable: true });
    let payload = UpdateConfigIxData::new(new_admin, new_server, new_game_fee_bps);
    let data = payload.to_bytes(schema);
    let ix = Instruction { program_id, accounts, data };
    assert(is_search_result(
        config_seed_prefix(base@),
        declared_program_id(),
        Some((ix.accounts@[0].pubkey@, bump)),
    ));
    Some(ix)
}

} // verus!
