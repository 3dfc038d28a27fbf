use turn_based_engine::accounts::{keys_equal, AccountState, GameEngineDiscriminator, Pubkey};
use turn_based_engine::address::{config_seeds_with_bump, derive_off_curve, verify_derivation};
use turn_based_engine::config::Config;
use turn_based_engine::errors::GameEngineError;
use turn_based_engine::guard::{load_signer, load_system_account, load_system_program, system_program_key};
use turn_based_engine::initialize_config::{process_initilaize_config, InitializeConfigIxData};
use turn_based_engine::instructions::{process_instruction, GameEngineInstructions};
use turn_based_engine::layout::ConfigSchema;
use turn_based_engine::sdk::{config_address, rent_sysvar_key, turn_based_engine_program_id};
use turn_based_engine::update_config::{process_update_config, UpdateConfigIxData};

const GAME_ENGINE: ConfigSchema = ConfigSchema { has_server: true, wide_fee: false };
const EXAMPLE: ConfigSchema = ConfigSchema { has_server: false, wide_fee: true };

fn key(n: u8) -> Pubkey {
    let mut k = [n; 32];
    k[0] = 0xa5;
    k
}

fn sample(server: Option<Pubkey>, fee: u64) -> Config {
    Config {
        discriminator: GameEngineDiscriminator::Config,
        bump: 254,
        base: key(1),
        admin: key(2),
        server,
        game_fee_bps: fee,
    }
}

fn sdk_config_address(program_id: &Pubkey, base: &Pubkey) -> (Pubkey, u8) {
    let seeds: [&[u8]; 2] = [b"CONFIG", base];
    let (a, b) = solana_sdk::pubkey::Pubkey::find_program_address(
        &seeds,
        &solana_sdk::pubkey::Pubkey::new_from_array(*program_id),
    );
    (a.to_bytes(), b)
}

/// A config account that holds a valid record for `base`, owned by the program.
fn stored_config(schema: ConfigSchema, base: &Pubkey, admin: &Pubkey) -> AccountState {
    let (address, bump) = config_address(base).unwrap();
    let server = if schema.has_server { Some(key(9)) } else { None };
    let record = Config {
        discriminator: GameEngineDiscriminator::Config,
        bump,
        base: *base,
        admin: *admin,
        server,
        game_fee_bps: 300,
    };
    AccountState {
        key: address,
        owner: turn_based_engine_program_id(),
        is_signer: false,
        is_writable: true,
        data: record.to_bytes(schema),
    }
}

fn signer(key: Pubkey) -> AccountState {
    AccountState { key, owner: [0u8; 32], is_signer: true, is_writable: true, data: Vec::new() }
}

fn plain(key: Pubkey) -> AccountState {
    AccountState { key, owner: [0u8; 32], is_signer: false, is_writable: false, data: Vec::new() }
}

/// The six accounts of an Initialize under the game-engine schema.
fn initialize_accounts(base: &Pubkey) -> Vec<AccountState> {
    let (address, _) = config_address(base).unwrap();
    let mut config = plain(address);
    config.is_writable = true;
    vec![config, plain(*base), signer(key(2)), plain(key(3)), plain(rent_sysvar_key()), plain(system_program_key())]
}

fn initialize_payload(base: &Pubkey, fee: u32) -> Vec<u8> {
    let (_, bump) = config_address(base).unwrap();
    let mut d = vec![1u8, bump];
    d.extend_from_slice(&fee.to_le_bytes());
    d
}

#[test]
fn record_layout_exact_bytes() {
    let bytes = sample(Some(key(3)), 100).to_bytes(GAME_ENGINE);
    assert_eq!(bytes.len(), 102);
    assert_eq!(bytes[0], 1);
    assert_eq!(bytes[1], 254);
    assert_eq!(&bytes[2..34], &key(1));
    assert_eq!(&bytes[34..66], &key(2));
    assert_eq!(&bytes[66..98], &key(3));
    assert_eq!(&bytes[98..102], &[100, 0, 0, 0]);

    let bytes = sample(None, 0x0102_0304_0506_0708).to_bytes(EXAMPLE);
    assert_eq!(bytes.len(), 74);
    assert_eq!(&bytes[66..74], &[8, 7, 6, 5, 4, 3, 2, 1]);
}

#[test]
fn record_round_trip_all_schemas() {
    for has_server in [false, true] {
        for wide_fee in [false, true] {
            let schema = ConfigSchema { has_server, wide_fee };
            let server = if has_server { Some(key(3)) } else { None };
            for fee in [0u64, 1, 100, 10_000, u32::MAX as u64] {
                let c = sample(server, fee);
                assert_eq!(Config::load_account(schema, &c.to_bytes(schema)), Ok(c));
            }
        }
    }
    let c = sample(None, u64::MAX);
    assert_eq!(Config::load_account(EXAMPLE, &c.to_bytes(EXAMPLE)), Ok(c));
}

#[test]
fn wrong_size_buffers_are_size_mismatch() {
    let good = sample(Some(key(3)), 5).to_bytes(GAME_ENGINE);
    for len in [0usize, 1, 101, 103, 200] {
        let mut d = vec![1u8; len];
        if len <= good.len() {
            d.copy_from_slice(&good[..len]);
        }
        assert_eq!(Config::load_account(GAME_ENGINE, &d), Err(GameEngineError::SizeMismatch));
        let ix = UpdateConfigIxData::new(Some(key(7)), None, None);
        assert_eq!(Config::update(GAME_ENGINE, &mut d, &ix), Err(GameEngineError::SizeMismatch));
        assert_eq!(
            Config::initialize(GAME_ENGINE, &mut d, 1, &key(1), &key(2), Some(key(3)), 4),
            Err(GameEngineError::SizeMismatch)
        );
    }
}

#[test]
fn untagged_buffer_is_type_mismatch() {
    let mut d = sample(Some(key(3)), 5).to_bytes(GAME_ENGINE);
    d[0] = 0;
    assert_eq!(Config::load_account(GAME_ENGINE, &d), Err(GameEngineError::TypeMismatch));
    d[0] = 7;
    let ix = UpdateConfigIxData::new(None, None, Some(1));
    assert_eq!(Config::update(GAME_ENGINE, &mut d, &ix), Err(GameEngineError::TypeMismatch));
}

#[test]
fn initialize_writes_fresh_buffer_once() {
    let mut d = vec![0u8; 102];
    assert_eq!(Config::initialize(GAME_ENGINE, &mut d, 9, &key(1), &key(2), Some(key(3)), 77), Ok(()));
    let c = Config::load_account(GAME_ENGINE, &d).unwrap();
    assert_eq!((c.bump, c.base, c.admin, c.server, c.game_fee_bps), (9, key(1), key(2), Some(key(3)), 77));
    let before = d.clone();
    assert_eq!(
        Config::initialize(GAME_ENGINE, &mut d, 1, &key(4), &key(5), Some(key(6)), 1),
        Err(GameEngineError::AlreadyInitialized)
    );
    assert_eq!(d, before);
}

#[test]
fn update_overwrites_only_given_fields() {
    let mut d = sample(Some(key(3)), 5).to_bytes(GAME_ENGINE);
    let ix = UpdateConfigIxData::new(None, Some(key(8)), None);
    Config::update(GAME_ENGINE, &mut d, &ix).unwrap();
    assert_eq!(Config::load_account(GAME_ENGINE, &d), Ok(sample(Some(key(8)), 5)));
}

#[test]
fn payload_codecs() {
    let ix = InitializeConfigIxData::new(200, 100);
    assert_eq!(ix.to_bytes(GAME_ENGINE), vec![1, 200, 100, 0, 0, 0]);
    assert_eq!(InitializeConfigIxData::from_bytes(GAME_ENGINE, &[1, 200, 100, 0, 0, 0]), Ok(ix));
    assert_eq!(ix.to_bytes(EXAMPLE).len(), 10);

    let u = UpdateConfigIxData::new(Some(key(4)), None, Some(300));
    let bytes = u.to_bytes(GAME_ENGINE);
    assert_eq!(bytes.len(), 72);
    assert_eq!(bytes[0], 2);
    assert_eq!(bytes[1], 1);
    assert_eq!(bytes[34], 0);
    assert_eq!(&bytes[67..72], &[1, 44, 1, 0, 0]);
    assert_eq!(UpdateConfigIxData::from_bytes(GAME_ENGINE, &bytes), Ok(u));
    assert_eq!(UpdateConfigIxData::new(None, None, None).to_bytes(EXAMPLE).len(), 43);

    let mut bad = bytes.clone();
    bad[1] = 2;
    assert_eq!(UpdateConfigIxData::from_bytes(GAME_ENGINE, &bad), Err(GameEngineError::MalformedPayload));
    assert_eq!(UpdateConfigIxData::from_bytes(GAME_ENGINE, &bytes[..71]), Err(GameEngineError::MalformedPayload));
    assert_eq!(InitializeConfigIxData::from_bytes(GAME_ENGINE, &[2, 200, 100, 0, 0, 0]), Err(GameEngineError::MalformedPayload));
}

#[test]
fn opcodes_and_tags() {
    assert_eq!(GameEngineInstructions::try_from(&1), Ok(GameEngineInstructions::InitializeConfig));
    assert_eq!(GameEngineInstructions::try_from(&2), Ok(GameEngineInstructions::UpdateConfig));
    assert_eq!(GameEngineInstructions::try_from(&0), Err(GameEngineError::UnknownInstruction));
    assert_eq!(GameEngineDiscriminator::from_u8(0), Ok(GameEngineDiscriminator::Uninitialized));
    assert_eq!(GameEngineDiscriminator::from_u8(1), Ok(GameEngineDiscriminator::Config));
    assert_eq!(GameEngineDiscriminator::from_u8(2), Err(GameEngineError::TypeMismatch));
    assert_eq!(GameEngineDiscriminator::Config.as_u8(), 1);
}

#[test]
fn identities_match_the_outside_crates() {
    assert_eq!(
        turn_based_engine_program_id(),
        pinocchio_pubkey::from_str("Dv8yNgZsBkebdLnet7eYNBRN6XbgLNxLKLRoaXZ12jUR")
    );
    assert_eq!(rent_sysvar_key(), solana_sdk::sysvar::rent::id().to_bytes());
    assert_eq!(system_program_key(), pinocchio_system::ID);
    assert!(keys_equal(&key(1), &key(1)));
    assert!(!keys_equal(&key(1), &key(2)));
}

#[test]
fn derivation_is_deterministic_and_verifies() {
    let program_id = turn_based_engine_program_id();
    for n in [1u8, 2, 3, 77, 200] {
        let base = key(n);
        let found = derive_off_curve(&program_id, &base).unwrap();
        assert_eq!(derive_off_curve(&program_id, &base), Some(found));
        assert_eq!(found, sdk_config_address(&program_id, &base));
        assert_eq!(config_address(&base), Some(found));
        let (address, bump) = found;
        assert_eq!(verify_derivation(&program_id, &base, bump, &address), Ok(()));
        for other in 0..=255u8 {
            if other != bump {
                assert_eq!(
                    verify_derivation(&program_id, &base, other, &address),
                    Err(GameEngineError::InvalidSeeds)
                );
            }
        }
    }
}

#[test]
fn create_program_address_matches_sdk() {
    let program_id = turn_based_engine_program_id();
    let base = key(4);
    let (address, bump) = sdk_config_address(&program_id, &base);
    assert_eq!(Config::create_program_address(&program_id, &base, bump), Ok(address));
    let seeds: [&[u8]; 3] = [b"CONFIG", &base, &[bump - 1]];
    let sdk = solana_sdk::pubkey::Pubkey::create_program_address(
        &seeds,
        &solana_sdk::pubkey::Pubkey::new_from_array(program_id),
    );
    match sdk {
        Ok(a) => assert_eq!(Config::create_program_address(&program_id, &base, bump - 1), Ok(a.to_bytes())),
        Err(_) => assert_eq!(
            Config::create_program_address(&program_id, &base, bump - 1),
            Err(GameEngineError::InvalidSeeds)
        ),
    }
}

#[test]
fn seeds_are_checked_in_order_and_length() {
    let base = key(5);
    let seeds = config_seeds_with_bump(&base, 9);
    assert_eq!(seeds, vec![b"CONFIG".to_vec(), base.to_vec(), vec![9]]);
    assert_eq!(Config::check_seeds(&base, 9, &seeds), Ok(()));
    assert_eq!(Config::check_seeds(&base, 8, &seeds), Err(GameEngineError::InvalidSeeds));
    let mut longer = seeds.clone();
    longer[0].push(0);
    assert_eq!(Config::check_seeds(&base, 9, &longer), Err(GameEngineError::InvalidSeeds));
    let mut swapped = seeds.clone();
    swapped.swap(0, 1);
    assert_eq!(Config::check_seeds(&base, 9, &swapped), Err(GameEngineError::InvalidSeeds));
    assert_eq!(Config::check_seeds(&base, 9, &seeds[..2].to_vec()), Err(GameEngineError::InvalidSeeds));
}

#[test]
fn guard_checks() {
    let mut a = signer(key(1));
    assert_eq!(load_signer(&a, true), Ok(()));
    a.is_writable = false;
    assert_eq!(load_signer(&a, true), Err(GameEngineError::NotWritable));
    assert_eq!(load_signer(&a, false), Ok(()));
    a.is_signer = false;
    assert_eq!(load_signer(&a, false), Err(GameEngineError::MissingSignature));

    let mut fresh = plain(key(2));
    fresh.is_writable = true;
    assert_eq!(load_system_account(&fresh, true), Ok(()));
    fresh.data = vec![0];
    assert_eq!(load_system_account(&fresh, true), Err(GameEngineError::AlreadyInitialized));
    fresh.owner = key(3);
    assert_eq!(load_system_account(&fresh, true), Err(GameEngineError::InvalidOwner));

    assert_eq!(load_system_program(&plain([0u8; 32])), Ok(()));
    assert_eq!(load_system_program(&plain(key(4))), Err(GameEngineError::IncorrectProgramId));
}

#[test]
fn dispatcher_errors() {
    let program_id = turn_based_engine_program_id();
    let mut accounts = Vec::new();
    assert_eq!(process_instruction(GAME_ENGINE, &program_id, &mut accounts, &[]).err(), Some(GameEngineError::MalformedPayload));
    assert_eq!(process_instruction(GAME_ENGINE, &program_id, &mut accounts, &[9]).err(), Some(GameEngineError::UnknownInstruction));
    assert_eq!(process_instruction(GAME_ENGINE, &program_id, &mut accounts, &[1, 2]).err(), Some(GameEngineError::MalformedPayload));
}

#[test]
fn initialize_errors_in_order() {
    let program_id = turn_based_engine_program_id();
    let base = key(6);
    let data = initialize_payload(&base, 100);
    let good = initialize_accounts(&base);
    assert!(process_initilaize_config(GAME_ENGINE, &program_id, &good, &data).is_ok());

    let err = |accounts: &Vec<AccountState>, data: &[u8]| {
        process_initilaize_config(GAME_ENGINE, &program_id, accounts, data).err()
    };
    assert_eq!(err(&good, &data[..5]), Some(GameEngineError::MalformedPayload));
    assert_eq!(err(&good[..5].to_vec(), &data), Some(GameEngineError::NotEnoughAccountKeys));

    let mut a = good.clone();
    a[5].key = key(7);
    assert_eq!(err(&a, &data), Some(GameEngineError::IncorrectProgramId));

    let mut a = good.clone();
    a[0].owner = key(8);
    assert_eq!(err(&a, &data), Some(GameEngineError::InvalidOwner));

    let mut a = good.clone();
    a[0].is_writable = false;
    assert_eq!(err(&a, &data), Some(GameEngineError::NotWritable));

    let mut wrong_bump = data.clone();
    wrong_bump[1] = wrong_bump[1].wrapping_add(1);
    assert_eq!(err(&good, &wrong_bump), Some(GameEngineError::InvalidSeeds));

    let mut a = good.clone();
    a[2].is_signer = false;
    assert_eq!(err(&a, &data), Some(GameEngineError::MissingSignature));

    let mut a = good.clone();
    a[0].data = sample(Some(key(3)), 1).to_bytes(GAME_ENGINE);
    a[0].owner = program_id;
    assert_eq!(err(&a, &data), Some(GameEngineError::AlreadyInitialized));

    let plan = process_initilaize_config(GAME_ENGINE, &program_id, &good, &data).unwrap();
    assert_eq!(plan.space, 102);
    assert_eq!(plan.owner, program_id);
    assert_eq!(plan.game_fee_bps, 100);
    assert_eq!(plan.server, Some(key(3)));
    assert_eq!(plan.signer_seeds, config_seeds_with_bump(&base, plan.bump));
}

#[test]
fn update_errors_in_order() {
    let program_id = turn_based_engine_program_id();
    let base = key(10);
    let admin = key(11);
    let data = UpdateConfigIxData::new(None, None, Some(5)).to_bytes(GAME_ENGINE);
    let good = vec![stored_config(GAME_ENGINE, &base, &admin), signer(admin)];

    let run = |mut accounts: Vec<AccountState>, data: &[u8]| {
        process_update_config(GAME_ENGINE, &program_id, &mut accounts, data).map(|_| accounts[0].data.clone())
    };
    let after = run(good.clone(), &data).unwrap();
    assert_eq!(Config::load_account(GAME_ENGINE, &after).unwrap().game_fee_bps, 5);

    assert_eq!(run(good.clone(), &data[..10]), Err(GameEngineError::MalformedPayload));
    assert_eq!(run(good[..1].to_vec(), &data), Err(GameEngineError::NotEnoughAccountKeys));

    let mut a = good.clone();
    a[0].owner = key(12);
    assert_eq!(run(a, &data), Err(GameEngineError::InvalidOwner));

    let mut a = good.clone();
    a[0].is_writable = false;
    assert_eq!(run(a, &data), Err(GameEngineError::NotWritable));

    let mut a = good.clone();
    a[0].data.pop();
    assert_eq!(run(a, &data), Err(GameEngineError::SizeMismatch));

    let mut a = good.clone();
    a[0].data[0] = 0;
    assert_eq!(run(a, &data), Err(GameEngineError::TypeMismatch));

    let mut a = good.clone();
    a[0].key = key(13);
    assert_eq!(run(a, &data), Err(GameEngineError::InvalidSeeds));

    let mut a = good.clone();
    a[1].is_signer = false;
    assert_eq!(run(a, &data), Err(GameEngineError::MissingSignature));

    let mut a = good.clone();
    a[1] = signer(key(14));
    assert_eq!(run(a, &data), Err(GameEngineError::Unauthorized));
}
