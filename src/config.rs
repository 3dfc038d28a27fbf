use vstd::prelude::*;
use vstd::slice::slice_subrange;

use crate::accounts::{keys_equal, AccountState, GameEngineDiscriminator, Pubkey, CONFIG_TAG};
use crate::address::{verify_derivation, verify_outcome};
use crate::errors::GameEngineError;
use crate::guard::{load_signer, require_owned_by, signer_outcome};
use crate::layout::{
    decode_fee, encode_fee, fee_bytes, fee_of_bytes, lemma_fee_round_trip, push_all,
    read_pubkey, splice, write_bytes, ConfigSchema, ADMIN_OFFSET, BASE_OFFSET, SERVER_OFFSET,
};
use crate::update_config::{UpdateConfigIxData, UpdateView};

verus! {

/// The config record: the bump and base that derive its address, the admin
/// allowed to change it, an optional server identity and a fee rate.
#[derive(Debug, Clone, Copy, PartialEq, Eq)]
pub struct Config {
    pub discriminator: GameEngineDiscriminator,
    pub bump: u8,
    pub base: Pubkey,
    pub admin: Pubkey,
    pub server: Option<Pubkey>,
    pub game_fee_bps: u64,
}

/// A config record with its identities as byte sequences.
pub struct ConfigView {
    pub discriminator: GameEngineDiscriminator,
    pub bump: u8,
    pub base: Seq<u8>,
    pub admin: Seq<u8>,
    pub server: Option<Seq<u8>>,
    pub game_fee_bps: u64,
}

pub open spec fn key_view(k: Option<Pubkey>) -> Option<Seq<u8>> {
    match k {
        Some(a) => Some(a@),
        None => None,
    }
}

impl View for Config {
    type V = ConfigView;

    open spec fn view(&self) -> ConfigView {
        ConfigView {
            discriminator: self.discriminator,
            bump: self.bump,
            base: self.base@,
            admin: self.admin@,
            server: key_view(self.server),
            game_fee_bps: self.game_fee_bps,
        }
    }
}

impl ConfigView {
    /// Whether this record can be stored under `schema`: it is tagged as a
    /// config, its identities are 32 bytes, it has a server exactly where the
    /// schema has one, and its fee fits the schema's width.
    pub open spec fn fits(self, schema: ConfigSchema) -> bool {
        &&& self.discriminator == GameEngineDiscriminator::Config
        &&& self.base.len() == 32
        &&& self.admin.len() == 32
        &&& (schema.has_server <==> self.server is Some)
        &&& (self.server matches Some(s) ==> s.len() == 32)
        &&& schema.fee_fits(self.game_fee_bps)
    }

    /// This record after an Update with payload `ix`.
    pub open spec fn updated(self, ix: UpdateView) -> ConfigView {
        ConfigView {
            admin: match ix.new_admin {
                Some(a) => a,
                None => self.admin,
            },
            server: match ix.new_server {
                Some(s) => Some(s),
                None => self.server,
            },
            game_fee_bps: match ix.new_game_fee_bps {
                Some(f) => f,
                None => self.game_fee_bps,
            },
            ..self
        }
    }
}

/// The bytes of the server field under `schema`.
pub open spec fn server_bytes(schema: ConfigSchema, server: Option<Seq<u8>>) -> Seq<u8> {
    if schema.has_server {
        match server {
            Some(s) => s,
            None => Seq::new(32, |i: int| 0u8),
        }
    } else {
        Seq::empty()
    }
}

/// The bytes of a record under `schema`: tag, bump, base, admin, the server
/// where the schema has one, then the fee in little-endian order.
pub open spec fn encode_config(schema: ConfigSchema, c: ConfigView) -> Seq<u8> {
    seq![c.discriminator.spec_as_u8(), c.bump] + c.base + c.admin + server_bytes(schema, c.server)
        + fee_bytes(schema, c.game_fee_bps)
}

/// What a buffer holds when read as a record of `schema`: a buffer of any
/// other length is a size mismatch, one whose first byte is not the config tag
/// a type mismatch.
pub open spec fn decode_config(schema: ConfigSchema, d: Seq<u8>) -> Result<
    ConfigView,
    GameEngineError,
> {
    if d.len() != schema.spec_record_len() {
        Err(GameEngineError::SizeMismatch)
    } else if d[0] != CONFIG_TAG {
        Err(GameEngineError::TypeMismatch)
    } else {
        Ok(
            ConfigView {
                discriminator: GameEngineDiscriminator::Config,
                bump: d[1],
                base: d.subrange(2, 34),
                admin: d.subrange(34, 66),
                server: if schema.has_server {
                    Some(d.subrange(66, 98))
                } else {
                    None
                },
                game_fee_bps: fee_of_bytes(
                    schema,
                    d.subrange(schema.spec_fee_offset() as int, d.len() as int),
                ),
            },
        )
    }
}

/// The buffer after the fields that `ix` sets have been overwritten in place;
/// every other byte is kept.
pub open spec fn apply_update(schema: ConfigSchema, d: Seq<u8>, ix: UpdateView) -> Seq<u8> {
    let d1 = match ix.new_admin {
        Some(a) => splice(d, 34, a),
        None => d,
    };
    let d2 = match ix.new_server {
        Some(s) => splice(d1, 66, s),
        None => d1,
    };
    match ix.new_game_fee_bps {
        Some(f) => splice(d2, schema.spec_fee_offset() as int, fee_bytes(schema, f)),
        None => d2,
    }
}

/// The outcome of an Update's write on a buffer: the new buffer, or the error
/// of the read view.
pub open spec fn update_outcome(schema: ConfigSchema, d: Seq<u8>, ix: UpdateView) -> Result<
    Seq<u8>,
    GameEngineError,
> {
    match decode_config(schema, d) {
        Ok(_) => Ok(apply_update(schema, d, ix)),
        Err(e) => Err(e),
    }
}

/// The outcome of an Initialize's write on a freshly allocated buffer: only
/// the size is checked before the tag, and a tagged buffer is refused.
pub open spec fn initialize_outcome(schema: ConfigSchema, d: Seq<u8>, c: ConfigView) -> Result<
    Seq<u8>,
    GameEngineError,
> {
    if d.len() != schema.spec_record_len() {
        Err(GameEngineError::SizeMismatch)
    } else if d[0] == CONFIG_TAG {
        Err(GameEngineError::AlreadyInitialized)
    } else {
        Ok(encode_config(schema, c))
    }
}

pub open spec fn view_result(r: Result<Config, GameEngineError>) -> Result<ConfigView, GameEngineError> {
    match r {
        Ok(c) => Ok(c@),
        Err(e) => Err(e),
    }
}

/// A record that fits its schema reads back from its own bytes unchanged.
pub proof fn lemma_round_trip(schema: ConfigSchema, c: ConfigView)
    requires
        c.fits(schema),
    ensures
        encode_config(schema, c).len() == schema.spec_record_len(),
        decode_config(schema, encode_config(schema, c)) == Ok::<_, GameEngineError>(c),
{
    lemma_fee_round_trip(schema, c.game_fee_bps);
    let e = encode_config(schema, c);
    let off = schema.spec_fee_offset() as int;
    assert(e.subrange(2, 34) =~= c.base);
    assert(e.subrange(34, 66) =~= c.admin);
    if schema.has_server {
        assert(e.subrange(66, 98) =~= c.server->0);
    }
    assert(e.subrange(off, e.len() as int) =~= fee_bytes(schema, c.game_fee_bps));
}

/// A buffer of any length but the schema's is refused with a size mismatch by
/// the read view and by both write views.
pub proof fn lemma_size_mismatch(
    schema: ConfigSchema,
    d: Seq<u8>,
    ix: UpdateView,
    c: ConfigView,
)
    requires
        d.len() != schema.spec_record_len(),
    ensures
        decode_config(schema, d) == Err::<ConfigView, _>(GameEngineError::SizeMismatch),
        update_outcome(schema, d, ix) == Err::<Seq<u8>, _>(GameEngineError::SizeMismatch),
        initialize_outcome(schema, d, c) == Err::<Seq<u8>, _>(GameEngineError::SizeMismatch),
{
}

/// An Update that sets no field leaves every byte of the buffer as it was.
pub proof fn lemma_update_nothing(schema: ConfigSchema, d: Seq<u8>, ix: UpdateView)
    requires
        ix.new_admin is None,
        ix.new_server is None,
        ix.new_game_fee_bps is None,
    ensures
        apply_update(schema, d, ix) == d,
{
}

/// Reading a record back after an Update gives the record with exactly the
/// fields that the payload sets changed.
pub proof fn lemma_update_reads_back(schema: ConfigSchema, d: Seq<u8>, ix: UpdateView)
    requires
        decode_config(schema, d) is Ok,
        ix.fits(schema),
    ensures
        decode_config(schema, apply_update(schema, d, ix)) == Ok::<_, GameEngineError>(
            decode_config(schema, d)->Ok_0.updated(ix),
        ),
{
    let off = schema.spec_fee_offset() as int;
    let n = d.len() as int;
    let d3 = apply_update(schema, d, ix);
    if let Some(f) = ix.new_game_fee_bps {
        lemma_fee_round_trip(schema, f);
    }
    assert(d3.len() == n);
    assert(d3[0] == d[0]);
    assert(d3[1] == d[1]);
    assert(d3.subrange(2, 34) =~= d.subrange(2, 34));
    match ix.new_admin {
        Some(a) => assert(d3.subrange(34, 66) =~= a),
        None => assert(d3.subrange(34, 66) =~= d.subrange(34, 66)),
    }
    if schema.has_server {
        match ix.new_server {
            Some(s) => assert(d3.subrange(66, 98) =~= s),
            None => assert(d3.subrange(66, 98) =~= d.subrange(66, 98)),
        }
    }
    match ix.new_game_fee_bps {
        Some(f) => assert(d3.subrange(off, n) =~= fee_bytes(schema, f)),
        None => assert(d3.subrange(off, n) =~= d.subrange(off, n)),
    }
}

/// Once a buffer has been initialized, initializing it again is refused,
/// whatever record the second attempt carries.
pub proof fn lemma_initialize_once(schema: ConfigSchema, d: Seq<u8>, c: ConfigView, c2: ConfigView)
    requires
        c.fits(schema),
        initialize_outcome(schema, d, c) is Ok,
    ensures
        initialize_outcome(schema, initialize_outcome(schema, d, c)->Ok_0, c2)
            == Err::<Seq<u8>, _>(GameEngineError::AlreadyInitialized),
{
    lemma_round_trip(schema, c);
}

/// The admin check: the buffer must read as a record whose admin is the
/// signer's identity.
pub open spec fn admin_outcome(schema: ConfigSchema, data: Seq<u8>, signer: Seq<u8>) -> Result<
    (),
    GameEngineError,
> {
    match decode_config(schema, data) {
        Err(e) => Err(e),
        Ok(c) => if c.admin != signer {
            Err(GameEngineError::Unauthorized)
        } else {
            Ok(())
        },
    }
}

/// Loading a config account, checks in this order: the program owns it, it is
/// writable where asked, its data reads as a record, the record's base and
/// bump derive the account's own address, and, where an admin account is
/// given, that account signed, is writable and is the record's admin.
pub open spec fn load_outcome(
    schema: ConfigSchema,
    program_id: Seq<u8>,
    account: AccountState,
    expect_writable: bool,
    admin: Option<AccountState>,
) -> Result<(), GameEngineError> {
    if account.owner@ != program_id {
        Err(GameEngineError::InvalidOwner)
    } else if expect_writable && !account.is_writable {
        Err(GameEngineError::NotWritable)
    } else {
        match decode_config(schema, account.data@) {
            Err(e) => Err(e),
            Ok(c) => if verify_outcome(program_id, c.base, c.bump, account.key@) is Err {
                Err(GameEngineError::InvalidSeeds)
            } else {
                match admin {
                    None => Ok(()),
                    Some(a) => match signer_outcome(a, true) {
                        Err(e) => Err(e),
                        Ok(_) => admin_outcome(schema, account.data@, a.key@),
                    },
                }
            },
        }
    }
}

impl Config {
    /// Loads a config account and checks it, and its admin where one is given,
    /// as `load_outcome` lists.
    pub fn load(
        schema: ConfigSchema,
        program_id: &Pubkey,
        account: &AccountState,
        expect_writable: bool,
        check_admin: Option<&AccountState>,
    ) -> (r: Result<(), GameEngineError>)
        ensures
            r == load_outcome(
                schema,
                program_id@,
                *account,
                expect_writable,
                match check_admin {
                    Some(a) => Some(*a),
                    None => None,
                },
            ),
    {
        require_owned_by(account, program_id)?;
        if expect_writable && !account.is_writable {
            return Err(GameEngineError::NotWritable);
        }
        let c = match Config::load_account(schema, account.data.as_slice()) {
            Ok(c) => c,
            Err(e) => {
                return Err(e);
            },
        };
        if verify_derivation(program_id, &c.base, c.bump, &account.key).is_err() {
            return Err(GameEngineError::InvalidSeeds);
        }
        match check_admin {
            None => Ok(()),
            Some(admin) => {
                load_signer(admin, true)?;
                Config::check_admin(schema, account, admin)
            },
        }
    }

    /// Requires that the record in `account` names `admin` as its admin.
    pub fn check_admin(schema: ConfigSchema, account: &AccountState, admin: &AccountState) -> (r:
        Result<(), GameEngineError>)
        ensures
            r == admin_outcome(schema, account.data@, admin.key@),
    {
        let c = match Config::load_account(schema, account.data.as_slice()) {
            Ok(c) => c,
            Err(e) => {
                return Err(e);
            },
        };
        if !keys_equal(&c.admin, &admin.key) {
            return Err(GameEngineError::Unauthorized);
        }
        Ok(())
    }

    /// Whether the record is tagged as an initialized config.
    pub fn is_initialized(&self) -> (r: bool)
        ensures
            r == (self.discriminator == GameEngineDiscriminator::Config),
    {
        match self.discriminator {
            GameEngineDiscriminator::Config => true,
            GameEngineDiscriminator::Uninitialized => false,
        }
    }

    /// The bytes of this record under `schema`.
    pub fn to_bytes(&self, schema: ConfigSchema) -> (r: Vec<u8>)
        requires
            self@.fits(schema),
        ensures
            r@ == encode_config(schema, self@),
    {
        let mut v: Vec<u8> = Vec::new();
        v.push(self.discriminator.as_u8());
        v.push(self.bump);
        push_all(&mut v, self.base.as_slice());
        push_all(&mut v, self.admin.as_slice());
        if schema.has_server {
            match &self.server {
                Some(s) => push_all(&mut v, s.as_slice()),
                None => {},
            }
        }
        let fee = encode_fee(schema, self.game_fee_bps);
        push_all(&mut v, fee.as_slice());
        assert(v@ =~= encode_config(schema, self@));
        v
    }

    /// The read view: the record a buffer holds, or why it holds none.
    pub fn load_account(schema: ConfigSchema, data: &[u8]) -> (r: Result<Config, GameEngineError>)
        ensures
            view_result(r) == decode_config(schema, data@),
    {
        if data.len() != schema.record_len() {
            return Err(GameEngineError::SizeMismatch);
        }
        if data[0] != CONFIG_TAG {
            return Err(GameEngineError::TypeMismatch);
        }
        let base = read_pubkey(data, BASE_OFFSET);
        let admin = read_pubkey(data, ADMIN_OFFSET);
        let server = if schema.has_server {
            Some(read_pubkey(data, SERVER_OFFSET))
        } else {
            None
        };
        let fee_bytes_slice = slice_subrange(data, schema.fee_offset(), data.len());
        let fee = decode_fee(schema, fee_bytes_slice);
        let c = Config {
            discriminator: GameEngineDiscriminator::Config,
            bump: data[1],
            base,
            admin,
            server,
            game_fee_bps: fee,
        };
        assert(c@ == decode_config(schema, data@)->Ok_0);
        Ok(c)
    }

    /// The write view used once, by Initialize: checks the size only, refuses
    /// a buffer that is already tagged, then writes the whole record.
    pub fn initialize(
        schema: ConfigSchema,
        data: &mut Vec<u8>,
        bump: u8,
        base: &Pubkey,
        admin: &Pubkey,
        server: Option<Pubkey>,
        game_fee_bps: u64,
    ) -> (r: Result<(), GameEngineError>)
        requires
            schema.has_server == server is Some,
            schema.fee_fits(game_fee_bps),
        ensures
            ({
                let c = ConfigView {
                    discriminator: GameEngineDiscriminator::Config,
                    bump,
                    base: base@,
                    admin: admin@,
                    server: key_view(server),
                    game_fee_bps,
                };
                match initialize_outcome(schema, old(data)@, c) {
                    Ok(d) => r is Ok && final(data)@ == d,
                    Err(e) => r == Err::<(), _>(e) && final(data)@ == old(data)@,
                }
            }),
    {
        if data.len() != schema.record_len() {
            return Err(GameEngineError::SizeMismatch);
        }
        if data[0] == CONFIG_TAG {
            return Err(GameEngineError::AlreadyInitialized);
        }
        let c = Config {
            discriminator: GameEngineDiscriminator::Config,
            bump,
            base: *base,
            admin: *admin,
            server,
            game_fee_bps,
        };
        *data = c.to_bytes(schema);
        Ok(())
    }

    /// The checked write view used by Update: the buffer must read as a
    /// record, then each field that `ix` sets is overwritten in place.
    pub fn update(schema: ConfigSchema, data: &mut Vec<u8>, ix: &UpdateConfigIxData) -> (r: Result<
        (),
        GameEngineError,
    >)
        requires
            ix@.fits(schema),
        ensures
            match update_outcome(schema, old(data)@, ix@) {
                Ok(d) => r is Ok && final(data)@ == d,
                Err(e) => r == Err::<(), _>(e) && final(data)@ == old(data)@,
            },
    {
        match Config::load_account(schema, data.as_slice()) {
            Err(e) => {
                return Err(e);
            },
            Ok(_) => {},
        }
        if let Some(a) = &ix.new_admin {
            write_bytes(data, ADMIN_OFFSET, a.as_slice());
        }
        if let Some(s) = &ix.new_server {
            write_bytes(data, SERVER_OFFSET, s.as_slice());
        }
        if let Some(f) = ix.new_game_fee_bps {
            let b = encode_fee(schema, f);
            write_bytes(data, schema.fee_offset(), b.as_slice());
        }
        Ok(())
    }

    pub fn bump(&self) -> (r: u8)
        ensures
            r == self.bump,
    {
        self.bump
    }

    pub fn base(&self) -> (r: &Pubkey)
        ensures
            *r == self.base,
    {
        &self.base
    }

    pub fn admin(&self) -> (r: &Pubkey)
        ensures
            *r == self.admin,
    {
        &self.admin
    }

    pub fn server(&self) -> (r: Option<Pubkey>)
        ensures
            r == self.server,
    {
        self.server
    }

    pub fn game_fee_bps(&self) -> (r: u64)
        ensures
            r == self.game_fee_bps,
    {
        self.game_fee_bps
    }
}

} // verus!
