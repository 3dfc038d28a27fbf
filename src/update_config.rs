use vstd::prelude::*;
use vstd::slice::slice_subrange;

use vstd::slice::slice_to_vec;

use crate::accounts::{AccountState, Pubkey};
use crate::config::{
    apply_update, decode_config, key_view, lemma_update_nothing, lemma_update_reads_back,
    load_outcome, Config,
};
use crate::guard::signer_outcome;
use crate::errors::GameEngineError;
use crate::instructions::{GameEngineInstructions, UPDATE_OPCODE};
use crate::layout::{
    decode_fee, encode_fee, fee_bytes, fee_of_bytes, lemma_fee_round_trip, push_all, read_pubkey,
    ConfigSchema,
};

verus! {

/// The payload of an Update: each field is either left as it is (`None`) or
/// set to the given value.
#[derive(Debug, Clone, Copy, PartialEq, Eq)]
pub struct UpdateConfigIxData {
    pub discriminator: u8,
    pub new_admin: Option<Pubkey>,
    pub new_server: Option<Pubkey>,
    pub new_game_fee_bps: Option<u64>,
}

/// An Update payload with its identities as byte sequences.
pub struct UpdateView {
    pub new_admin: Option<Seq<u8>>,
    pub new_server: Option<Seq<u8>>,
    pub new_game_fee_bps: Option<u64>,
}

impl View for UpdateConfigIxData {
    type V = UpdateView;

    open spec fn view(&self) -> UpdateView {
        UpdateView {
            new_admin: key_view(self.new_admin),
            new_server: key_view(self.new_server),
            new_game_fee_bps: self.new_game_fee_bps,
        }
    }
}

impl UpdateView {
    /// Whether this payload can be applied to a record of `schema`: a server
    /// is only set where the schema has one, identities are 32 bytes, and a
    /// new fee fits the schema's width.
    pub open spec fn fits(self, schema: ConfigSchema) -> bool {
        &&& (self.new_admin matches Some(a) ==> a.len() == 32)
        &&& (self.new_server matches Some(s) ==> s.len() == 32 && schema.has_server)
        &&& (self.new_game_fee_bps matches Some(f) ==> schema.fee_fits(f))
    }
}

/// The length of an Update payload under `schema`: the opcode, a flag and 32
/// bytes for the admin, the same for the server where the schema has one, and
/// a flag and the fee.
pub open spec fn update_payload_len(schema: ConfigSchema) -> nat {
    1 + 33 + (if schema.has_server {
        33nat
    } else {
        0nat
    }) + 1 + schema.spec_fee_width()
}

pub open spec fn zeros(n: nat) -> Seq<u8> {
    Seq::new(n, |i: int| 0u8)
}

/// An optional identity on the wire: flag 1 and the identity, or flag 0 and
/// 32 zero bytes.
pub open spec fn key_field_bytes(k: Option<Seq<u8>>) -> Seq<u8> {
    match k {
        Some(a) => seq![1u8] + a,
        None => seq![0u8] + zeros(32),
    }
}

/// An optional fee on the wire: flag 1 and the fee, or flag 0 and zero bytes.
pub open spec fn fee_field_bytes(schema: ConfigSchema, f: Option<u64>) -> Seq<u8> {
    match f {
        Some(x) => seq![1u8] + fee_bytes(schema, x),
        None => seq![0u8] + zeros(schema.spec_fee_width()),
    }
}

/// The bytes of an Update payload under `schema`.
pub open spec fn encode_update_payload(schema: ConfigSchema, u: UpdateView) -> Seq<u8> {
    seq![UPDATE_OPCODE] + key_field_bytes(u.new_admin) + (if schema.has_server {
        key_field_bytes(u.new_server)
    } else {
        Seq::empty()
    }) + fee_field_bytes(schema, u.new_game_fee_bps)
}

/// Reads an optional identity from its 33 wire bytes; a flag other than 0 or
/// 1 is malformed.
pub open spec fn decode_key_field(d: Seq<u8>) -> Result<Option<Seq<u8>>, GameEngineError> {
    if d[0] == 0 {
        Ok(None)
    } else if d[0] == 1 {
        Ok(Some(d.subrange(1, 33)))
    } else {
        Err(GameEngineError::MalformedPayload)
    }
}

/// Reads an optional fee from its wire bytes; a flag other than 0 or 1 is
/// malformed.
pub open spec fn decode_fee_field(schema: ConfigSchema, d: Seq<u8>) -> Result<
    Option<u64>,
    GameEngineError,
> {
    if d[0] == 0 {
        Ok(None)
    } else if d[0] == 1 {
        Ok(Some(fee_of_bytes(schema, d.subrange(1, d.len() as int))))
    } else {
        Err(GameEngineError::MalformedPayload)
    }
}

/// What an Update payload holds under `schema`: its length and opcode must be
/// exact and each flag 0 or 1.
pub open spec fn decode_update_payload(schema: ConfigSchema, d: Seq<u8>) -> Result<
    UpdateView,
    GameEngineError,
> {
    let fee_at: int = if schema.has_server {
        67
    } else {
        34
    };
    if d.len() != update_payload_len(schema) || d[0] != UPDATE_OPCODE {
        Err(GameEngineError::MalformedPayload)
    } else {
        let admin = decode_key_field(d.subrange(1, 34));
        let server = if schema.has_server {
            decode_key_field(d.subrange(34, 67))
        } else {
            Ok(None)
        };
        let fee = decode_fee_field(schema, d.subrange(fee_at, d.len() as int));
        match (admin, server, fee) {
            (Ok(a), Ok(s), Ok(f)) => Ok(UpdateView { new_admin: a, new_server: s, new_game_fee_bps: f }),
            _ => Err(GameEngineError::MalformedPayload),
        }
    }
}

pub open spec fn update_view_result(r: Result<UpdateConfigIxData, GameEngineError>) -> Result<
    UpdateView,
    GameEngineError,
> {
    match r {
        Ok(u) => Ok(u@),
        Err(e) => Err(e),
    }
}

/// An Update payload that fits its schema reads back from its own bytes.
pub proof fn lemma_update_payload_round_trip(schema: ConfigSchema, u: UpdateView)
    requires
        u.fits(schema),
    ensures
        encode_update_payload(schema, u).len() == update_payload_len(schema),
        decode_update_payload(schema, encode_update_payload(schema, u)) == Ok::<_, GameEngineError>(u),
{
    let e = encode_update_payload(schema, u);
    if let Some(f) = u.new_game_fee_bps {
        lemma_fee_round_trip(schema, f);
    }
    let fee_at: int = if schema.has_server {
        67
    } else {
        34
    };
    assert(e.subrange(1, 34) =~= key_field_bytes(u.new_admin));
    if let Some(a) = u.new_admin {
        assert(e.subrange(1, 34).subrange(1, 33) =~= a);
    }
    if schema.has_server {
        assert(e.subrange(34, 67) =~= key_field_bytes(u.new_server));
        if let Some(s) = u.new_server {
            assert(e.subrange(34, 67).subrange(1, 33) =~= s);
        }
    }
    assert(e.subrange(fee_at, e.len() as int) =~= fee_field_bytes(schema, u.new_game_fee_bps));
    if let Some(f) = u.new_game_fee_bps {
        let fd = e.subrange(fee_at, e.len() as int);
        assert(fd.subrange(1, fd.len() as int) =~= fee_bytes(schema, f));
    }
}

/// Appends an optional identity in its wire form.
fn push_key_field(v: &mut Vec<u8>, k: &Option<Pubkey>)
    ensures
        final(v)@ == old(v)@ + key_field_bytes(key_view(*k)),
{
    match k {
        Some(a) => {
            v.push(1u8);
            push_all(v, a.as_slice());
        },
        None => {
            v.push(0u8);
            let z: [u8; 32] = [0u8; 32];
            assert(z@ =~= zeros(32));
            push_all(v, z.as_slice());
        },
    }
}

/// Reads an optional identity from the 33 wire bytes at `off`.
fn read_key_field(d: &[u8], off: usize) -> (r: Result<Option<Pubkey>, GameEngineError>)
    requires
        off + 33 <= d@.len(),
    ensures
        match r {
            Ok(k) => decode_key_field(d@.subrange(off as int, off + 33)) == Ok::<_, GameEngineError>(key_view(k)),
            Err(e) => decode_key_field(d@.subrange(off as int, off + 33)) == Err::<Option<Seq<u8>>, _>(e),
        },
{
    let field = Ghost(d@.subrange(off as int, off + 33));
    assert(field@[0] == d@[off as int]);
    if d[off] == 0 {
        Ok(None)
    } else if d[off] == 1 {
        let k = read_pubkey(d, off + 1);
        assert(field@.subrange(1, 33) =~= k@);
        Ok(Some(k))
    } else {
        Err(GameEngineError::MalformedPayload)
    }
}

impl UpdateConfigIxData {
    pub fn new(
        new_admin: Option<Pubkey>,
        new_server: Option<Pubkey>,
        new_game_fee_bps: Option<u64>,
    ) -> (r: Self)
        ensures
            r.discriminator == GameEngineInstructions::UpdateConfig.spec_opcode(),
            r.new_admin == new_admin,
            r.new_server == new_server,
            r.new_game_fee_bps == new_game_fee_bps,
    {
        UpdateConfigIxData {
            discriminator: GameEngineInstructions::UpdateConfig.opcode(),
            new_admin,
            new_server,
            new_game_fee_bps,
        }
    }

    /// The wire bytes of this payload under `schema`, opcode first.
    pub fn to_bytes(&self, schema: ConfigSchema) -> (r: Vec<u8>)
        requires
            self@.fits(schema),
        ensures
            r@ == encode_update_payload(schema, self@),
    {
        let mut v: Vec<u8> = Vec::new();
        v.push(UPDATE_OPCODE);
        push_key_field(&mut v, &self.new_admin);
        if schema.has_server {
            push_key_field(&mut v, &self.new_server);
        }
        match self.new_game_fee_bps {
            Some(f) => {
                v.push(1u8);
                let b = encode_fee(schema, f);
                push_all(&mut v, b.as_slice());
            },
            None => {
                v.push(0u8);
                let z: [u8; 8] = [0u8; 8];
                let zs = slice_subrange(z.as_slice(), 0, schema.fee_width());
                assert(zs@ =~= zeros(schema.spec_fee_width()));
                push_all(&mut v, zs);
            },
        }
        assert(v@ =~= encode_update_payload(schema, self@));
        v
    }

    /// Reads an Update payload under `schema`.
    pub fn from_bytes(schema: ConfigSchema, data: &[u8]) -> (r: Result<Self, GameEngineError>)
        ensures
            update_view_result(r) == decode_update_payload(schema, data@),
            r matches Ok(u) ==> u@.fits(schema) && u.discriminator == UPDATE_OPCODE,
    {
        let len: usize = 35 + (if schema.has_server {
            33
        } else {
            0
        }) + schema.fee_width();
        if data.len() != len || data[0] != UPDATE_OPCODE {
            return Err(GameEngineError::MalformedPayload);
        }
        let fee_at: usize = if schema.has_server {
            67
        } else {
            34
        };
        let admin = read_key_field(data, 1);
        let server = if schema.has_server {
            read_key_field(data, 34)
        } else {
            Ok(None)
        };
        let fee_field = slice_subrange(data, fee_at, data.len());
        let fee: Result<Option<u64>, GameEngineError> = if fee_field[0] == 0 {
            Ok(None)
        } else if fee_field[0] == 1 {
            let rest = slice_subrange(fee_field, 1, fee_field.len());
            Ok(Some(decode_fee(schema, rest)))
        } else {
            Err(GameEngineError::MalformedPayload)
        };
        match (admin, server, fee) {
            (Ok(a), Ok(s), Ok(f)) => {
                let u = UpdateConfigIxData {
                    discriminator: UPDATE_OPCODE,
                    new_admin: a,
                    new_server: s,
                    new_game_fee_bps: f,
                };
                Ok(u)
            },
            _ => Err(GameEngineError::MalformedPayload),
        }
    }
}

/// The checks and the effect of an Update, in order: the payload, the number
/// of accounts, then loading the config account with its admin as
/// `load_outcome` lists; where all pass, the new bytes of the config account.
pub open spec fn update_process_outcome(
    schema: ConfigSchema,
    program_id: Seq<u8>,
    accounts: Seq<AccountState>,
    data: Seq<u8>,
) -> Result<Seq<u8>, GameEngineError> {
    match decode_update_payload(schema, data) {
        Err(e) => Err(e),
        Ok(u) => if accounts.len() != 2 {
            Err(GameEngineError::NotEnoughAccountKeys)
        } else {
            match load_outcome(schema, program_id, accounts[0], true, Some(accounts[1])) {
                Err(e) => Err(e),
                Ok(_) => Ok(apply_update(schema, accounts[0].data@, u)),
            }
        },
    }
}

/// `after` is `before` with the data of the first account replaced by `d`.
pub open spec fn first_data_replaced(
    before: Seq<AccountState>,
    after: Seq<AccountState>,
    d: Seq<u8>,
) -> bool {
    &&& after.len() == before.len()
    &&& after[0].key == before[0].key
    &&& after[0].owner == before[0].owner
    &&& after[0].is_signer == before[0].is_signer
    &&& after[0].is_writable == before[0].is_writable
    &&& after[0].data@ == d
    &&& forall|i: int| 1 <= i < after.len() ==> after[i] == before[i]
}

/// Runs an Update on `accounts`, `[config, admin]`: where every check passes,
/// the fields the payload sets are overwritten in the config account's data;
/// otherwise nothing changes.
pub fn process_update_config(
    schema: ConfigSchema,
    program_id: &Pubkey,
    accounts: &mut Vec<AccountState>,
    data: &[u8],
) -> (r: Result<(), GameEngineError>)
    ensures
        match update_process_outcome(schema, program_id@, old(accounts)@, data@) {
            Ok(d) => r is Ok && first_data_replaced(old(accounts)@, final(accounts)@, d),
            Err(e) => r == Err::<(), _>(e) && final(accounts)@ == old(accounts)@,
        },
{
    let ix = UpdateConfigIxData::from_bytes(schema, data)?;
    if accounts.len() != 2 {
        return Err(GameEngineError::NotEnoughAccountKeys);
    }
    Config::load(schema, program_id, &accounts[0], true, Some(&accounts[1]))?;
    let mut new_data = slice_to_vec(accounts[0].data.as_slice());
    let _ = Config::update(schema, &mut new_data, &ix);
    let next = AccountState {
        key: accounts[0].key,
        owner: accounts[0].owner,
        is_signer: accounts[0].is_signer,
        is_writable: accounts[0].is_writable,
        data: new_data,
    };
    accounts.set(0, next);
    Ok(())
}

/// An Update that sets no field, and whose checks pass, succeeds and leaves
/// every byte of the config account as it was.
pub proof fn lemma_empty_update_is_noop(
    schema: ConfigSchema,
    program_id: Seq<u8>,
    accounts: Seq<AccountState>,
    data: Seq<u8>,
)
    requires
        decode_update_payload(schema, data) matches Ok(u) && u.new_admin is None
            && u.new_server is None && u.new_game_fee_bps is None,
        accounts.len() == 2,
        load_outcome(schema, program_id, accounts[0], true, Some(accounts[1])) is Ok,
    ensures
        update_process_outcome(schema, program_id, accounts, data) == Ok::<_, GameEngineError>(
            accounts[0].data@,
        ),
{
    lemma_update_nothing(schema, accounts[0].data@, decode_update_payload(schema, data)->Ok_0);
}

/// Update is gated by the admin: where the config account loads and the
/// second account is a valid, writable signer whose identity is not the
/// record's admin, the Update is refused with `Unauthorized`.
pub proof fn lemma_update_requires_admin(
    schema: ConfigSchema,
    program_id: Seq<u8>,
    accounts: Seq<AccountState>,
    data: Seq<u8>,
)
    requires
        decode_update_payload(schema, data) is Ok,
        accounts.len() == 2,
        load_outcome(schema, program_id, accounts[0], true, None) is Ok,
        signer_outcome(accounts[1], true) is Ok,
        decode_config(schema, accounts[0].data@) matches Ok(c) && c.admin != accounts[1].key@,
    ensures
        update_process_outcome(schema, program_id, accounts, data) == Err::<Seq<u8>, _>(
            GameEngineError::Unauthorized,
        ),
{
}

/// A successful Update leaves a record that reads back with exactly the
/// fields the payload sets changed, and base, bump and tag kept.
pub proof fn lemma_update_outcome_reads_back(
    schema: ConfigSchema,
    program_id: Seq<u8>,
    accounts: Seq<AccountState>,
    data: Seq<u8>,
)
    requires
        update_process_outcome(schema, program_id, accounts, data) is Ok,
    ensures
        decode_config(
            schema,
            update_process_outcome(schema, program_id, accounts, data)->Ok_0,
        ) == Ok::<_, GameEngineError>(
            decode_config(schema, accounts[0].data@)->Ok_0.updated(
                decode_update_payload(schema, data)->Ok_0,
            ),
        ),
{
    lemma_update_reads_back(schema, accounts[0].data@, decode_update_payload(schema, data)->Ok_0);
}

} // verus!
