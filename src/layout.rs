use vstd::bytes::{
    lemma_auto_spec_u32_to_from_le_bytes, lemma_auto_spec_u64_to_from_le_bytes,
    spec_u32_from_le_bytes, spec_u32_to_le_bytes, spec_u64_from_le_bytes, spec_u64_to_le_bytes,
    u32_from_le_bytes, u32_to_le_bytes, u64_from_le_bytes, u64_to_le_bytes,
};
use vstd::prelude::*;

use crate::accounts::Pubkey;

verus! {

/// Offset of the base identity in a config record.
pub const BASE_OFFSET: usize = 2;

/// Offset of the admin identity in a config record.
pub const ADMIN_OFFSET: usize = 34;

/// Offset of the server identity in a config record whose schema has one.
pub const SERVER_OFFSET: usize = 66;

/// The optional parts of a config record: whether it carries a server
/// identity, and whether its fee is stored on eight bytes rather than four.
/// Every offset and length of the record and of the instruction payloads
/// follows from these two choices.
#[derive(Debug, Clone, Copy, PartialEq, Eq, Structural)]
pub struct ConfigSchema {
    pub has_server: bool,
    pub wide_fee: bool,
}

impl ConfigSchema {
    pub open spec fn spec_fee_width(self) -> nat {
        if self.wide_fee {
            8
        } else {
            4
        }
    }

    pub open spec fn spec_fee_offset(self) -> nat {
        if self.has_server {
            98
        } else {
            66
        }
    }

    /// The exact length of a config record under this schema.
    pub open spec fn spec_record_len(self) -> nat {
        self.spec_fee_offset() + self.spec_fee_width()
    }

    /// Whether `fee` can be stored under this schema.
    pub open spec fn fee_fits(self, fee: u64) -> bool {
        self.wide_fee || fee <= u32::MAX
    }

    pub fn fee_width(&self) -> (r: usize)
        ensures
            r == self.spec_fee_width(),
    {
        if self.wide_fee {
            8
        } else {
            4
        }
    }

    pub fn fee_offset(&self) -> (r: usize)
        ensures
            r == self.spec_fee_offset(),
    {
        if self.has_server {
            98
        } else {
            66
        }
    }

    pub fn record_len(&self) -> (r: usize)
        ensures
            r == self.spec_record_len(),
    {
        self.fee_offset() + self.fee_width()
    }

    pub fn fits_fee(&self, fee: u64) -> (r: bool)
        ensures
            r == self.fee_fits(fee),
    {
        self.wide_fee || fee <= 0xffff_ffffu64
    }
}

/// `d` with the bytes from `off` on replaced by `s`.
pub open spec fn splice(d: Seq<u8>, off: int, s: Seq<u8>) -> Seq<u8> {
    d.subrange(0, off) + s + d.subrange(off + s.len(), d.len() as int)
}

/// The little-endian bytes of a fee under `schema`.
pub open spec fn fee_bytes(schema: ConfigSchema, fee: u64) -> Seq<u8> {
    if schema.wide_fee {
        spec_u64_to_le_bytes(fee)
    } else {
        spec_u32_to_le_bytes(fee as u32)
    }
}

/// The fee that little-endian bytes hold under `schema`.
pub open spec fn fee_of_bytes(schema: ConfigSchema, s: Seq<u8>) -> u64 {
    if schema.wide_fee {
        spec_u64_from_le_bytes(s)
    } else {
        spec_u32_from_le_bytes(s) as u64
    }
}

/// Reading back the bytes of a fee that fits gives the fee.
pub proof fn lemma_fee_round_trip(schema: ConfigSchema, fee: u64)
    requires
        schema.fee_fits(fee),
    ensures
        fee_bytes(schema, fee).len() == schema.spec_fee_width(),
        fee_of_bytes(schema, fee_bytes(schema, fee)) == fee,
{
    lemma_auto_spec_u32_to_from_le_bytes();
    lemma_auto_spec_u64_to_from_le_bytes();
    if schema.wide_fee {
        assert(spec_u64_to_le_bytes(fee).len() == 8);
    } else {
        assert(spec_u32_to_le_bytes(fee as u32).len() == 4);
    }
}

pub fn encode_fee(schema: ConfigSchema, fee: u64) -> (r: Vec<u8>)
    requires
        schema.fee_fits(fee),
    ensures
        r@ == fee_bytes(schema, fee),
        r@.len() == schema.spec_fee_width(),
{
    proof {
        lemma_fee_round_trip(schema, fee);
    }
    if schema.wide_fee {
        u64_to_le_bytes(fee)
    } else {
        u32_to_le_bytes(fee as u32)
    }
}

pub fn decode_fee(schema: ConfigSchema, s: &[u8]) -> (r: u64)
    requires
        s@.len() == schema.spec_fee_width(),
    ensures
        r == fee_of_bytes(schema, s@),
        schema.fee_fits(r),
{
    if schema.wide_fee {
        u64_from_le_bytes(s)
    } else {
        u32_from_le_bytes(s) as u64
    }
}

/// Appends every byte of `s` to `v`.
pub fn push_all(v: &mut Vec<u8>, s: &[u8])
    ensures
        final(v)@ == old(v)@ + s@,
{
    let mut i: usize = 0;
    while i < s.len()
        invariant
            0 <= i <= s@.len(),
            v@ == old(v)@ + s@.subrange(0, i as int),
        decreases s@.len() - i,
    {
        v.push(s[i]);
        i = i + 1;
        assert(s@.subrange(0, i as int) =~= s@.subrange(0, i - 1) + seq![s@[i - 1]]);
    }
    assert(s@.subrange(0, s@.len() as int) =~= s@);
}

/// The 32 bytes of `d` from `off` on, as an identity.
pub fn read_pubkey(d: &[u8], off: usize) -> (r: Pubkey)
    requires
        off + 32 <= d@.len(),
    ensures
        r@ == d@.subrange(off as int, off + 32),
{
    let n: usize = d.len();
    let mut r: Pubkey = [0u8; 32];
    let mut i: usize = 0;
    while i < 32
        invariant
            0 <= i <= 32,
            n == d@.len(),
            off + 32 <= d@.len(),
            forall|j: int| 0 <= j < i ==> r@[j] == d@[off + j],
        decreases 32 - i,
    {
        r[i] = d[off + i];
        i = i + 1;
    }
    assert(r@ =~= d@.subrange(off as int, off + 32));
    r
}

/// Overwrites the bytes of `data` from `off` on with `s`, in place.
pub fn write_bytes(data: &mut Vec<u8>, off: usize, s: &[u8])
    requires
        off + s@.len() <= old(data)@.len(),
    ensures
        final(data)@ == splice(old(data)@, off as int, s@),
{
    let n: usize = data.len();
    let mut i: usize = 0;
    while i < s.len()
        invariant
            0 <= i <= s@.len(),
            n == old(data)@.len(),
            off + s@.len() <= old(data)@.len(),
            data@.len() == old(data)@.len(),
            forall|j: int| 0 <= j < off ==> data@[j] == old(data)@[j],
            forall|j: int| 0 <= j < i ==> data@[off + j] == s@[j],
            forall|j: int| off + i <= j < data@.len() ==> data@[j] == old(data)@[j],
        decreases s@.len() - i,
    {
        data.set(off + i, s[i]);
        i = i + 1;
    }
    assert(data@ =~= splice(old(data)@, off as int, s@));
}

} // verus!
