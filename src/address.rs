use vstd::prelude::*;
use vstd::slice::slice_to_vec;

use crate::accounts::{keys_equal, Pubkey};
use crate::config::Config;
use crate::errors::GameEngineError;

verus! {

/// The most seeds an address derivation takes, bump included.
pub const MAX_SEEDS: usize = 16;

/// The longest seed an address derivation takes.
pub const MAX_SEED_LEN: usize = 32;

/// The address that `Pubkey::create_program_address` of solana_sdk derives
/// from `seeds` and `program_id`: a digest of both, or `None` where that digest
/// lies on the ed25519 curve and could be the key of a signer.
pub uninterp spec fn program_address(seeds: Seq<Seq<u8>>, program_id: Seq<u8>) -> Option<Seq<u8>>;

pub open spec fn seed_views(seeds: Seq<Vec<u8>>) -> Seq<Seq<u8>> {
    seeds.map_values(|s: Vec<u8>| s@)
}

/// Whether a seed list is one that address derivation accepts.
pub open spec fn seeds_in_bounds(seeds: Seq<Seq<u8>>) -> bool {
    &&& seeds.len() <= MAX_SEEDS
    &&& forall|i: int| 0 <= i < seeds.len() ==> #[trigger] seeds[i].len() <= MAX_SEED_LEN
}

/// `seeds` followed by the one-byte seed `bump`.
pub open spec fn with_bump(seeds: Seq<Seq<u8>>, bump: u8) -> Seq<Seq<u8>> {
    seeds.push(seq![bump])
}

/// The label that opens the seeds of every config address: "CONFIG".
pub open spec fn config_label() -> Seq<u8> {
    seq![67u8, 79u8, 78u8, 70u8, 73u8, 71u8]
}

/// The seeds of the config address of `base`, before the bump.
pub open spec fn config_seed_prefix(base: Seq<u8>) -> Seq<Seq<u8>> {
    seq![config_label(), base]
}

/// The seeds of the config address of `base` with bump `bump`.
pub open spec fn config_seed_list(base: Seq<u8>, bump: u8) -> Seq<Seq<u8>> {
    with_bump(config_seed_prefix(base), bump)
}

/// What a search for a derived address may return: the highest bump from 255
/// down to 1 whose seeds derive an address, with that address, or `None` when
/// no such bump exists.
pub open spec fn is_search_result(
    seeds: Seq<Seq<u8>>,
    program_id: Seq<u8>,
    r: Option<(Seq<u8>, u8)>,
) -> bool {
    match r {
        Some((a, b)) => {
            &&& 1 <= b
            &&& program_address(with_bump(seeds, b), program_id) == Some(a)
            &&& forall|c: u8|
                b < c ==> #[trigger] program_address(with_bump(seeds, c), program_id) is None
        },
        None => forall|c: u8|
            1 <= c ==> #[trigger] program_address(with_bump(seeds, c), program_id) is None,
    }
}

pub open spec fn found_view(r: Option<(Pubkey, u8)>) -> Option<(Seq<u8>, u8)> {
    match r {
        Some((a, b)) => Some((a@, b)),
        None => None,
    }
}

/// Relies on `Pubkey::create_program_address` of solana_sdk: with at most 16
/// seeds of at most 32 bytes it fails only where the derived address lies on
/// the curve, and what it derives depends on the seeds and program id alone.
#[verifier::external_body]
fn create_address(seeds: &Vec<Vec<u8>>, program_id: &Pubkey) -> (r: Option<Pubkey>)
    requires
        seeds_in_bounds(seed_views(seeds@)),
    ensures
        program_address(seed_views(seeds@), program_id@) == match r {
            Some(a) => Some(a@),
            None => None::<Seq<u8>>,
        },
{
    let refs: Vec<&[u8]> = seeds.iter().map(|s| s.as_slice()).collect();
    let id = solana_sdk::pubkey::Pubkey::new_from_array(*program_id);
    solana_sdk::pubkey::Pubkey::create_program_address(&refs, &id).ok().map(|a| a.to_bytes())
}

/// Relies on `Pubkey::try_find_program_address` of solana_sdk: it appends the
/// bumps 255, 254, ..., 1 in turn as a last one-byte seed and returns the first
/// address that `create_program_address` derives, with its bump, or `None`.
#[verifier::external_body]
fn find_address(seeds: &Vec<Vec<u8>>, program_id: &Pubkey) -> (r: Option<(Pubkey, u8)>)
    requires
        seeds_in_bounds(seed_views(seeds@)),
        seeds@.len() < MAX_SEEDS,
    ensures
        is_search_result(seed_views(seeds@), program_id@, found_view(r)),
{
    let refs: Vec<&[u8]> = seeds.iter().map(|s| s.as_slice()).collect();
    let id = solana_sdk::pubkey::Pubkey::new_from_array(*program_id);
    solana_sdk::pubkey::Pubkey::try_find_program_address(&refs, &id).map(|(a, b)| (a.to_bytes(), b))
}

/// Compares two byte strings, lengths included.
pub fn bytes_equal(a: &[u8], b: &[u8]) -> (r: bool)
    ensures
        r == (a@ == b@),
{
    if a.len() != b.len() {
        return false;
    }
    let mut i: usize = 0;
    while i < a.len()
        invariant
            0 <= i <= a@.len(),
            a@.len() == b@.len(),
            forall|j: int| 0 <= j < i ==> a@[j] == b@[j],
        decreases a@.len() - i,
    {
        if a[i] != b[i] {
            return false;
        }
        i = i + 1;
    }
    assert(a@ =~= b@);
    true
}

/// The label "CONFIG" as bytes.
pub fn config_label_bytes() -> (r: Vec<u8>)
    ensures
        r@ == config_label(),
{
    let r: Vec<u8> = vec![67u8, 79u8, 78u8, 70u8, 73u8, 71u8];
    assert(r@ =~= config_label());
    r
}

/// The seeds of the config address of `base`, before the bump.
pub fn config_seeds(base: &Pubkey) -> (r: Vec<Vec<u8>>)
    ensures
        seed_views(r@) == config_seed_prefix(base@),
        seeds_in_bounds(seed_views(r@)),
        r@.len() == 2,
{
    let mut r: Vec<Vec<u8>> = Vec::new();
    r.push(config_label_bytes());
    r.push(slice_to_vec(base.as_slice()));
    assert(seed_views(r@) =~= config_seed_prefix(base@));
    r
}

/// The seeds of the config address of `base` with bump `bump`; the derivation
/// and the verification of an address both build their seeds here.
pub fn config_seeds_with_bump(base: &Pubkey, bump: u8) -> (r: Vec<Vec<u8>>)
    ensures
        seed_views(r@) == config_seed_list(base@, bump),
        seeds_in_bounds(seed_views(r@)),
{
    let mut r = config_seeds(base);
    let mut last: Vec<u8> = Vec::new();
    last.push(bump);
    assert(last@ =~= seq![bump]);
    r.push(last);
    assert(seed_views(r@) =~= config_seed_list(base@, bump));
    r
}

/// What verifying the config address `claimed` of `base` under bump `bump`
/// gives: success exactly when those seeds derive `claimed`.
pub open spec fn verify_outcome(
    program_id: Seq<u8>,
    base: Seq<u8>,
    bump: u8,
    claimed: Seq<u8>,
) -> Result<(), GameEngineError> {
    if program_address(config_seed_list(base, bump), program_id) == Some(claimed) {
        Ok(())
    } else {
        Err(GameEngineError::InvalidSeeds)
    }
}

/// Searches for the canonical config address of `base`: the one derived with
/// the highest bump that gives an address off the curve.
pub fn derive_off_curve(program_id: &Pubkey, base: &Pubkey) -> (r: Option<(Pubkey, u8)>)
    ensures
        is_search_result(config_seed_prefix(base@), program_id@, found_view(r)),
{
    let seeds = config_seeds(base);
    find_address(&seeds, program_id)
}

/// Checks, without searching, that `base` and `bump` derive `claimed`.
pub fn verify_derivation(program_id: &Pubkey, base: &Pubkey, bump: u8, claimed: &Pubkey) -> (r:
    Result<(), GameEngineError>)
    ensures
        r == verify_outcome(program_id@, base@, bump, claimed@),
{
    match Config::create_program_address(program_id, base, bump) {
        Ok(a) => if keys_equal(&a, claimed) {
            Ok(())
        } else {
            Err(GameEngineError::InvalidSeeds)
        },
        Err(e) => Err(e),
    }
}

/// Deriving a config address is deterministic: any two results of the search
/// for the same program id and base are equal. The bump found verifies the
/// address found, and every higher bump is refused with `InvalidSeeds`.
pub proof fn lemma_derivation_determinism(
    program_id: Seq<u8>,
    base: Seq<u8>,
    r1: Option<(Seq<u8>, u8)>,
    r2: Option<(Seq<u8>, u8)>,
)
    requires
        is_search_result(config_seed_prefix(base), program_id, r1),
        is_search_result(config_seed_prefix(base), program_id, r2),
    ensures
        r1 == r2,
        r1 matches Some((a, b)) ==> verify_outcome(program_id, base, b, a) == Ok::<
            (),
            GameEngineError,
        >(()),
        r1 matches Some((a, b)) ==> forall|c: u8|
            b < c ==> #[trigger] verify_outcome(program_id, base, c, a) == Err::<(), _>(
                GameEngineError::InvalidSeeds,
            ),
{
    let seeds = config_seed_prefix(base);
    match (r1, r2) {
        (Some((a1, b1)), Some((a2, b2))) => {
            if b1 < b2 {
                assert(program_address(with_bump(seeds, b2), program_id) is None);
            } else if b2 < b1 {
                assert(program_address(with_bump(seeds, b1), program_id) is None);
            }
        },
        (Some((a1, b1)), None) => {
            assert(program_address(with_bump(seeds, b1), program_id) is None);
        },
        (None, Some((a2, b2))) => {
            assert(program_address(with_bump(seeds, b2), program_id) is None);
        },
        (None, None) => {},
    }
    if let Some((a, b)) = r1 {
        assert forall|c: u8| b < c implies #[trigger] verify_outcome(program_id, base, c, a)
            == Err::<(), _>(GameEngineError::InvalidSeeds) by {
            assert(program_address(with_bump(seeds, c), program_id) is None);
        }
    }
}

impl Config {
    /// The config address of `base` under bump `bump`, or `InvalidSeeds` where
    /// those seeds derive no address.
    pub fn create_program_address(program_id: &Pubkey, base: &Pubkey, bump: u8) -> (r: Result<
        Pubkey,
        GameEngineError,
    >)
        ensures
            match program_address(config_seed_list(base@, bump), program_id@) {
                Some(a) => r matches Ok(k) && k@ == a,
                None => r == Err::<Pubkey, _>(GameEngineError::InvalidSeeds),
            },
    {
        let seeds = config_seeds_with_bump(base, bump);
        match create_address(&seeds, program_id) {
            Some(a) => Ok(a),
            None => Err(GameEngineError::InvalidSeeds),
        }
    }

    /// Checks that `seeds` are the config seeds of `base` and `bump`, compared
    /// in order, byte for byte and in length.
    pub fn check_seeds(base: &Pubkey, bump: u8, seeds: &Vec<Vec<u8>>) -> (r: Result<
        (),
        GameEngineError,
    >)
        ensures
            r is Ok <==> seed_views(seeds@) == config_seed_list(base@, bump),
            r is Err ==> r == Err::<(), _>(GameEngineError::InvalidSeeds),
    {
        let expected = config_seeds_with_bump(base, bump);
        if seeds.len() != expected.len() {
            assert(seed_views(seeds@).len() != seed_views(expected@).len());
            return Err(GameEngineError::InvalidSeeds);
        }
        let mut i: usize = 0;
        while i < seeds.len()
            invariant
                0 <= i <= seeds@.len(),
                seeds@.len() == expected@.len(),
                seed_views(expected@) == config_seed_list(base@, bump),
                forall|j: int| 0 <= j < i ==> seeds@[j]@ == expected@[j]@,
            decreases seeds@.len() - i,
        {
            if !bytes_equal(seeds[i].as_slice(), expected[i].as_slice()) {
                assert(seed_views(seeds@)[i as int] != seed_views(expected@)[i as int]);
                return Err(GameEngineError::InvalidSeeds);
            }
            i = i + 1;
        }
        assert(seed_views(seeds@) =~= seed_views(expected@));
        Ok(())
    }
}

} // verus!
