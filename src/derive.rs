use vstd::prelude::*;
use crate::address::{
    Address, program_id, sns_records_program_id, name_service_program_id, PROGRAM_ID_BYTES,
    SNS_RECORDS_PROGRAM_ID_BYTES, NAME_SERVICE_PROGRAM_ID_BYTES, SOL_RECORD_V2_HASHED_NAME,
};
use anchor_lang::prelude::Pubkey;

verus! {

/// Seed label of every vault address.
pub const VAULT_SEED: [u8; 5] = [118, 97, 117, 108, 116];

/// Most seeds a program address takes, and most bytes in one seed.
pub const MAX_SEEDS: usize = 16;
pub const MAX_SEED_LEN: usize = 32;

/// The address that `program` derives from `seeds`, or `None` where the
/// hash of the seeds lands on the curve (an address with a private key).
pub uninterp spec fn program_address(seeds: Seq<Seq<u8>>, program: Seq<u8>) -> Option<Seq<u8>>;

pub open spec fn seeds_fit(seeds: Seq<Seq<u8>>) -> bool {
    &&& seeds.len() <= MAX_SEEDS
    &&& forall|i: int| 0 <= i < seeds.len() ==> (#[trigger] seeds[i]).len() <= MAX_SEED_LEN
}

pub open spec fn with_bump(seeds: Seq<Seq<u8>>, bump: u8) -> Seq<Seq<u8>> {
    seeds.push(seq![bump])
}

/// `bump` is the largest nonzero proof byte under which `program` derives an
/// address from `seeds`, and `addr` is that address.
pub open spec fn is_canonical(seeds: Seq<Seq<u8>>, program: Seq<u8>, addr: Seq<u8>, bump: u8) -> bool {
    &&& 1 <= bump
    &&& program_address(with_bump(seeds, bump), program) == Some(addr)
    &&& forall|c: u8| bump < c ==> (#[trigger] program_address(with_bump(seeds, c), program)) is None
}

pub open spec fn no_bump_works(seeds: Seq<Seq<u8>>, program: Seq<u8>) -> bool {
    forall|c: u8| 1 <= c ==> (#[trigger] program_address(with_bump(seeds, c), program)) is None
}

/// What a search for a derived address must return.
pub open spec fn search_result(r: Option<(Address, u8)>, seeds: Seq<Seq<u8>>, program: Seq<u8>) -> bool {
    match r {
        Some((a, b)) => is_canonical(seeds, program, a@, b),
        None => no_bump_works(seeds, program),
    }
}

/// Relies on `Pubkey::create_program_address`: within the seed limits the
/// result depends on the seeds and the program alone, and the only error left
/// is a hash that lies on the curve.
#[verifier::external_body]
fn create_program_address(seeds: &Vec<Vec<u8>>, program: &Address) -> (r: Option<Address>)
    requires
        seeds_fit(seeds.deep_view()),
    ensures
        match r {
            Some(a) => program_address(seeds.deep_view(), program@) == Some(a@),
            None => program_address(seeds.deep_view(), program@) is None,
        },
{
    let refs: Vec<&[u8]> = seeds.iter().map(|s| s.as_slice()).collect();
    Pubkey::create_program_address(&refs, &Pubkey::new_from_array(program.bytes))
        .ok()
        .map(|k| Address { bytes: k.to_bytes() })
}

/// Relies on `Pubkey::try_find_program_address`: it tries the proof bytes
/// from 255 down to 1, appended as a last seed, and returns the first one
/// under which `Pubkey::create_program_address` succeeds, with its address.
#[verifier::external_body]
pub(crate) fn try_find_program_address(seeds: &Vec<Vec<u8>>, program: &Address) -> (r: Option<(Address, u8)>)
    requires
        seeds.len() < MAX_SEEDS,
        seeds_fit(seeds.deep_view()),
    ensures
        search_result(r, seeds.deep_view(), program@),
{
    let refs: Vec<&[u8]> = seeds.iter().map(|s| s.as_slice()).collect();
    Pubkey::try_find_program_address(&refs, &Pubkey::new_from_array(program.bytes))
        .map(|(k, b)| (Address { bytes: k.to_bytes() }, b))
}

/// At most one proof byte is canonical for given seeds and program, and
/// it fixes the address.
pub proof fn lemma_canonical_unique(
    seeds: Seq<Seq<u8>>,
    program: Seq<u8>,
    a1: Seq<u8>,
    b1: u8,
    a2: Seq<u8>,
    b2: u8,
)
    requires
        is_canonical(seeds, program, a1, b1),
        is_canonical(seeds, program, a2, b2),
    ensures
        a1 == a2,
        b1 == b2,
{
    if b1 < b2 {
        assert(program_address(with_bump(seeds, b2), program) is None);
    } else if b2 < b1 {
        assert(program_address(with_bump(seeds, b1), program) is None);
    }
}

/// A search result is fixed by the seeds and the program: deriving twice
/// gives the same address and proof byte.
pub proof fn lemma_search_deterministic(
    r1: Option<(Address, u8)>,
    r2: Option<(Address, u8)>,
    seeds: Seq<Seq<u8>>,
    program: Seq<u8>,
)
    requires
        search_result(r1, seeds, program),
        search_result(r2, seeds, program),
    ensures
        r1 is Some <==> r2 is Some,
        forall|a1: Address, b1: u8, a2: Address, b2: u8|
            r1 == Some((a1, b1)) && r2 == Some((a2, b2)) ==> a1@ == a2@ && b1 == b2,
{
    match (r1, r2) {
        (Some((a1, b1)), Some((a2, b2))) => {
            if b1 < b2 {
                assert(program_address(with_bump(seeds, b2), program) is None);
            } else if b2 < b1 {
                assert(program_address(with_bump(seeds, b1), program) is None);
            }
        },
        (Some((a1, b1)), None) => {
            assert(program_address(with_bump(seeds, b1), program) is None);
        },
        (None, Some((a2, b2))) => {
            assert(program_address(with_bump(seeds, b2), program) is None);
        },
        (None, None) => {},
    }
}

/// Whether some proof byte is canonical for `seeds` under `program` and
/// derives `candidate`.
pub fn derives_canonically(seeds: &Vec<Vec<u8>>, program: &Address, candidate: &Address) -> (r: bool)
    requires
        seeds.len() < MAX_SEEDS,
        seeds_fit(seeds.deep_view()),
    ensures
        r == exists|b: u8| is_canonical(seeds.deep_view(), program@, candidate@, b),
{
    match try_find_program_address(seeds, program) {
        None => {
            assert forall|b: u8| !is_canonical(seeds.deep_view(), program@, candidate@, b) by {
                if 1 <= b {
                    assert(program_address(with_bump(seeds.deep_view(), b), program@) is None);
                }
            }
            false
        },
        Some((found, bump)) => {
            if found.same_as(candidate) {
                true
            } else {
                assert forall|b: u8| !is_canonical(seeds.deep_view(), program@, candidate@, b) by {
                    if is_canonical(seeds.deep_view(), program@, candidate@, b) {
                        lemma_canonical_unique(seeds.deep_view(), program@, found@, bump, candidate@, b);
                    }
                }
                false
            }
        },
    }
}

pub open spec fn vault_seeds(owner: Seq<u8>) -> Seq<Seq<u8>> {
    seq![VAULT_SEED@, owner]
}

fn vault_seed_list(owner: &Address) -> (r: Vec<Vec<u8>>)
    ensures
        r.deep_view() == vault_seeds(owner@),
        r.len() == 2,
{
    let label: Vec<u8> = vec![118u8, 97, 117, 108, 116];
    assert(label@ =~= VAULT_SEED@);
    let r = vec![label, owner.to_vec()];
    assert(r@[0].deep_view() =~= r@[0]@);
    assert(r@[1].deep_view() =~= r@[1]@);
    assert(r.deep_view() =~= vault_seeds(owner@));
    r
}

/// Finds the vault address of `owner` and its proof byte.
pub fn find_vault_address(owner: &Address) -> (r: Option<(Address, u8)>)
    ensures
        search_result(r, vault_seeds(owner@), PROGRAM_ID_BYTES@),
{
    let seeds = vault_seed_list(owner);
    try_find_program_address(&seeds, &program_id())
}

/// The seeds under which the vault of `owner` signs: the vault seed, the
/// owner and the proof byte.
pub fn vault_signer_seeds(owner: &Address, bump: u8) -> (r: Vec<Vec<u8>>)
    ensures
        r.deep_view() == with_bump(vault_seeds(owner@), bump),
        r.len() == 3,
{
    let mut seeds = vault_seed_list(owner);
    seeds.push(vec![bump]);
    assert(seeds@[0].deep_view() =~= seeds@[0]@);
    assert(seeds@[1].deep_view() =~= seeds@[1]@);
    assert(seeds@[2].deep_view() =~= seq![bump]);
    assert(seeds.deep_view() =~= with_bump(vault_seeds(owner@), bump));
    seeds
}

/// Whether `vault` re-derives from the vault seed, `owner` and `bump`.
pub fn vault_address_matches(owner: &Address, bump: u8, vault: &Address) -> (r: bool)
    ensures
        r == (program_address(with_bump(vault_seeds(owner@), bump), PROGRAM_ID_BYTES@) == Some(vault@)),
{
    let seeds = vault_signer_seeds(owner, bump);
    assert(seeds_fit(seeds.deep_view()));
    match create_program_address(&seeds, &program_id()) {
        Some(a) => a.same_as(vault),
        None => false,
    }
}

pub open spec fn central_state_seeds() -> Seq<Seq<u8>> {
    seq![SNS_RECORDS_PROGRAM_ID_BYTES@]
}

pub open spec fn sol_record_seeds(central_state: Seq<u8>, domain: Seq<u8>) -> Seq<Seq<u8>> {
    seq![SOL_RECORD_V2_HASHED_NAME@, central_state, domain]
}

/// What a search for the resolution record of `domain` must return: the
/// central state is searched first, and the record under it.
pub open spec fn sol_record_search(r: Option<(Address, u8)>, domain: Seq<u8>) -> bool {
    exists|central: Option<(Address, u8)>|
        #[trigger] search_result(central, central_state_seeds(), SNS_RECORDS_PROGRAM_ID_BYTES@)
        && match central {
            None => r is None,
            Some((c, _)) => search_result(r, sol_record_seeds(c@, domain), NAME_SERVICE_PROGRAM_ID_BYTES@),
        }
}

/// The records service's central state: derived by the records service from
/// its own identity.
pub fn get_central_state_key() -> (r: Option<(Address, u8)>)
    ensures
        search_result(r, central_state_seeds(), SNS_RECORDS_PROGRAM_ID_BYTES@),
{
    let records = sns_records_program_id();
    let seeds = vec![records.to_vec()];
    assert(seeds@[0].deep_view() =~= seeds@[0]@);
    assert(seeds.deep_view() =~= central_state_seeds());
    try_find_program_address(&seeds, &records)
}

/// The resolution record of `domain`: derived by the name registry from the
/// hashed record name, the central state and the domain's registry address.
pub fn get_sol_record_v2_key(domain: &Address) -> (r: Option<(Address, u8)>)
    ensures
        sol_record_search(r, domain@),
{
    let central = get_central_state_key();
    match central {
        None => None,
        Some((c, cb)) => {
            let hashed: Vec<u8> = vec![
                0x30u8, 0xec, 0xde, 0x95, 0xb6, 0x4e, 0xf5, 0x47, 0xd8, 0x9f, 0xde, 0x39, 0x87, 0x03, 0x9f, 0x70,
                0xb5, 0x39, 0x37, 0xa8, 0xff, 0xbc, 0xc1, 0x0a, 0x28, 0x5b, 0x82, 0x6f, 0xdf, 0xa0, 0x76, 0xbd,
            ];
            assert(hashed@ =~= SOL_RECORD_V2_HASHED_NAME@);
            let seeds = vec![hashed, c.to_vec(), domain.to_vec()];
            assert(seeds@[0].deep_view() =~= seeds@[0]@);
            assert(seeds@[1].deep_view() =~= seeds@[1]@);
            assert(seeds@[2].deep_view() =~= seeds@[2]@);
            assert(seeds.deep_view() =~= sol_record_seeds(c@, domain@));
            let r = try_find_program_address(&seeds, &name_service_program_id());
            r
        },
    }
}

} // verus!
