//! Addresses and deterministic address derivation.
//!
//! Every address the protocol trusts is re-derived from a namespace seed, a
//! root identity and a stored proof integer (the bump seed), then compared
//! byte-for-byte against what the caller supplied. The derivation itself is
//! the platform's program-derived-address function; this module names its
//! result (`derived_address`) and exposes verified helpers that build the
//! exact seed lists the protocol uses.

use vstd::prelude::*;

verus! {

/// A 32-byte account address, held as plain bytes.
#[derive(Debug)]
pub struct Address {
    pub bytes: Vec<u8>,
}

impl View for Address {
    type V = Seq<u8>;

    open spec fn view(&self) -> Seq<u8> {
        self.bytes@
    }
}

impl Address {
    /// A well-formed address is exactly 32 bytes.
    pub open spec fn wf(&self) -> bool {
        self@.len() == 32
    }

    /// Wrap raw bytes as an address.
    pub fn new(bytes: Vec<u8>) -> (r: Address)
        ensures
            r@ == bytes@,
    {
        Address { bytes }
    }

    /// An independent copy of this address.
    pub fn dup(&self) -> (r: Address)
        ensures
            r@ == self@,
    {
        Address { bytes: vstd::slice::slice_to_vec(self.bytes.as_slice()) }
    }

    /// Byte-for-byte comparison.
    pub fn equals(&self, other: &Address) -> (r: bool)
        ensures
            r <==> self@ == other@,
    {
        if self.bytes.len() != other.bytes.len() {
            return false;
        }
        let n = self.bytes.len();
        let mut i: usize = 0;
        while i < n
            invariant
                i <= n,
                n == self@.len(),
                n == other@.len(),
                forall|j: int| 0 <= j < i ==> self@[j] == other@[j],
            decreases n - i,
        {
            if self.bytes[i] != other.bytes[i] {
                return false;
            }
            i = i + 1;
        }
        proof {
            assert(self@ =~= other@);
        }
        true
    }
}

/// What the platform's program-derived-address function returns for a seed
/// list and a program id: `None` where derivation fails (seed length limits,
/// or a hash that lands on the curve), else the 32 derived bytes. The result
/// is a pure function of the two arguments.
pub uninterp spec fn derived_address(seeds: Seq<Seq<u8>>, program_id: Seq<u8>) -> Option<Seq<u8>>;

/// Relies on solana_program::pubkey::Pubkey::create_program_address: the
/// derived address is a function of the seeds and the program id alone, it
/// is 32 bytes long, and derivation fails exactly where the seed list breaks
/// a length limit or the seed hash lands on the ed25519 curve.
#[verifier::external_body]
pub(crate) fn create_program_address(seeds: &Vec<Vec<u8>>, program_id: &Address) -> (r: Option<
    Address,
>)
    requires
        program_id.wf(),
    ensures
        match r {
            Some(a) => derived_address(seeds.deep_view(), program_id@) == Some(a@) && a@.len()
                == 32,
            None => derived_address(seeds.deep_view(), program_id@) is None,
        },
{
    let mut seed_refs: Vec<&[u8]> = Vec::new();
    for s in seeds.iter() {
        seed_refs.push(s.as_slice());
    }
    let pid = solana_program::pubkey::Pubkey::try_from(program_id.bytes.as_slice()).unwrap();
    match solana_program::pubkey::Pubkey::create_program_address(&seed_refs, &pid) {
        Ok(a) => Some(Address { bytes: a.to_bytes().to_vec() }),
        Err(_) => None,
    }
}

/// Relies on solana_program::pubkey::Pubkey::try_find_program_address: it
/// scans bump seeds from 255 down to 1 and returns the first for which
/// derivation succeeds, so a found bump is the largest one that derives and
/// a miss means no bump derives. (The search stops early only on a
/// seed-length breach, which does not depend on the bump and so refuses
/// every bump alike.)
#[verifier::external_body]
pub(crate) fn try_find_program_address(seeds: &Vec<Vec<u8>>, program_id: &Address) -> (r: Option<
    (Address, u8),
>)
    requires
        program_id.wf(),
    ensures
        r matches Some(ab) ==> {
            &&& derived_address(seeds.deep_view().push(seq![ab.1]), program_id@) == Some(ab.0@)
            &&& ab.0@.len() == 32
            &&& ab.1 >= 1
            &&& forall|b: u8|
                b > ab.1 ==> #[trigger] derived_address(
                    seeds.deep_view().push(seq![b]),
                    program_id@,
                ) is None
        },
        r is None ==> forall|b: u8|
            b >= 1 ==> #[trigger] derived_address(seeds.deep_view().push(seq![b]), program_id@)
                is None,
{
    let mut seed_refs: Vec<&[u8]> = Vec::new();
    for s in seeds.iter() {
        seed_refs.push(s.as_slice());
    }
    let pid = solana_program::pubkey::Pubkey::try_from(program_id.bytes.as_slice()).unwrap();
    match solana_program::pubkey::Pubkey::try_find_program_address(&seed_refs, &pid) {
        Some((a, bump)) => Some((Address { bytes: a.to_bytes().to_vec() }, bump)),
        None => None,
    }
}

/// The namespace seed of the mint authority, the bytes of "mint_authority".
pub open spec fn spec_mint_authority_seed() -> Seq<u8> {
    seq![109u8, 105u8, 110u8, 116u8, 95u8, 97u8, 117u8, 116u8, 104u8, 111u8, 114u8, 105u8, 116u8, 121u8]
}

/// The namespace seed of the reserve authority, the bytes of
/// "reserve_authority".
pub open spec fn spec_reserve_authority_seed() -> Seq<u8> {
    seq![114u8, 101u8, 115u8, 101u8, 114u8, 118u8, 101u8, 95u8, 97u8, 117u8, 116u8, 104u8, 111u8, 114u8, 105u8, 116u8, 121u8]
}

/// The namespace seed of the reserve account, the bytes of
/// "reserve_account".
pub open spec fn spec_reserve_account_seed() -> Seq<u8> {
    seq![114u8, 101u8, 115u8, 101u8, 114u8, 118u8, 101u8, 95u8, 97u8, 99u8, 99u8, 111u8, 117u8, 110u8, 116u8]
}

/// The bytes of "mint_authority".
fn mint_authority_seed() -> (r: Vec<u8>)
    ensures
        r@ == spec_mint_authority_seed(),
{
    let mut v: Vec<u8> = Vec::new();
    v.push(109);
    v.push(105);
    v.push(110);
    v.push(116);
    v.push(95);
    v.push(97);
    v.push(117);
    v.push(116);
    v.push(104);
    v.push(111);
    v.push(114);
    v.push(105);
    v.push(116);
    v.push(121);
    proof {
        assert(v@ =~= spec_mint_authority_seed());
    }
    v
}

/// The bytes of "reserve_authority".
fn reserve_authority_seed() -> (r: Vec<u8>)
    ensures
        r@ == spec_reserve_authority_seed(),
{
    let mut v: Vec<u8> = Vec::new();
    v.push(114);
    v.push(101);
    v.push(115);
    v.push(101);
    v.push(114);
    v.push(118);
    v.push(101);
    v.push(95);
    v.push(97);
    v.push(117);
    v.push(116);
    v.push(104);
    v.push(111);
    v.push(114);
    v.push(105);
    v.push(116);
    v.push(121);
    proof {
        assert(v@ =~= spec_reserve_authority_seed());
    }
    v
}

/// The bytes of "reserve_account".
fn reserve_account_seed() -> (r: Vec<u8>)
    ensures
        r@ == spec_reserve_account_seed(),
{
    let mut v: Vec<u8> = Vec::new();
    v.push(114);
    v.push(101);
    v.push(115);
    v.push(101);
    v.push(114);
    v.push(118);
    v.push(101);
    v.push(95);
    v.push(97);
    v.push(99);
    v.push(99);
    v.push(111);
    v.push(117);
    v.push(110);
    v.push(116);
    proof {
        assert(v@ =~= spec_reserve_account_seed());
    }
    v
}

/// The seeds, before the bump, that derive the instance address from the
/// staking-protocol instance it wraps.
pub open spec fn spec_instance_base_seeds(solido: Seq<u8>) -> Seq<Seq<u8>> {
    seq![solido]
}

/// The seed list that derives the instance address from the staking-protocol
/// instance it wraps.
pub open spec fn spec_instance_seeds(solido: Seq<u8>, bump: u8) -> Seq<Seq<u8>> {
    spec_instance_base_seeds(solido).push(seq![bump])
}

/// The seeds, before the bump, that derive the mint authority from the
/// instance address.
pub open spec fn spec_mint_authority_base_seeds(anker: Seq<u8>) -> Seq<Seq<u8>> {
    seq![anker, spec_mint_authority_seed()]
}

/// The seed list that derives the mint authority from the instance address.
pub open spec fn spec_mint_authority_seeds(anker: Seq<u8>, bump: u8) -> Seq<Seq<u8>> {
    spec_mint_authority_base_seeds(anker).push(seq![bump])
}

/// The seeds, before the bump, that derive the reserve authority from the
/// instance address.
pub open spec fn spec_reserve_authority_base_seeds(anker: Seq<u8>) -> Seq<Seq<u8>> {
    seq![anker, spec_reserve_authority_seed()]
}

/// The seed list that derives the reserve authority from the instance
/// address.
pub open spec fn spec_reserve_authority_seeds(anker: Seq<u8>, bump: u8) -> Seq<Seq<u8>> {
    spec_reserve_authority_base_seeds(anker).push(seq![bump])
}

/// The seeds, before the bump, that derive the reserve account from the
/// instance address.
pub open spec fn spec_reserve_account_base_seeds(anker: Seq<u8>) -> Seq<Seq<u8>> {
    seq![anker, spec_reserve_account_seed()]
}

/// The seed list that derives the reserve account from the instance address.
pub open spec fn spec_reserve_account_seeds(anker: Seq<u8>, bump: u8) -> Seq<Seq<u8>> {
    spec_reserve_account_base_seeds(anker).push(seq![bump])
}

/// The bump seed the platform's search would settle on, scanning from `b`
/// down to 1: the largest bump in that range whose derivation succeeds.
pub open spec fn spec_found_bump_from(seeds: Seq<Seq<u8>>, program_id: Seq<u8>, b: u8) -> Option<
    u8,
>
    decreases b,
{
    if derived_address(seeds.push(seq![b]), program_id) is Some {
        Some(b)
    } else if b <= 1 {
        None
    } else {
        spec_found_bump_from(seeds, program_id, (b - 1) as u8)
    }
}

/// The bump seed the platform's search finds for a base seed list: the
/// largest bump in [1, 255] whose derivation succeeds, if any.
pub open spec fn spec_found_bump(seeds: Seq<Seq<u8>>, program_id: Seq<u8>) -> Option<u8> {
    spec_found_bump_from(seeds, program_id, 255)
}

/// A bump that derives, and above which none derives, is the found bump.
proof fn lemma_found_bump_is(seeds: Seq<Seq<u8>>, program_id: Seq<u8>, hi: u8, bump: u8)
    requires
        1 <= bump <= hi,
        derived_address(seeds.push(seq![bump]), program_id) is Some,
        forall|b: u8|
            bump < b <= hi ==> #[trigger] derived_address(seeds.push(seq![b]), program_id)
                is None,
    ensures
        spec_found_bump_from(seeds, program_id, hi) == Some(bump),
    decreases hi,
{
    if hi != bump {
        assert(derived_address(seeds.push(seq![hi]), program_id) is None);
        lemma_found_bump_is(seeds, program_id, (hi - 1) as u8, bump);
    }
}

/// Where no bump up to `hi` derives, the search finds nothing.
proof fn lemma_found_bump_is_none(seeds: Seq<Seq<u8>>, program_id: Seq<u8>, hi: u8)
    requires
        1 <= hi,
        forall|b: u8|
            1 <= b <= hi ==> #[trigger] derived_address(seeds.push(seq![b]), program_id) is None,
    ensures
        spec_found_bump_from(seeds, program_id, hi) is None,
    decreases hi,
{
    assert(derived_address(seeds.push(seq![hi]), program_id) is None);
    if hi > 1 {
        lemma_found_bump_is_none(seeds, program_id, (hi - 1) as u8);
    }
}

/// Derive the instance address for a given bump seed.
pub fn derive_instance_address(program_id: &Address, solido: &Address, bump: u8) -> (r: Option<
    Address,
>)
    requires
        program_id.wf(),
        solido.wf(),
    ensures
        match r {
            Some(a) => derived_address(spec_instance_seeds(solido@, bump), program_id@) == Some(a@)
                && a.wf(),
            None => derived_address(spec_instance_seeds(solido@, bump), program_id@) is None,
        },
{
    let mut seeds: Vec<Vec<u8>> = Vec::new();
    seeds.push(solido.dup().bytes);
    let mut bump_seed: Vec<u8> = Vec::new();
    bump_seed.push(bump);
    seeds.push(bump_seed);
    proof {
        assert(seeds.deep_view() =~~= spec_instance_seeds(solido@, bump));
    }
    create_program_address(&seeds, program_id)
}

/// Derive the mint authority for a given bump seed.
pub fn derive_mint_authority(program_id: &Address, anker: &Address, bump: u8) -> (r: Option<
    Address,
>)
    requires
        program_id.wf(),
        anker.wf(),
    ensures
        match r {
            Some(a) => derived_address(spec_mint_authority_seeds(anker@, bump), program_id@)
                == Some(a@) && a.wf(),
            None => derived_address(spec_mint_authority_seeds(anker@, bump), program_id@) is None,
        },
{
    let mut seeds: Vec<Vec<u8>> = Vec::new();
    seeds.push(anker.dup().bytes);
    seeds.push(mint_authority_seed());
    let mut bump_seed: Vec<u8> = Vec::new();
    bump_seed.push(bump);
    seeds.push(bump_seed);
    proof {
        assert(seeds.deep_view() =~~= spec_mint_authority_seeds(anker@, bump));
    }
    create_program_address(&seeds, program_id)
}

/// Derive the reserve authority for a given bump seed.
pub fn derive_reserve_authority(program_id: &Address, anker: &Address, bump: u8) -> (r: Option<
    Address,
>)
    requires
        program_id.wf(),
        anker.wf(),
    ensures
        match r {
            Some(a) => derived_address(spec_reserve_authority_seeds(anker@, bump), program_id@)
                == Some(a@) && a.wf(),
            None => derived_address(spec_reserve_authority_seeds(anker@, bump), program_id@)
                is None,
        },
{
    let mut seeds: Vec<Vec<u8>> = Vec::new();
    seeds.push(anker.dup().bytes);
    seeds.push(reserve_authority_seed());
    let mut bump_seed: Vec<u8> = Vec::new();
    bump_seed.push(bump);
    seeds.push(bump_seed);
    proof {
        assert(seeds.deep_view() =~~= spec_reserve_authority_seeds(anker@, bump));
    }
    create_program_address(&seeds, program_id)
}

/// Derive the reserve account address for a given bump seed.
pub fn derive_reserve_account(program_id: &Address, anker: &Address, bump: u8) -> (r: Option<
    Address,
>)
    requires
        program_id.wf(),
        anker.wf(),
    ensures
        match r {
            Some(a) => derived_address(spec_reserve_account_seeds(anker@, bump), program_id@)
                == Some(a@) && a.wf(),
            None => derived_address(spec_reserve_account_seeds(anker@, bump), program_id@) is None,
        },
{
    let mut seeds: Vec<Vec<u8>> = Vec::new();
    seeds.push(anker.dup().bytes);
    seeds.push(reserve_account_seed());
    let mut bump_seed: Vec<u8> = Vec::new();
    bump_seed.push(bump);
    seeds.push(bump_seed);
    proof {
        assert(seeds.deep_view() =~~= spec_reserve_account_seeds(anker@, bump));
    }
    create_program_address(&seeds, program_id)
}

/// Find the instance address and its bump seed: exactly the largest bump
/// that derives, or `None` where no bump does.
pub fn find_instance_address(program_id: &Address, solido: &Address) -> (r: Option<(Address, u8)>)
    requires
        program_id.wf(),
        solido.wf(),
    ensures
        ({
            let found = spec_found_bump(spec_instance_base_seeds(solido@), program_id@);
            match r {
                Some(ab) => found == Some(ab.1) && derived_address(
                    spec_instance_seeds(solido@, ab.1),
                    program_id@,
                ) == Some(ab.0@) && ab.0.wf(),
                None => found is None,
            }
        }),
{
    let mut seeds: Vec<Vec<u8>> = Vec::new();
    seeds.push(solido.dup().bytes);
    let r = try_find_program_address(&seeds, program_id);
    proof {
        let base = spec_instance_base_seeds(solido@);
        assert(seeds.deep_view() =~~= base);
        relate_search_to_found_bump(&r, base, program_id@);
    }
    r
}

/// Find the mint authority and its bump seed: exactly the largest bump that
/// derives, or `None` where no bump does.
pub fn find_mint_authority(program_id: &Address, anker: &Address) -> (r: Option<(Address, u8)>)
    requires
        program_id.wf(),
        anker.wf(),
    ensures
        ({
            let found = spec_found_bump(spec_mint_authority_base_seeds(anker@), program_id@);
            match r {
                Some(ab) => found == Some(ab.1) && derived_address(
                    spec_mint_authority_seeds(anker@, ab.1),
                    program_id@,
                ) == Some(ab.0@) && ab.0.wf(),
                None => found is None,
            }
        }),
{
    let mut seeds: Vec<Vec<u8>> = Vec::new();
    seeds.push(anker.dup().bytes);
    seeds.push(mint_authority_seed());
    let r = try_find_program_address(&seeds, program_id);
    proof {
        let base = spec_mint_authority_base_seeds(anker@);
        assert(seeds.deep_view() =~~= base);
        relate_search_to_found_bump(&r, base, program_id@);
    }
    r
}

/// Find the reserve authority and its bump seed: exactly the largest bump
/// that derives, or `None` where no bump does.
pub fn find_reserve_authority(program_id: &Address, anker: &Address) -> (r: Option<(Address, u8)>)
    requires
        program_id.wf(),
        anker.wf(),
    ensures
        ({
            let found = spec_found_bump(spec_reserve_authority_base_seeds(anker@), program_id@);
            match r {
                Some(ab) => found == Some(ab.1) && derived_address(
                    spec_reserve_authority_seeds(anker@, ab.1),
                    program_id@,
                ) == Some(ab.0@) && ab.0.wf(),
                None => found is None,
            }
        }),
{
    let mut seeds: Vec<Vec<u8>> = Vec::new();
    seeds.push(anker.dup().bytes);
    seeds.push(reserve_authority_seed());
    let r = try_find_program_address(&seeds, program_id);
    proof {
        let base = spec_reserve_authority_base_seeds(anker@);
        assert(seeds.deep_view() =~~= base);
        relate_search_to_found_bump(&r, base, program_id@);
    }
    r
}

/// Find the reserve account address and its bump seed: exactly the largest
/// bump that derives, or `None` where no bump does.
pub fn find_reserve_account(program_id: &Address, anker: &Address) -> (r: Option<(Address, u8)>)
    requires
        program_id.wf(),
        anker.wf(),
    ensures
        ({
            let found = spec_found_bump(spec_reserve_account_base_seeds(anker@), program_id@);
            match r {
                Some(ab) => found == Some(ab.1) && derived_address(
                    spec_reserve_account_seeds(anker@, ab.1),
                    program_id@,
                ) == Some(ab.0@) && ab.0.wf(),
                None => found is None,
            }
        }),
{
    let mut seeds: Vec<Vec<u8>> = Vec::new();
    seeds.push(anker.dup().bytes);
    seeds.push(reserve_account_seed());
    let r = try_find_program_address(&seeds, program_id);
    proof {
        let base = spec_reserve_account_base_seeds(anker@);
        assert(seeds.deep_view() =~~= base);
        relate_search_to_found_bump(&r, base, program_id@);
    }
    r
}

/// What the search wrapper's contract says of its result, restated as the
/// found bump of the base seed list.
proof fn relate_search_to_found_bump(
    r: &Option<(Address, u8)>,
    base: Seq<Seq<u8>>,
    program_id: Seq<u8>,
)
    requires
        r matches Some(ab) ==> {
            &&& derived_address(base.push(seq![ab.1]), program_id) == Some(ab.0@)
            &&& ab.1 >= 1
            &&& forall|b: u8|
                b > ab.1 ==> #[trigger] derived_address(base.push(seq![b]), program_id) is None
        },
        r is None ==> forall|b: u8|
            b >= 1 ==> #[trigger] derived_address(base.push(seq![b]), program_id) is None,
    ensures
        match r {
            Some(ab) => spec_found_bump(base, program_id) == Some(ab.1),
            None => spec_found_bump(base, program_id) is None,
        },
{
    match r {
        Some(ab) => {
            lemma_found_bump_is(base, program_id, 255, ab.1);
        },
        None => {
            lemma_found_bump_is_none(base, program_id, 255);
        },
    }
}

} // verus!
