//! Ledger addresses and their deterministic derivation from seeds.
//!
//! Every account that plays a role for a fund lives at an address that anyone
//! can recompute from public inputs: the seeds of the role and the program
//! that owns the account. The search for the address is done by the ledger's
//! own library; this module names its result and fixes the seeds of each role.

use vstd::prelude::*;
use vstd::slice::slice_index_get;
use solana_program::pubkey::Pubkey;

verus! {

/// Number of bytes in a ledger address.
pub const ADDRESS_BYTES: usize = 32;

/// A 32-byte ledger address: an account, a member's identity, a program.
#[derive(Clone, Copy, Debug, PartialEq, Eq)]
pub struct Address {
    pub bytes: [u8; 32],
}

impl View for Address {
    type V = Seq<u8>;

    open spec fn view(&self) -> Seq<u8> {
        self.bytes@
    }
}

impl Address {
    /// The address made of the given bytes.
    pub fn new(bytes: [u8; 32]) -> (a: Address)
        ensures
            a@ == bytes@,
            a@.len() == 32,
    {
        Address { bytes }
    }

    /// Reads the address stored in the 32 bytes of `input` from `at` on.
    pub(crate) fn read(input: &[u8], at: usize) -> (a: Address)
        requires
            at + 32 <= input@.len(),
        ensures
            a@ == input@.subrange(at as int, at + 32),
    {
        let _len = input.len();
        let mut bytes: [u8; 32] = [0u8; 32];
        let mut i: usize = 0;
        while i < ADDRESS_BYTES
            invariant
                i <= 32,
                at + 32 <= input@.len() <= usize::MAX,
                bytes@.len() == 32,
                forall|j: int| 0 <= j < i ==> bytes@[j] == input@[at + j],
            decreases 32 - i,
        {
            bytes[i] = *slice_index_get(input, at + i);
            i += 1;
        }
        assert(bytes@ =~= input@.subrange(at as int, at + 32));
        Address { bytes }
    }

    /// Reads an address from the first 32 bytes of `input`; `None` when
    /// `input` is shorter than that.
    pub fn from_slice(input: &[u8]) -> (r: Option<Address>)
        ensures
            input@.len() < 32 ==> r is None,
            input@.len() >= 32 ==> r is Some && r->0@ == input@.subrange(0, 32),
    {
        if input.len() < ADDRESS_BYTES {
            None
        } else {
            Some(Address::read(input, 0))
        }
    }

    /// The 32 bytes of the address, in order.
    pub fn to_vec(&self) -> (v: Vec<u8>)
        ensures
            v@ == self@,
            v@.len() == 32,
    {
        let mut v: Vec<u8> = Vec::new();
        let mut i: usize = 0;
        while i < ADDRESS_BYTES
            invariant
                i <= 32,
                v@.len() == i,
                forall|j: int| 0 <= j < i ==> v@[j] == self.bytes@[j],
            decreases 32 - i,
        {
            v.push(self.bytes[i]);
            i += 1;
        }
        assert(v@ =~= self@);
        v
    }

    /// Whether two addresses hold the same bytes.
    pub fn same(&self, other: &Address) -> (b: bool)
        ensures
            b == (self@ == other@),
    {
        let mut i: usize = 0;
        while i < ADDRESS_BYTES
            invariant
                i <= 32,
                forall|j: int| 0 <= j < i ==> self.bytes@[j] == other.bytes@[j],
            decreases 32 - i,
        {
            if self.bytes[i] != other.bytes[i] {
                assert(self@[i as int] != other@[i as int]);
                return false;
            }
            i += 1;
        }
        assert(self@ =~= other@);
        true
    }
}

/// The seeds of a derivation as a sequence of byte strings.
pub open spec fn seeds_view(seeds: &Vec<Vec<u8>>) -> Seq<Seq<u8>> {
    Seq::new(seeds@.len(), |i: int| seeds@[i]@)
}

/// The address and bump that the ledger's derivation finds for `seeds` under
/// `program_id`, or `None` where it finds none. A function of the seeds and
/// the program alone.
pub uninterp spec fn program_address(seeds: Seq<Seq<u8>>, program_id: Seq<u8>) -> Option<(Seq<u8>, u8)>;

/// Whether `r` is what the derivation gives for `seeds` under `program_id`:
/// the address and bump it finds, or `None` where it finds none.
pub open spec fn address_found(r: Option<(Address, u8)>, seeds: Seq<Seq<u8>>, program_id: Seq<u8>) -> bool {
    match r {
        Some(found) => program_address(seeds, program_id) == Some((found.0@, found.1)),
        None => program_address(seeds, program_id) is None,
    }
}

/// Calls `Pubkey::try_find_program_address`. The contract claims only that
/// the outcome is the one named by `program_address` for these seeds and
/// this program: the search hashes the seeds, the bump and the program id,
/// and reads nothing else.
#[verifier::external_body]
fn try_find_program_address(seeds: &Vec<Vec<u8>>, program_id: &Address) -> (r: Option<(Address, u8)>)
    ensures
        r matches Some(found) ==> program_address(seeds_view(seeds), program_id@) == Some((found.0@, found.1)),
        r is None ==> program_address(seeds_view(seeds), program_id@) is None,
{
    let parts: Vec<&[u8]> = seeds.iter().map(|s| s.as_slice()).collect();
    match Pubkey::try_find_program_address(&parts, &Pubkey::new_from_array(program_id.bytes)) {
        Some((key, bump)) => Some((Address { bytes: key.to_bytes() }, bump)),
        None => None,
    }
}

/// The address derived from an ordered list of seeds under a program, with
/// the bump that disambiguates it; `None` where the derivation finds no
/// address for these seeds.
pub fn derive(seeds: &Vec<Vec<u8>>, program_id: &Address) -> (r: Option<(Address, u8)>)
    ensures
        address_found(r, seeds_view(seeds), program_id@),
{
    try_find_program_address(seeds, program_id)
}

/// The tag `fund`, last seed of a fund's address.
pub open spec fn fund_tag() -> Seq<u8> {
    seq![102u8, 117, 110, 100]
}

/// The tag `vault`, first seed of a fund's vault.
pub open spec fn vault_tag() -> Seq<u8> {
    seq![118u8, 97, 117, 108, 116]
}

/// The tag `mint`, first seed of a fund's governance-token mint.
pub open spec fn mint_tag() -> Seq<u8> {
    seq![109u8, 105, 110, 116]
}

/// The tag `member`, first seed of a member's record.
pub open spec fn member_tag() -> Seq<u8> {
    seq![109u8, 101, 109, 98, 101, 114]
}

/// The tag `proposal`, first seed of a proposal.
pub open spec fn proposal_tag() -> Seq<u8> {
    seq![112u8, 114, 111, 112, 111, 115, 97, 108]
}

/// The tag `vote`, first seed of a vote record.
pub open spec fn vote_tag() -> Seq<u8> {
    seq![118u8, 111, 116, 101]
}

/// The tag `rent_69`, only seed of the protocol's funding account.
pub open spec fn funding_tag() -> Seq<u8> {
    seq![114u8, 101, 110, 116, 95, 54, 57]
}

/// Seeds of a fund: the fund's own seed, then the tag `fund`.
pub open spec fn fund_seeds(seed: Seq<u8>) -> Seq<Seq<u8>> {
    seq![seed, fund_tag()]
}

/// Seeds of the vault of the fund at `fund`.
pub open spec fn vault_seeds(fund: Seq<u8>) -> Seq<Seq<u8>> {
    seq![vault_tag(), fund]
}

/// Seeds of the governance-token mint of the fund at `fund`.
pub open spec fn mint_seeds(fund: Seq<u8>) -> Seq<Seq<u8>> {
    seq![mint_tag(), fund]
}

/// Seeds of the record that the fund at `fund` keeps for `member`.
pub open spec fn member_seeds(fund: Seq<u8>, member: Seq<u8>) -> Seq<Seq<u8>> {
    seq![member_tag(), fund, member]
}

/// Seeds of the proposal that `proposer` makes to the fund at `fund`.
pub open spec fn proposal_seeds(fund: Seq<u8>, proposer: Seq<u8>) -> Seq<Seq<u8>> {
    seq![proposal_tag(), fund, proposer]
}

/// Seeds of the vote that `voter` casts on the proposal at `proposal`.
pub open spec fn vote_seeds(proposal: Seq<u8>, voter: Seq<u8>) -> Seq<Seq<u8>> {
    seq![vote_tag(), proposal, voter]
}

/// Seeds of the protocol's funding account.
pub open spec fn funding_seeds() -> Seq<Seq<u8>> {
    seq![funding_tag()]
}

/// The seeds under which a derived account signs: its seeds, then its bump.
pub open spec fn signing_seeds(seeds: Seq<Seq<u8>>, bump: u8) -> Seq<Seq<u8>> {
    seeds.push(seq![bump])
}

/// Copies a seed list and appends the bump as a one-byte seed.
pub fn with_bump(seeds: &Vec<Vec<u8>>, bump: u8) -> (out: Vec<Vec<u8>>)
    ensures
        seeds_view(&out) == signing_seeds(seeds_view(seeds), bump),
{
    let mut out: Vec<Vec<u8>> = Vec::new();
    let mut i: usize = 0;
    while i < seeds.len()
        invariant
            i <= seeds@.len(),
            out@.len() == i,
            forall|j: int| 0 <= j < i ==> out@[j]@ == seeds@[j]@,
        decreases seeds@.len() - i,
    {
        out.push(seeds[i].clone());
        i += 1;
    }
    let last: Vec<u8> = vec![bump];
    assert(last@ =~= seq![bump]);
    out.push(last);
    assert forall|j: int| 0 <= j < out@.len() implies seeds_view(&out)[j] == signing_seeds(
        seeds_view(seeds),
        bump,
    )[j] by {
        if j < seeds@.len() {
            assert(out@[j]@ == seeds@[j]@);
        }
    }
    assert(seeds_view(&out) =~= signing_seeds(seeds_view(seeds), bump));
    out
}

/// Seed list of a fund, ready for `derive`.
pub fn fund_seed_list(seed: &Vec<u8>) -> (seeds: Vec<Vec<u8>>)
    ensures
        seeds_view(&seeds) == fund_seeds(seed@),
{
    let seeds = vec![seed.clone(), vec![102u8, 117, 110, 100]];
    assert(seeds_view(&seeds) =~= fund_seeds(seed@));
    seeds
}

/// Seed list of the protocol's funding account, ready for `derive`.
pub fn funding_seed_list() -> (seeds: Vec<Vec<u8>>)
    ensures
        seeds_view(&seeds) == funding_seeds(),
{
    let seeds = vec![vec![114u8, 101, 110, 116, 95, 54, 57]];
    assert(seeds_view(&seeds) =~= funding_seeds());
    seeds
}

/// Address of the fund with the given seed.
pub fn fund_address(seed: &Vec<u8>, program_id: &Address) -> (r: Option<(Address, u8)>)
    ensures
        address_found(r, fund_seeds(seed@), program_id@),
{
    derive(&fund_seed_list(seed), program_id)
}

/// Address of the vault of the fund at `fund`.
pub fn vault_address(fund: &Address, program_id: &Address) -> (r: Option<(Address, u8)>)
    ensures
        address_found(r, vault_seeds(fund@), program_id@),
{
    let seeds = vec![vec![118u8, 97, 117, 108, 116], fund.to_vec()];
    assert(seeds_view(&seeds) =~= vault_seeds(fund@));
    derive(&seeds, program_id)
}

/// Address of the governance-token mint of the fund at `fund`.
pub fn mint_address(fund: &Address, program_id: &Address) -> (r: Option<(Address, u8)>)
    ensures
        address_found(r, mint_seeds(fund@), program_id@),
{
    let seeds = vec![vec![109u8, 105, 110, 116], fund.to_vec()];
    assert(seeds_view(&seeds) =~= mint_seeds(fund@));
    derive(&seeds, program_id)
}

/// Address of the record that the fund at `fund` keeps for `member`.
pub fn member_address(fund: &Address, member: &Address, program_id: &Address) -> (r: Option<(Address, u8)>)
    ensures
        address_found(r, member_seeds(fund@, member@), program_id@),
{
    let seeds = vec![vec![109u8, 101, 109, 98, 101, 114], fund.to_vec(), member.to_vec()];
    assert(seeds_view(&seeds) =~= member_seeds(fund@, member@));
    derive(&seeds, program_id)
}

/// Address of the proposal that `proposer` makes to the fund at `fund`.
pub fn proposal_address(fund: &Address, proposer: &Address, program_id: &Address) -> (r: Option<(Address, u8)>)
    ensures
        address_found(r, proposal_seeds(fund@, proposer@), program_id@),
{
    let seeds = vec![vec![112u8, 114, 111, 112, 111, 115, 97, 108], fund.to_vec(), proposer.to_vec()];
    assert(seeds_view(&seeds) =~= proposal_seeds(fund@, proposer@));
    derive(&seeds, program_id)
}

/// Address of the vote that `voter` casts on the proposal at `proposal`.
pub fn vote_address(proposal: &Address, voter: &Address, program_id: &Address) -> (r: Option<(Address, u8)>)
    ensures
        address_found(r, vote_seeds(proposal@, voter@), program_id@),
{
    let seeds = vec![vec![118u8, 111, 116, 101], proposal.to_vec(), voter.to_vec()];
    assert(seeds_view(&seeds) =~= vote_seeds(proposal@, voter@));
    derive(&seeds, program_id)
}

/// Address of the protocol's funding account.
pub fn funding_address(program_id: &Address) -> (r: Option<(Address, u8)>)
    ensures
        address_found(r, funding_seeds(), program_id@),
{
    derive(&funding_seed_list(), program_id)
}

/// Derivation is a function of its inputs: seed lists that agree byte for
/// byte, under the same program, give the same address and the same bump,
/// however often and wherever they are derived.
pub proof fn lemma_derivation_is_deterministic(
    seeds_a: Seq<Seq<u8>>,
    seeds_b: Seq<Seq<u8>>,
    program_a: Seq<u8>,
    program_b: Seq<u8>,
)
    requires
        seeds_a.len() == seeds_b.len(),
        forall|i: int| 0 <= i < seeds_a.len() ==> seeds_a[i].len() == seeds_b[i].len(),
        forall|i: int, j: int|
            0 <= i < seeds_a.len() && 0 <= j < seeds_a[i].len() ==> seeds_a[i][j] == seeds_b[i][j],
        program_a.len() == program_b.len(),
        forall|j: int| 0 <= j < program_a.len() ==> program_a[j] == program_b[j],
    ensures
        program_address(seeds_a, program_a) == program_address(seeds_b, program_b),
{
    assert forall|i: int| 0 <= i < seeds_a.len() implies seeds_a[i] == seeds_b[i] by {
        assert(seeds_a[i] =~= seeds_b[i]);
    }
    assert(seeds_a =~= seeds_b);
    assert(program_a =~= program_b);
}

/// A list of addresses as a sequence of byte strings.
pub open spec fn addresses_view(v: &Vec<Address>) -> Seq<Seq<u8>> {
    Seq::new(v@.len(), |i: int| v@[i]@)
}

} // verus!
