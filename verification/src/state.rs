//! The records that the fund keeps in its accounts, and their layout.
//!
//! Each record has one layout in bytes: fields in the order declared,
//! integers little-endian, a flag as one byte that is 0 or 1, an address as
//! its 32 bytes, a list as a 32-bit count followed by its items. The size
//! of a record follows from its fields, and an account is created with
//! exactly that size: a record is read back only from bytes that hold it
//! from the first byte to the last.

use vstd::prelude::*;
use vstd::bytes::spec_u32_to_le_bytes;
use vstd::bytes::spec_u64_to_le_bytes;
use vstd::bytes::u32_to_le_bytes;
use vstd::bytes::lemma_auto_spec_u32_to_from_le_bytes;
use vstd::bytes::lemma_auto_spec_u64_to_from_le_bytes;
use crate::address::Address;
use crate::address::addresses_view;
use crate::wire::addresses_at;
use crate::wire::addresses_bytes;
use crate::wire::all_addresses;
use crate::wire::amounts_at;
use crate::wire::amounts_bytes;
use crate::wire::flag_byte;
use crate::wire::le_u32_at;
use crate::wire::le_u64_at;
use crate::wire::lemma_addresses_at_bytes;
use crate::wire::lemma_amounts_at_bytes;
use crate::wire::lemma_signed_unsigned;
use crate::wire::push_all;
use crate::wire::put_address;
use crate::wire::put_addresses;
use crate::wire::put_amounts;
use crate::wire::put_u64;
use crate::wire::read_address;
use crate::wire::read_addresses;
use crate::wire::read_amounts;
use crate::wire::read_u32;
use crate::wire::read_u64;
use crate::wire::signed_of;
use crate::wire::to_signed;
use crate::wire::to_unsigned;
use crate::wire::unsigned_of;

verus! {

/// Size of a vault: a token holding account.
pub const VAULT_SPACE: usize = 165;

/// Size of a governance-token mint.
pub const MINT_SPACE: usize = 82;

/// Size of a member's record.
pub const MEMBER_SPACE: usize = 122;

/// Size of a vote record.
pub const VOTE_SPACE: usize = 41;

/// Most members a fund can have, and most legs a proposal: both counts
/// travel as one byte.
pub const MAX_COUNT: usize = 255;

/// The fund: who belongs to it, what was paid in, where its vault and its
/// governance-token mint are.
#[derive(Clone, Debug, PartialEq, Eq)]
pub struct FundAccount {
    /// The seed that the fund's address is derived from.
    pub name: [u8; 32],
    pub creator: Address,
    pub members: Vec<Address>,
    pub total_deposit: u64,
    pub governance_mint: Address,
    pub vault: Address,
    pub is_initialized: bool,
    pub created_at: i64,
    pub is_private: u8,
}

/// A fund record as plain values.
pub struct FundView {
    pub name: Seq<u8>,
    pub creator: Seq<u8>,
    pub members: Seq<Seq<u8>>,
    pub total_deposit: u64,
    pub governance_mint: Seq<u8>,
    pub vault: Seq<u8>,
    pub is_initialized: bool,
    pub created_at: i64,
    pub is_private: u8,
}

impl View for FundAccount {
    type V = FundView;

    open spec fn view(&self) -> FundView {
        FundView {
            name: self.name@,
            creator: self.creator@,
            members: addresses_view(&self.members),
            total_deposit: self.total_deposit,
            governance_mint: self.governance_mint@,
            vault: self.vault@,
            is_initialized: self.is_initialized,
            created_at: self.created_at,
            is_private: self.is_private,
        }
    }
}

/// Whether the plain values are those of a fund record that can be stored:
/// addresses of 32 bytes and at most 255 members.
pub open spec fn fund_wf(f: FundView) -> bool {
    &&& f.name.len() == 32
    &&& f.creator.len() == 32
    &&& all_addresses(f.members)
    &&& f.members.len() <= 255
    &&& f.governance_mint.len() == 32
    &&& f.vault.len() == 32
}

/// Size in bytes of the record of a fund with `members` members.
pub open spec fn fund_len(members: nat) -> nat {
    150 + 32 * members
}

/// The bytes of a fund record.
pub open spec fn fund_bytes(f: FundView) -> Seq<u8> {
    f.name + f.creator + spec_u32_to_le_bytes(f.members.len() as u32) + addresses_bytes(f.members)
        + spec_u64_to_le_bytes(f.total_deposit) + f.governance_mint + f.vault + seq![
        flag_byte(f.is_initialized),
    ] + spec_u64_to_le_bytes(unsigned_of(f.created_at)) + seq![f.is_private]
}

/// The fund record that the bytes hold, if they hold one from end to end.
pub open spec fn fund_parse(data: Seq<u8>) -> Option<FundView> {
    if data.len() < 150 {
        None
    } else {
        let n = le_u32_at(data, 64) as int;
        if n > 255 || data.len() != 150 + 32 * n || data[140 + 32 * n] > 1 {
            None
        } else {
            Some(
                FundView {
                    name: data.subrange(0, 32),
                    creator: data.subrange(32, 64),
                    members: addresses_at(data, 68, n),
                    total_deposit: le_u64_at(data, 68 + 32 * n),
                    governance_mint: data.subrange(76 + 32 * n, 108 + 32 * n),
                    vault: data.subrange(108 + 32 * n, 140 + 32 * n),
                    is_initialized: data[140 + 32 * n] == 1,
                    created_at: signed_of(le_u64_at(data, 141 + 32 * n)),
                    is_private: data[149 + 32 * n],
                },
            )
        }
    }
}

/// Size in bytes of the record of a fund with `member_count` members.
pub fn fund_space(member_count: u8) -> (size: usize)
    ensures
        size == fund_len(member_count as nat),
{
    150 + 32 * (member_count as usize)
}

/// A fund record read back from its bytes is the record that was written,
/// and its bytes are as many as `fund_len` says.
pub proof fn lemma_fund_parse_bytes(f: FundView)
    requires
        fund_wf(f),
    ensures
        fund_bytes(f).len() == fund_len(f.members.len()),
        fund_parse(fund_bytes(f)) == Some(f),
{
    lemma_auto_spec_u64_to_from_le_bytes();
    lemma_auto_spec_u32_to_from_le_bytes();
    lemma_signed_unsigned(f.created_at);
    let data = fund_bytes(f);
    let n = f.members.len() as int;
    assert(data.subrange(64, 68) =~= spec_u32_to_le_bytes(n as u32));
    assert(data.subrange(68, 68 + 32 * n) =~= addresses_bytes(f.members));
    lemma_addresses_at_bytes(data, 68, f.members);
    assert(data.subrange(0, 32) =~= f.name);
    assert(data.subrange(32, 64) =~= f.creator);
    assert(data.subrange(68 + 32 * n, 68 + 32 * n + 8) =~= spec_u64_to_le_bytes(f.total_deposit));
    assert(data.subrange(76 + 32 * n, 108 + 32 * n) =~= f.governance_mint);
    assert(data.subrange(108 + 32 * n, 140 + 32 * n) =~= f.vault);
    assert(data.subrange(141 + 32 * n, 141 + 32 * n + 8) =~= spec_u64_to_le_bytes(
        unsigned_of(f.created_at),
    ));
}

impl FundAccount {
    /// The bytes of the record; `None` where it has more than 255 members.
    pub fn pack(&self) -> (r: Option<Vec<u8>>)
        ensures
            fund_wf(self@) ==> r is Some && r->0@ == fund_bytes(self@) && r->0@.len() == fund_len(
                self.members@.len(),
            ),
            !fund_wf(self@) ==> r is None,
    {
        if self.members.len() > MAX_COUNT {
            return None;
        }
        let mut out: Vec<u8> = Vec::new();
        put_address(&mut out, &Address::new(self.name));
        put_address(&mut out, &self.creator);
        let count = u32_to_le_bytes(self.members.len() as u32);
        push_all(&mut out, count.as_slice());
        put_addresses(&mut out, &self.members);
        put_u64(&mut out, self.total_deposit);
        put_address(&mut out, &self.governance_mint);
        put_address(&mut out, &self.vault);
        out.push(if self.is_initialized { 1u8 } else { 0u8 });
        put_u64(&mut out, to_unsigned(self.created_at));
        out.push(self.is_private);
        proof {
            assert(out@ =~= fund_bytes(self@));
            lemma_fund_parse_bytes(self@);
        }
        Some(out)
    }

    /// Reads a record from bytes that hold one from end to end.
    pub fn unpack(data: &[u8]) -> (r: Option<FundAccount>)
        ensures
            r matches Some(f) ==> fund_parse(data@) == Some(f@) && fund_wf(f@),
            r is None ==> fund_parse(data@) is None,
    {
        if data.len() < 150 {
            return None;
        }
        let count = read_u32(data, 64) as usize;
        if count > MAX_COUNT || data.len() != 150 + 32 * count {
            return None;
        }
        let flag = data[140 + 32 * count];
        if flag > 1 {
            return None;
        }
        let members = read_addresses(data, 68, count);
        let f = FundAccount {
            name: read_address(data, 0).bytes,
            creator: read_address(data, 32),
            members,
            total_deposit: read_u64(data, 68 + 32 * count),
            governance_mint: read_address(data, 76 + 32 * count),
            vault: read_address(data, 108 + 32 * count),
            is_initialized: flag == 1,
            created_at: to_signed(read_u64(data, 141 + 32 * count)),
            is_private: data[149 + 32 * count],
        };
        Some(f)
    }
}

/// What the fund records about one member: what the member paid in, the
/// governance tokens minted for it, and where the member holds them.
#[derive(Clone, Copy, Debug, PartialEq, Eq)]
pub struct UserSpecificAccount {
    pub pubkey: Address,
    pub fund: Address,
    pub deposit: u64,
    /// Mirror of the member's balance of governance tokens.
    pub governance_token_balance: u64,
    pub is_active: bool,
    pub num_proposals: u8,
    pub join_time: i64,
    /// The account in which the member holds governance tokens.
    pub governance_token_account: Address,
}

/// A member's record as plain values.
pub struct MemberView {
    pub pubkey: Seq<u8>,
    pub fund: Seq<u8>,
    pub deposit: u64,
    pub governance_token_balance: u64,
    pub is_active: bool,
    pub num_proposals: u8,
    pub join_time: i64,
    pub governance_token_account: Seq<u8>,
}

impl View for UserSpecificAccount {
    type V = MemberView;

    open spec fn view(&self) -> MemberView {
        MemberView {
            pubkey: self.pubkey@,
            fund: self.fund@,
            deposit: self.deposit,
            governance_token_balance: self.governance_token_balance,
            is_active: self.is_active,
            num_proposals: self.num_proposals,
            join_time: self.join_time,
            governance_token_account: self.governance_token_account@,
        }
    }
}

/// Whether the plain values are those of a member's record: addresses of
/// 32 bytes.
pub open spec fn member_wf(m: MemberView) -> bool {
    &&& m.pubkey.len() == 32
    &&& m.fund.len() == 32
    &&& m.governance_token_account.len() == 32
}

/// The bytes of a member's record.
pub open spec fn member_bytes(m: MemberView) -> Seq<u8> {
    m.pubkey + m.fund + spec_u64_to_le_bytes(m.deposit) + spec_u64_to_le_bytes(
        m.governance_token_balance,
    ) + seq![flag_byte(m.is_active), m.num_proposals] + spec_u64_to_le_bytes(unsigned_of(m.join_time))
        + m.governance_token_account
}

/// The member's record that the bytes hold, if they hold one from end to end.
pub open spec fn member_parse(data: Seq<u8>) -> Option<MemberView> {
    if data.len() != 122 || data[80] > 1 {
        None
    } else {
        Some(
            MemberView {
                pubkey: data.subrange(0, 32),
                fund: data.subrange(32, 64),
                deposit: le_u64_at(data, 64),
                governance_token_balance: le_u64_at(data, 72),
                is_active: data[80] == 1,
                num_proposals: data[81],
                join_time: signed_of(le_u64_at(data, 82)),
                governance_token_account: data.subrange(90, 122),
            },
        )
    }
}

/// A member's record read back from its bytes is the record that was
/// written, and its bytes are 122.
pub proof fn lemma_member_parse_bytes(m: MemberView)
    requires
        member_wf(m),
    ensures
        member_bytes(m).len() == 122,
        member_parse(member_bytes(m)) == Some(m),
{
    lemma_auto_spec_u64_to_from_le_bytes();
    lemma_signed_unsigned(m.join_time);
    let data = member_bytes(m);
    assert(data.subrange(0, 32) =~= m.pubkey);
    assert(data.subrange(32, 64) =~= m.fund);
    assert(data.subrange(64, 72) =~= spec_u64_to_le_bytes(m.deposit));
    assert(data.subrange(72, 80) =~= spec_u64_to_le_bytes(m.governance_token_balance));
    assert(data.subrange(82, 90) =~= spec_u64_to_le_bytes(unsigned_of(m.join_time)));
    assert(data.subrange(90, 122) =~= m.governance_token_account);
}

impl UserSpecificAccount {
    /// The bytes of the record, 122 of them.
    pub fn pack(&self) -> (out: Vec<u8>)
        ensures
            out@ == member_bytes(self@),
            out@.len() == MEMBER_SPACE,
    {
        let mut out: Vec<u8> = Vec::new();
        put_address(&mut out, &self.pubkey);
        put_address(&mut out, &self.fund);
        put_u64(&mut out, self.deposit);
        put_u64(&mut out, self.governance_token_balance);
        out.push(if self.is_active { 1u8 } else { 0u8 });
        out.push(self.num_proposals);
        put_u64(&mut out, to_unsigned(self.join_time));
        put_address(&mut out, &self.governance_token_account);
        proof {
            assert(out@ =~= member_bytes(self@));
            lemma_member_parse_bytes(self@);
        }
        out
    }

    /// Reads a record from bytes that hold one from end to end.
    pub fn unpack(data: &[u8]) -> (r: Option<UserSpecificAccount>)
        ensures
            r matches Some(m) ==> member_parse(data@) == Some(m@),
            r is None ==> member_parse(data@) is None,
    {
        if data.len() != MEMBER_SPACE {
            return None;
        }
        let flag = data[80];
        if flag > 1 {
            return None;
        }
        Some(
            UserSpecificAccount {
                pubkey: read_address(data, 0),
                fund: read_address(data, 32),
                deposit: read_u64(data, 64),
                governance_token_balance: read_u64(data, 72),
                is_active: flag == 1,
                num_proposals: data[81],
                join_time: to_signed(read_u64(data, 82)),
                governance_token_account: read_address(data, 90),
            },
        )
    }
}

/// One vote: who cast it, which way, and with what weight. The weight is
/// the voter's balance of governance tokens when the vote was cast and is
/// never read again.
#[derive(Clone, Copy, Debug, PartialEq, Eq)]
pub struct VoteAccount {
    pub voter: Address,
    pub vote: bool,
    pub voting_power: u64,
}

/// A vote record as plain values.
pub struct VoteView {
    pub voter: Seq<u8>,
    pub vote: bool,
    pub voting_power: u64,
}

impl View for VoteAccount {
    type V = VoteView;

    open spec fn view(&self) -> VoteView {
        VoteView { voter: self.voter@, vote: self.vote, voting_power: self.voting_power }
    }
}

/// The bytes of a vote record.
pub open spec fn vote_bytes(v: VoteView) -> Seq<u8> {
    v.voter + seq![flag_byte(v.vote)] + spec_u64_to_le_bytes(v.voting_power)
}

/// The vote record that the bytes hold, if they hold one from end to end.
pub open spec fn vote_parse(data: Seq<u8>) -> Option<VoteView> {
    if data.len() != 41 || data[32] > 1 {
        None
    } else {
        Some(VoteView { voter: data.subrange(0, 32), vote: data[32] == 1, voting_power: le_u64_at(data, 33) })
    }
}

/// A vote record read back from its bytes is the record that was written,
/// and its bytes are 41.
pub proof fn lemma_vote_parse_bytes(v: VoteView)
    requires
        v.voter.len() == 32,
    ensures
        vote_bytes(v).len() == 41,
        vote_parse(vote_bytes(v)) == Some(v),
{
    lemma_auto_spec_u64_to_from_le_bytes();
    let data = vote_bytes(v);
    assert(data.subrange(0, 32) =~= v.voter);
    assert(data.subrange(33, 41) =~= spec_u64_to_le_bytes(v.voting_power));
}

impl VoteAccount {
    /// The bytes of the record, 41 of them.
    pub fn pack(&self) -> (out: Vec<u8>)
        ensures
            out@ == vote_bytes(self@),
            out@.len() == VOTE_SPACE,
    {
        let mut out: Vec<u8> = Vec::new();
        put_address(&mut out, &self.voter);
        out.push(if self.vote { 1u8 } else { 0u8 });
        put_u64(&mut out, self.voting_power);
        proof {
            assert(out@ =~= vote_bytes(self@));
            lemma_vote_parse_bytes(self@);
        }
        out
    }

    /// Reads a record from bytes that hold one from end to end.
    pub fn unpack(data: &[u8]) -> (r: Option<VoteAccount>)
        ensures
            r matches Some(v) ==> vote_parse(data@) == Some(v@),
            r is None ==> vote_parse(data@) is None,
    {
        if data.len() != VOTE_SPACE {
            return None;
        }
        let flag = data[32];
        if flag > 1 {
            return None;
        }
        Some(VoteAccount { voter: read_address(data, 0), vote: flag == 1, voting_power: read_u64(data, 33) })
    }
}

/// A proposal to reallocate assets: leg by leg, what to sell, what to buy,
/// how much and by which route; the votes so far; the deadline; whether it
/// has been executed.
#[derive(Clone, Debug, PartialEq, Eq)]
pub struct InvestmentProposalAccount {
    pub fund: Address,
    pub proposer: Address,
    pub from_assets: Vec<Address>,
    pub to_assets: Vec<Address>,
    pub amounts: Vec<u64>,
    pub dex_tags: Vec<u8>,
    pub votes_yes: u64,
    pub votes_no: u64,
    pub deadline: i64,
    pub executed: bool,
}

/// A proposal as plain values.
pub struct ProposalView {
    pub fund: Seq<u8>,
    pub proposer: Seq<u8>,
    pub from_assets: Seq<Seq<u8>>,
    pub to_assets: Seq<Seq<u8>>,
    pub amounts: Seq<u64>,
    pub dex_tags: Seq<u8>,
    pub votes_yes: u64,
    pub votes_no: u64,
    pub deadline: i64,
    pub executed: bool,
}

impl View for InvestmentProposalAccount {
    type V = ProposalView;

    open spec fn view(&self) -> ProposalView {
        ProposalView {
            fund: self.fund@,
            proposer: self.proposer@,
            from_assets: addresses_view(&self.from_assets),
            to_assets: addresses_view(&self.to_assets),
            amounts: self.amounts@,
            dex_tags: self.dex_tags@,
            votes_yes: self.votes_yes,
            votes_no: self.votes_no,
            deadline: self.deadline,
            executed: self.executed,
        }
    }
}

/// Whether the plain values are those of a proposal: the four sequences
/// have one length, at most 255, and addresses have 32 bytes.
pub open spec fn proposal_wf(p: ProposalView) -> bool {
    &&& p.fund.len() == 32
    &&& p.proposer.len() == 32
    &&& all_addresses(p.from_assets)
    &&& all_addresses(p.to_assets)
    &&& p.from_assets.len() == p.amounts.len()
    &&& p.to_assets.len() == p.amounts.len()
    &&& p.dex_tags.len() == p.amounts.len()
    &&& p.amounts.len() <= 255
}

/// Size in bytes of a proposal of `legs` legs.
pub open spec fn proposal_len(legs: nat) -> nat {
    105 + 73 * legs
}

/// The bytes of a proposal.
pub open spec fn proposal_bytes(p: ProposalView) -> Seq<u8> {
    p.fund + p.proposer + spec_u32_to_le_bytes(p.from_assets.len() as u32) + addresses_bytes(
        p.from_assets,
    ) + spec_u32_to_le_bytes(p.to_assets.len() as u32) + addresses_bytes(p.to_assets)
        + spec_u32_to_le_bytes(p.amounts.len() as u32) + amounts_bytes(p.amounts)
        + spec_u32_to_le_bytes(p.dex_tags.len() as u32) + p.dex_tags + spec_u64_to_le_bytes(
        p.votes_yes,
    ) + spec_u64_to_le_bytes(p.votes_no) + spec_u64_to_le_bytes(unsigned_of(p.deadline)) + seq![
        flag_byte(p.executed),
    ]
}

/// The proposal that the bytes hold, if they hold one from end to end.
pub open spec fn proposal_parse(data: Seq<u8>) -> Option<ProposalView> {
    if data.len() < 105 {
        None
    } else {
        let k = le_u32_at(data, 64) as int;
        if k > 255 || data.len() != 105 + 73 * k || le_u32_at(data, 68 + 32 * k) != k || le_u32_at(
            data,
            72 + 64 * k,
        ) != k || le_u32_at(data, 76 + 72 * k) != k || data[104 + 73 * k] > 1 {
            None
        } else {
            Some(
                ProposalView {
                    fund: data.subrange(0, 32),
                    proposer: data.subrange(32, 64),
                    from_assets: addresses_at(data, 68, k),
                    to_assets: addresses_at(data, 72 + 32 * k, k),
                    amounts: amounts_at(data, 76 + 64 * k, k),
                    dex_tags: data.subrange(80 + 72 * k, 80 + 73 * k),
                    votes_yes: le_u64_at(data, 80 + 73 * k),
                    votes_no: le_u64_at(data, 88 + 73 * k),
                    deadline: signed_of(le_u64_at(data, 96 + 73 * k)),
                    executed: data[104 + 73 * k] == 1,
                },
            )
        }
    }
}

/// Size in bytes of a proposal of `legs` legs.
pub fn proposal_space(legs: u8) -> (size: usize)
    ensures
        size == proposal_len(legs as nat),
{
    105 + 73 * (legs as usize)
}

/// A proposal read back from its bytes is the proposal that was written,
/// and its bytes are as many as `proposal_len` says.
pub proof fn lemma_proposal_parse_bytes(p: ProposalView)
    requires
        proposal_wf(p),
    ensures
        proposal_bytes(p).len() == proposal_len(p.amounts.len()),
        proposal_parse(proposal_bytes(p)) == Some(p),
{
    lemma_auto_spec_u64_to_from_le_bytes();
    lemma_auto_spec_u32_to_from_le_bytes();
    lemma_signed_unsigned(p.deadline);
    let data = proposal_bytes(p);
    let k = p.amounts.len() as int;
    assert(data.len() == 105 + 73 * k);
    assert(data.subrange(0, 32) =~= p.fund);
    assert(data.subrange(32, 64) =~= p.proposer);
    assert(data.subrange(64, 68) =~= spec_u32_to_le_bytes(k as u32));
    assert(data.subrange(68, 68 + 32 * k) =~= addresses_bytes(p.from_assets));
    lemma_addresses_at_bytes(data, 68, p.from_assets);
    assert(data.subrange(68 + 32 * k, 68 + 32 * k + 4) =~= spec_u32_to_le_bytes(k as u32));
    assert(data.subrange(72 + 32 * k, 72 + 32 * k + 32 * k) =~= addresses_bytes(p.to_assets));
    lemma_addresses_at_bytes(data, 72 + 32 * k, p.to_assets);
    assert(data.subrange(72 + 64 * k, 72 + 64 * k + 4) =~= spec_u32_to_le_bytes(k as u32));
    assert(data.subrange(76 + 64 * k, 76 + 64 * k + 8 * k) =~= amounts_bytes(p.amounts));
    lemma_amounts_at_bytes(data, 76 + 64 * k, p.amounts);
    assert(data.subrange(76 + 72 * k, 76 + 72 * k + 4) =~= spec_u32_to_le_bytes(k as u32));
    assert(data.subrange(80 + 72 * k, 80 + 73 * k) =~= p.dex_tags);
    assert(data.subrange(80 + 73 * k, 80 + 73 * k + 8) =~= spec_u64_to_le_bytes(p.votes_yes));
    assert(data.subrange(88 + 73 * k, 88 + 73 * k + 8) =~= spec_u64_to_le_bytes(p.votes_no));
    assert(data.subrange(96 + 73 * k, 96 + 73 * k + 8) =~= spec_u64_to_le_bytes(
        unsigned_of(p.deadline),
    ));
}

impl InvestmentProposalAccount {
    /// The bytes of the proposal; `None` where its four sequences differ in
    /// length or have more than 255 items.
    pub fn pack(&self) -> (r: Option<Vec<u8>>)
        ensures
            proposal_wf(self@) ==> r is Some && r->0@ == proposal_bytes(self@) && r->0@.len()
                == proposal_len(self.amounts@.len()),
            !proposal_wf(self@) ==> r is None,
    {
        let k = self.amounts.len();
        if k > MAX_COUNT || self.from_assets.len() != k || self.to_assets.len() != k
            || self.dex_tags.len() != k {
            return None;
        }
        let count = u32_to_le_bytes(k as u32);
        let mut out: Vec<u8> = Vec::new();
        put_address(&mut out, &self.fund);
        put_address(&mut out, &self.proposer);
        push_all(&mut out, count.as_slice());
        put_addresses(&mut out, &self.from_assets);
        push_all(&mut out, count.as_slice());
        put_addresses(&mut out, &self.to_assets);
        push_all(&mut out, count.as_slice());
        put_amounts(&mut out, &self.amounts);
        push_all(&mut out, count.as_slice());
        push_all(&mut out, self.dex_tags.as_slice());
        put_u64(&mut out, self.votes_yes);
        put_u64(&mut out, self.votes_no);
        put_u64(&mut out, to_unsigned(self.deadline));
        out.push(if self.executed { 1u8 } else { 0u8 });
        proof {
            assert(out@ =~= proposal_bytes(self@));
            lemma_proposal_parse_bytes(self@);
        }
        Some(out)
    }

    /// Reads a proposal from bytes that hold one from end to end.
    pub fn unpack(data: &[u8]) -> (r: Option<InvestmentProposalAccount>)
        ensures
            r matches Some(p) ==> proposal_parse(data@) == Some(p@) && proposal_wf(p@),
            r is None ==> proposal_parse(data@) is None,
    {
        if data.len() < 105 {
            return None;
        }
        let k = read_u32(data, 64) as usize;
        if k > MAX_COUNT || data.len() != 105 + 73 * k {
            return None;
        }
        if read_u32(data, 68 + 32 * k) as usize != k || read_u32(data, 72 + 64 * k) as usize != k
            || read_u32(data, 76 + 72 * k) as usize != k {
            return None;
        }
        let flag = data[104 + 73 * k];
        if flag > 1 {
            return None;
        }
        let dex_tags = vstd::slice::slice_to_vec(vstd::slice::slice_subrange(data, 80 + 72 * k, 80 + 73 * k));
        let p = InvestmentProposalAccount {
            fund: read_address(data, 0),
            proposer: read_address(data, 32),
            from_assets: read_addresses(data, 68, k),
            to_assets: read_addresses(data, 72 + 32 * k, k),
            amounts: read_amounts(data, 76 + 64 * k, k),
            dex_tags,
            votes_yes: read_u64(data, 80 + 73 * k),
            votes_no: read_u64(data, 88 + 73 * k),
            deadline: to_signed(read_u64(data, 96 + 73 * k)),
            executed: flag == 1,
        };
        Some(p)
    }
}

/// Where a proposal stands: open to votes until its deadline, expired
/// after it, executed once it has been carried out. Executed is final.
#[derive(Clone, Copy, Debug, PartialEq, Eq, Structural)]
pub enum ProposalState {
    Open,
    Expired,
    Executed,
}

/// Where a proposal stands at the time `now`.
pub open spec fn proposal_state(p: ProposalView, now: i64) -> ProposalState {
    if p.executed {
        ProposalState::Executed
    } else if p.deadline < now {
        ProposalState::Expired
    } else {
        ProposalState::Open
    }
}

impl InvestmentProposalAccount {
    /// Where the proposal stands at the time `now`.
    pub fn state(&self, now: i64) -> (s: ProposalState)
        ensures
            s == proposal_state(self@, now),
    {
        if self.executed {
            ProposalState::Executed
        } else if self.deadline < now {
            ProposalState::Expired
        } else {
            ProposalState::Open
        }
    }
}

/// A vault's own note of the fund it belongs to.
#[derive(Clone, Copy, Debug, PartialEq, Eq)]
pub struct VaultAccount {
    pub fund: Address,
    pub last_deposit_time: i64,
}

impl VaultAccount {
    /// The bytes of the note: the fund's address, then the time.
    pub fn pack(&self) -> (out: Vec<u8>)
        ensures
            out@ == self.fund@ + spec_u64_to_le_bytes(unsigned_of(self.last_deposit_time)),
    {
        let mut out: Vec<u8> = Vec::new();
        put_address(&mut out, &self.fund);
        put_u64(&mut out, to_unsigned(self.last_deposit_time));
        out
    }
}

/// The funds that one user belongs to.
#[derive(Clone, Debug, PartialEq, Eq)]
pub struct UserAccount {
    pub user: Address,
    pub funds: Vec<Address>,
}

impl UserAccount {
    /// The bytes of the list: the user's address, the number of funds as a
    /// 32-bit count, the funds; `None` where the count does not fit.
    pub fn pack(&self) -> (r: Option<Vec<u8>>)
        ensures
            self.funds@.len() <= u32::MAX ==> r is Some && r->0@ == self.user@ + spec_u32_to_le_bytes(
                self.funds@.len() as u32,
            ) + addresses_bytes(addresses_view(&self.funds)),
            self.funds@.len() > u32::MAX ==> r is None,
    {
        if self.funds.len() > 0xffff_ffff {
            return None;
        }
        let mut out: Vec<u8> = Vec::new();
        put_address(&mut out, &self.user);
        let count = u32_to_le_bytes(self.funds.len() as u32);
        push_all(&mut out, count.as_slice());
        put_addresses(&mut out, &self.funds);
        Some(out)
    }
}

/// Whatever is read from bytes as a fund record can be stored again.
pub proof fn lemma_fund_parse_wf(data: Seq<u8>)
    ensures
        fund_parse(data) matches Some(f) ==> fund_wf(f),
{
}

/// Whatever is read from bytes as a member's record can be stored again.
pub proof fn lemma_member_parse_wf(data: Seq<u8>)
    ensures
        member_parse(data) matches Some(m) ==> member_wf(m),
{
}

/// Whatever is read from bytes as a proposal can be stored again.
pub proof fn lemma_proposal_parse_wf(data: Seq<u8>)
    ensures
        proposal_parse(data) matches Some(p) ==> proposal_wf(p),
{
}

} // verus!
