//! The five commands of the fund.
//!
//! Each command is decided in one pass over plain values: the accounts
//! supplied, the command's fields, what the host read, and what the
//! ledger's libraries found for the accounts. Every check comes before the
//! first action is planned, so a refused command asks nothing of the host.
//! What a command decides is stated by a function of those values; the
//! code is proved to compute it.
//!
//! A command runs in three steps: look up the derived addresses of its
//! accounts, decide, and build the calls of what was decided.

use vstd::prelude::*;
use crate::address::Address;
use crate::address::addresses_view;
use crate::address::fund_address;
use crate::address::fund_seed_list;
use crate::address::fund_seeds;
use crate::address::funding_address;
use crate::address::funding_seed_list;
use crate::address::funding_seeds;
use crate::address::member_address;
use crate::address::member_seeds;
use crate::address::mint_address;
use crate::address::mint_seeds;
use crate::address::program_address;
use crate::address::proposal_address;
use crate::address::proposal_seeds;
use crate::address::seeds_view;
use crate::address::signing_seeds;
use crate::address::vault_address;
use crate::address::vault_seeds;
use crate::address::vote_address;
use crate::address::vote_seeds;
use crate::address::with_bump;
use crate::error::FundError;
use crate::instruction::Command;
use crate::instruction::FundInstruction;
use crate::instruction::decode;
use crate::ledger::Account;
use crate::ledger::AccountView;
use crate::ledger::Action;
use crate::ledger::ActionView;
use crate::ledger::Host;
use crate::ledger::Outcome;
use crate::ledger::OutcomeView;
use crate::ledger::Plan;
use crate::ledger::PlanView;
use crate::ledger::Write;
use crate::ledger::accounts_view;
use crate::ledger::actions_view;
use crate::ledger::answers;
use crate::ledger::holding_address;
use crate::ledger::holding_address_of;
use crate::ledger::read_token_balance;
use crate::ledger::realize;
use crate::ledger::realized;
use crate::ledger::token_balance;
use crate::ledger::token_program_bytes;
use crate::ledger::token_program_id;
use crate::ledger::writes_view;
use crate::state::FundAccount;
use crate::state::FundView;
use crate::state::InvestmentProposalAccount;
use crate::state::MAX_COUNT;
use crate::state::MEMBER_SPACE;
use crate::state::MINT_SPACE;
use crate::state::MemberView;
use crate::state::ProposalView;
use crate::state::UserSpecificAccount;
use crate::state::VAULT_SPACE;
use crate::state::VOTE_SPACE;
use crate::state::VoteAccount;
use crate::state::VoteView;
use crate::state::fund_bytes;
use crate::state::fund_len;
use crate::state::fund_parse;
use crate::state::fund_space;
use crate::state::member_bytes;
use crate::state::member_parse;
use crate::state::proposal_bytes;
use crate::state::proposal_len;
use crate::state::proposal_parse;
use crate::state::proposal_space;
use crate::state::vote_bytes;

verus! {

/// Decimal places of a governance token.
pub const GOVERNANCE_DECIMALS: u8 = 6;

/// What the ledger's libraries find for the accounts of a command: the
/// address and bump derived for each role, the address derived for the
/// member's holding account, and the balance read from it. A role that a
/// command does not use, or for which nothing is found, is `None`.
#[derive(Clone, Copy, Debug, PartialEq, Eq)]
pub struct Lookups {
    pub fund: Option<(Address, u8)>,
    pub vault: Option<(Address, u8)>,
    pub mint: Option<(Address, u8)>,
    pub funding: Option<(Address, u8)>,
    pub member: Option<(Address, u8)>,
    pub proposal: Option<(Address, u8)>,
    pub vote: Option<(Address, u8)>,
    pub holding: Option<Address>,
    pub balance: Option<u64>,
}

/// Lookups as plain values.
pub struct LookupsView {
    pub fund: Option<(Seq<u8>, u8)>,
    pub vault: Option<(Seq<u8>, u8)>,
    pub mint: Option<(Seq<u8>, u8)>,
    pub funding: Option<(Seq<u8>, u8)>,
    pub member: Option<(Seq<u8>, u8)>,
    pub proposal: Option<(Seq<u8>, u8)>,
    pub vote: Option<(Seq<u8>, u8)>,
    pub holding: Option<Seq<u8>>,
    pub balance: Option<u64>,
}

/// A derived address and its bump as plain values.
pub open spec fn found_view(found: Option<(Address, u8)>) -> Option<(Seq<u8>, u8)> {
    match found {
        Some((address, bump)) => Some((address@, bump)),
        None => None,
    }
}

impl View for Lookups {
    type V = LookupsView;

    open spec fn view(&self) -> LookupsView {
        LookupsView {
            fund: found_view(self.fund),
            vault: found_view(self.vault),
            mint: found_view(self.mint),
            funding: found_view(self.funding),
            member: found_view(self.member),
            proposal: found_view(self.proposal),
            vote: found_view(self.vote),
            holding: match self.holding {
                Some(address) => Some(address@),
                None => None,
            },
            balance: self.balance,
        }
    }
}

/// Lookups in which nothing was found.
pub open spec fn no_lookups() -> LookupsView {
    LookupsView {
        fund: None,
        vault: None,
        mint: None,
        funding: None,
        member: None,
        proposal: None,
        vote: None,
        holding: None,
        balance: None,
    }
}

impl Lookups {
    /// Lookups in which nothing was found.
    pub fn none() -> (l: Lookups)
        ensures
            l@ == no_lookups(),
    {
        Lookups {
            fund: None,
            vault: None,
            mint: None,
            funding: None,
            member: None,
            proposal: None,
            vote: None,
            holding: None,
            balance: None,
        }
    }
}

/// Whether `key` is the address that was found.
pub open spec fn found_at(key: Seq<u8>, found: Option<(Seq<u8>, u8)>) -> bool {
    found matches Some((address, bump)) && address == key
}

/// The bump that was found with an address.
pub open spec fn bump_of(found: Option<(Seq<u8>, u8)>) -> u8 {
    match found {
        Some((address, bump)) => bump,
        None => 0,
    }
}

/// Whether a decision is the one its inputs call for.
pub open spec fn decides(r: Result<Plan, FundError>, expected: Result<PlanView, FundError>) -> bool {
    match r {
        Ok(plan) => expected == Ok::<PlanView, FundError>(plan@),
        Err(e) => expected == Err::<PlanView, FundError>(e),
    }
}

/// What the host is asked after a decision: nothing where the command
/// was refused, else the calls and writes of the plan.
pub open spec fn outcome_of(decision: Result<PlanView, FundError>) -> Result<OutcomeView, FundError> {
    match decision {
        Ok(plan) => realized(plan),
        Err(e) => Err(e),
    }
}

/// Whether an account is at the address that was found.
fn is_at(key: &Address, found: &Option<(Address, u8)>) -> (b: bool)
    ensures
        b == found_at(key@, found_view(*found)),
{
    match found {
        Some(pair) => key.same(&pair.0),
        None => false,
    }
}

/// The share of a total cost that each of `members` members pays: the
/// total divided by their number, rounded down. What the division leaves
/// over stays with the protocol's funding account.
pub open spec fn member_share(total: u64, members: u8) -> u64 {
    (total as int / members as int) as u64
}

/// The shares of all members together fall short of the total by less than
/// one unit for each member, and never exceed it.
pub proof fn lemma_shares_cover_total(total: u64, members: u8)
    requires
        members > 0,
    ensures
        members * member_share(total, members) <= total,
        total - members * member_share(total, members) < members,
        total - members * member_share(total, members) == total as int % members as int,
{
    let t = total as int;
    let m = members as int;
    assert(0 <= t / m <= t) by (nonlinear_arith)
        requires
            t >= 0,
            m > 0,
    ;
    assert(t == m * (t / m) + t % m && 0 <= t % m < m) by (nonlinear_arith)
        requires
            m > 0,
    ;
}

/// The addresses of the `n` accounts from position `start` on.
pub open spec fn keys_at(accounts: Seq<AccountView>, start: int, n: int) -> Seq<Seq<u8>> {
    Seq::new(n as nat, |i: int| accounts[start + i].key)
}

/// Copies out the addresses of the `n` accounts from position `start` on.
fn collect_keys(accounts: &[Account], start: usize, n: usize) -> (keys: Vec<Address>)
    requires
        start + n <= accounts@.len(),
    ensures
        addresses_view(&keys) == keys_at(accounts_view(accounts), start as int, n as int),
{
    let _len = accounts.len();
    let mut keys: Vec<Address> = Vec::new();
    let mut i: usize = 0;
    while i < n
        invariant
            i <= n,
            start + n <= accounts@.len() <= usize::MAX,
            keys@.len() == i,
            forall|j: int| 0 <= j < i ==> (#[trigger] keys@[j])@ == accounts@[start + j].key@,
        decreases n - i,
    {
        keys.push(accounts[start + i].key);
        i += 1;
    }
    assert(addresses_view(&keys) =~= keys_at(accounts_view(accounts), start as int, n as int));
    keys
}

/// Whether each of the first `n` members of a fund creation has signed.
pub open spec fn all_signed(accounts: Seq<AccountView>, n: int) -> bool {
    forall|i: int| 0 <= i < n ==> (#[trigger] accounts[6 + i]).is_signer
}

/// Whether each of the `n` members of a fund creation has signed.
fn members_signed(accounts: &[Account], n: usize) -> (b: bool)
    requires
        6 + n <= accounts@.len(),
    ensures
        b == all_signed(accounts_view(accounts), n as int),
{
    let _len = accounts.len();
    let mut i: usize = 0;
    while i < n
        invariant
            i <= n,
            6 + n <= accounts@.len() <= usize::MAX,
            forall|j: int| 0 <= j < i ==> (#[trigger] accounts_view(accounts)[6 + j]).is_signer,
        decreases n - i,
    {
        if !accounts[6 + i].is_signer {
            assert(!accounts_view(accounts)[6 + i].is_signer);
            return false;
        }
        i += 1;
    }
    true
}

/// Whether the accounts of a fund creation are where the lookups found
/// them: the fund, its vault, its mint and the protocol's funding account.
pub open spec fn create_fund_bound(accounts: Seq<AccountView>, lookups: LookupsView) -> bool {
    &&& found_at(accounts[4].key, lookups.fund)
    &&& found_at(accounts[1].key, lookups.vault)
    &&& found_at(accounts[0].key, lookups.mint)
    &&& found_at(accounts[5].key, lookups.funding)
}

/// Why a fund creation is refused, if it is. The checks, in order: the seed
/// has 32 bytes; six accounts are there; there is at least one member, an
/// account for each member, and each has signed; the accounts are at their
/// derived addresses; the three storage costs add up without overflow.
pub open spec fn create_fund_refusal(
    accounts: Seq<AccountView>,
    member_count: u8,
    seed: Seq<u8>,
    host: Host,
    lookups: LookupsView,
) -> Option<FundError> {
    let n = member_count as int;
    if seed.len() != 32 {
        Some(FundError::DecodeError)
    } else if accounts.len() < 6 {
        Some(FundError::InsufficientAccounts)
    } else if n == 0 || accounts.len() < 6 + n || !all_signed(accounts, n) {
        Some(FundError::MissingSignature)
    } else if !create_fund_bound(accounts, lookups) {
        Some(FundError::AddressMismatch)
    } else if host.fund_cost + host.vault_cost + host.mint_cost > u64::MAX {
        Some(FundError::InvalidInstruction)
    } else {
        None
    }
}

/// The record of a fund that has just been created.
pub open spec fn new_fund(accounts: Seq<AccountView>, member_count: u8, seed: Seq<u8>, host: Host) -> FundView {
    FundView {
        name: seed,
        creator: accounts[6].key,
        members: keys_at(accounts, 6, member_count as int),
        total_deposit: 0,
        governance_mint: accounts[0].key,
        vault: accounts[1].key,
        is_initialized: true,
        created_at: host.unix_timestamp,
        is_private: 0,
    }
}

/// The action that creates an account of a new fund from the protocol's
/// funding account, which signs with its seeds and the bump found for it.
pub open spec fn funded_account(
    accounts: Seq<AccountView>,
    account: Seq<u8>,
    lamports: u64,
    space: u64,
    owner: Seq<u8>,
    lookups: LookupsView,
) -> ActionView {
    ActionView::CreateAccount {
        payer: accounts[5].key,
        account,
        lamports,
        space,
        owner,
        system_program: accounts[2].key,
        signer_seeds: signing_seeds(funding_seeds(), bump_of(lookups.funding)),
    }
}

/// What a fund creation that passed every check decides: collect each
/// member's share into the funding account; create the fund record, the
/// vault and the mint from the funding account, each with the size and
/// the cost of its kind; initialize the mint with the fund as its
/// authority; store the fund record.
pub open spec fn create_fund_plan(
    program_id: Seq<u8>,
    accounts: Seq<AccountView>,
    member_count: u8,
    seed: Seq<u8>,
    host: Host,
    lookups: LookupsView,
) -> PlanView {
    let n = member_count as int;
    let mint = accounts[0].key;
    let vault = accounts[1].key;
    let token = accounts[3].key;
    let fund = accounts[4].key;
    let total = (host.fund_cost + host.vault_cost + host.mint_cost) as u64;
    PlanView {
        actions: Seq::new(
            n as nat,
            |i: int|
                ActionView::Transfer {
                    from: accounts[6 + i].key,
                    to: accounts[5].key,
                    lamports: member_share(total, member_count),
                    system_program: accounts[2].key,
                },
        ) + seq![
            funded_account(accounts, fund, host.fund_cost, fund_len(n as nat) as u64, program_id, lookups),
            funded_account(accounts, vault, host.vault_cost, 165, token, lookups),
            funded_account(accounts, mint, host.mint_cost, 82, token, lookups),
            ActionView::InitializeMint { token_program: token, mint, authority: fund, decimals: GOVERNANCE_DECIMALS },
        ],
        writes: seq![(fund, fund_bytes(new_fund(accounts, member_count, seed, host)))],
    }
}

/// What a fund creation decides: the refusal, or the plan.
pub open spec fn create_fund_decision(
    program_id: Seq<u8>,
    accounts: Seq<AccountView>,
    member_count: u8,
    seed: Seq<u8>,
    host: Host,
    lookups: LookupsView,
) -> Result<PlanView, FundError> {
    match create_fund_refusal(accounts, member_count, seed, host, lookups) {
        Some(e) => Err(e),
        None => Ok(create_fund_plan(program_id, accounts, member_count, seed, host, lookups)),
    }
}

/// What is looked up for a fund creation: the addresses derived for the
/// fund from the seed, for the vault and the mint from the fund account
/// supplied, and for the protocol's funding account.
pub open spec fn create_fund_lookups(program_id: Seq<u8>, accounts: Seq<AccountView>, seed: Seq<u8>) -> LookupsView {
    if accounts.len() < 6 {
        no_lookups()
    } else {
        LookupsView {
            fund: program_address(fund_seeds(seed), program_id),
            vault: program_address(vault_seeds(accounts[4].key), program_id),
            mint: program_address(mint_seeds(accounts[4].key), program_id),
            funding: program_address(funding_seeds(), program_id),
            ..no_lookups()
        }
    }
}

/// What a fund creation answers: what is asked of the host after deciding
/// on what was looked up.
pub open spec fn create_fund_outcome(
    program_id: Seq<u8>,
    accounts: Seq<AccountView>,
    member_count: u8,
    seed: Seq<u8>,
    host: Host,
) -> Result<OutcomeView, FundError> {
    outcome_of(
        create_fund_decision(
            program_id,
            accounts,
            member_count,
            seed,
            host,
            create_fund_lookups(program_id, accounts, seed),
        ),
    )
}

/// Decides a fund creation on what was looked up for it: checks the
/// members' signatures and the addresses of the accounts, splits the
/// storage cost evenly among the members, and plans the three accounts,
/// the mint and the fund record.
pub fn decide_create_fund(
    program_id: &Address,
    accounts: &[Account],
    number_of_members: u8,
    user_seeds: &Vec<u8>,
    host: &Host,
    lookups: &Lookups,
) -> (r: Result<Plan, FundError>)
    ensures
        decides(
            r,
            create_fund_decision(
                program_id@,
                accounts_view(accounts),
                number_of_members,
                user_seeds@,
                *host,
                lookups@,
            ),
        ),
{
    if user_seeds.len() != 32 {
        return Err(FundError::DecodeError);
    }
    let name = Address::read(user_seeds.as_slice(), 0);
    assert(name@ =~= user_seeds@);
    if accounts.len() < 6 {
        return Err(FundError::InsufficientAccounts);
    }
    let n = number_of_members as usize;
    if n == 0 || accounts.len() < 6 + n || !members_signed(accounts, n) {
        return Err(FundError::MissingSignature);
    }
    let mint = accounts[0].key;
    let vault = accounts[1].key;
    let system = accounts[2].key;
    let token = accounts[3].key;
    let fund = accounts[4].key;
    let funding = accounts[5].key;
    if !is_at(&fund, &lookups.fund) || !is_at(&vault, &lookups.vault) || !is_at(&mint, &lookups.mint)
        || !is_at(&funding, &lookups.funding) {
        return Err(FundError::AddressMismatch);
    }
    let bump = match lookups.funding {
        Some(found) => found.1,
        None => { return Err(FundError::AddressMismatch); },
    };
    let total = match host.fund_cost.checked_add(host.vault_cost) {
        Some(sum) => match sum.checked_add(host.mint_cost) {
            Some(total) => total,
            None => { return Err(FundError::InvalidInstruction); },
        },
        None => { return Err(FundError::InvalidInstruction); },
    };
    let share = total / (number_of_members as u64);
    let ghost view = accounts_view(accounts);
    let ghost plan = create_fund_plan(program_id@, view, number_of_members, user_seeds@, *host, lookups@);
    let mut actions: Vec<Action> = Vec::new();
    let mut i: usize = 0;
    while i < n
        invariant
            i <= n,
            6 + n <= accounts@.len() <= usize::MAX,
            view == accounts_view(accounts),
            funding == accounts@[5].key,
            system == accounts@[2].key,
            actions@.len() == i,
            forall|j: int|
                0 <= j < i ==> (#[trigger] actions@[j])@ == (ActionView::Transfer {
                    from: view[6 + j].key,
                    to: view[5].key,
                    lamports: share,
                    system_program: view[2].key,
                }),
        decreases n - i,
    {
        actions.push(
            Action::Transfer { from: accounts[6 + i].key, to: funding, lamports: share, system_program: system },
        );
        i += 1;
    }
    actions.push(
        Action::CreateAccount {
            payer: funding,
            account: fund,
            lamports: host.fund_cost,
            space: fund_space(number_of_members) as u64,
            owner: *program_id,
            system_program: system,
            signer_seeds: with_bump(&funding_seed_list(), bump),
        },
    );
    actions.push(
        Action::CreateAccount {
            payer: funding,
            account: vault,
            lamports: host.vault_cost,
            space: VAULT_SPACE as u64,
            owner: token,
            system_program: system,
            signer_seeds: with_bump(&funding_seed_list(), bump),
        },
    );
    actions.push(
        Action::CreateAccount {
            payer: funding,
            account: mint,
            lamports: host.mint_cost,
            space: MINT_SPACE as u64,
            owner: token,
            system_program: system,
            signer_seeds: with_bump(&funding_seed_list(), bump),
        },
    );
    actions.push(
        Action::InitializeMint { token_program: token, mint, authority: fund, decimals: GOVERNANCE_DECIMALS },
    );
    let record = FundAccount {
        name: name.bytes,
        creator: accounts[6].key,
        members: collect_keys(accounts, 6, n),
        total_deposit: 0,
        governance_mint: mint,
        vault,
        is_initialized: true,
        created_at: host.unix_timestamp,
        is_private: 0,
    };
    assert(record@ == new_fund(view, number_of_members, user_seeds@, *host));
    let data = match record.pack() {
        Some(data) => data,
        None => { return Err(FundError::InvalidInstruction); },
    };
    let writes = vec![Write { account: fund, data }];
    proof {
        assert(actions_view(&actions) =~= plan.actions);
        assert(writes_view(&writes) =~= plan.writes);
    }
    Ok(Plan { actions, writes })
}

/// Looks up the derived addresses of a fund creation.
pub fn lookup_create_fund(program_id: &Address, accounts: &[Account], user_seeds: &Vec<u8>) -> (l: Lookups)
    ensures
        l@ == create_fund_lookups(program_id@, accounts_view(accounts), user_seeds@),
{
    let mut l = Lookups::none();
    if accounts.len() >= 6 {
        l.fund = fund_address(user_seeds, program_id);
        l.vault = vault_address(&accounts[4].key, program_id);
        l.mint = mint_address(&accounts[4].key, program_id);
        l.funding = funding_address(program_id);
    }
    l
}

/// Creates a fund: looks up the derived addresses, decides, and builds the
/// calls of what was decided.
pub fn process_init_fund_account(
    program_id: &Address,
    accounts: &[Account],
    number_of_members: u8,
    user_seeds: &Vec<u8>,
    host: &Host,
) -> (r: Result<Outcome, FundError>)
    ensures
        answers(
            r,
            create_fund_outcome(program_id@, accounts_view(accounts), number_of_members, user_seeds@, *host),
        ),
{
    let lookups = lookup_create_fund(program_id, accounts, user_seeds);
    match decide_create_fund(program_id, accounts, number_of_members, user_seeds, host, &lookups) {
        Ok(plan) => realize(plan),
        Err(e) => Err(e),
    }
}

/// Whether the accounts of a deposit are where the lookups found them:
/// the fund, its vault, the member's record, and the account in which the
/// member holds the fund's governance tokens.
pub open spec fn deposit_bound(accounts: Seq<AccountView>, lookups: LookupsView) -> bool {
    &&& found_at(accounts[2].key, lookups.fund)
    &&& found_at(accounts[1].key, lookups.vault)
    &&& found_at(accounts[7].key, lookups.member)
    &&& lookups.holding == Some(accounts[5].key)
}

/// The member's record as a deposit finds it: the record stored in the
/// account, or, while the account is empty, a record with nothing paid in.
pub open spec fn member_before(accounts: Seq<AccountView>, host: Host) -> Option<MemberView> {
    if accounts[7].data.len() == 0 {
        Some(
            MemberView {
                pubkey: accounts[6].key,
                fund: accounts[2].key,
                deposit: 0,
                governance_token_balance: 0,
                is_active: false,
                num_proposals: 0,
                join_time: host.unix_timestamp,
                governance_token_account: accounts[5].key,
            },
        )
    } else {
        member_parse(accounts[7].data)
    }
}

/// Whether a member's record belongs to the member, the fund and the
/// holding account of a deposit.
pub open spec fn member_belongs(m: MemberView, accounts: Seq<AccountView>) -> bool {
    &&& m.pubkey == accounts[6].key
    &&& m.fund == accounts[2].key
    &&& m.governance_token_account == accounts[5].key
}

/// Whether the sums of a deposit fit in 64 bits.
pub open spec fn deposit_fits(f: FundView, m: MemberView, amount: u64) -> bool {
    &&& f.total_deposit + amount <= u64::MAX
    &&& m.deposit + amount <= u64::MAX
    &&& m.governance_token_balance + amount <= u64::MAX
}

/// Why a deposit is refused, if it is. The checks, in order: the seed has
/// 32 bytes; eight accounts are there; the member has signed; the fund's
/// record can be read and is initialized; the accounts are at their derived
/// addresses; the fund's record names the mint and the vault supplied; the
/// member's record, if there is one, can be read and belongs to this
/// member, fund and holding account; the sums fit in 64 bits.
pub open spec fn deposit_refusal(
    accounts: Seq<AccountView>,
    amount: u64,
    seed: Seq<u8>,
    host: Host,
    lookups: LookupsView,
) -> Option<FundError> {
    if seed.len() != 32 {
        Some(FundError::DecodeError)
    } else if accounts.len() < 8 {
        Some(FundError::InsufficientAccounts)
    } else if !accounts[6].is_signer {
        Some(FundError::MissingSignature)
    } else if fund_parse(accounts[2].data) is None || !fund_parse(accounts[2].data)->0.is_initialized {
        Some(FundError::StateMismatch)
    } else if !deposit_bound(accounts, lookups) {
        Some(FundError::AddressMismatch)
    } else if fund_parse(accounts[2].data)->0.governance_mint != accounts[0].key || fund_parse(
        accounts[2].data,
    )->0.vault != accounts[1].key {
        Some(FundError::StateMismatch)
    } else if member_before(accounts, host) is None || !member_belongs(
        member_before(accounts, host)->0,
        accounts,
    ) {
        Some(FundError::StateMismatch)
    } else if !deposit_fits(fund_parse(accounts[2].data)->0, member_before(accounts, host)->0, amount) {
        Some(FundError::InvalidInstruction)
    } else {
        None
    }
}

/// The member's record after a deposit of `amount`.
pub open spec fn member_after_deposit(m: MemberView, amount: u64) -> MemberView {
    MemberView {
        deposit: (m.deposit + amount) as u64,
        governance_token_balance: (m.governance_token_balance + amount) as u64,
        is_active: true,
        ..m
    }
}

/// The fund's record after a deposit of `amount`.
pub open spec fn fund_after_deposit(f: FundView, amount: u64) -> FundView {
    FundView { total_deposit: (f.total_deposit + amount) as u64, ..f }
}

/// What a deposit that passed every check decides: create the member's
/// holding account if it is empty; create the member's record if it is
/// empty; move the amount from the member to the vault; mint as many
/// governance tokens to the member's holding account, signed by the fund;
/// store the fund's record and the member's, each raised by the amount.
pub open spec fn deposit_plan(
    program_id: Seq<u8>,
    accounts: Seq<AccountView>,
    amount: u64,
    seed: Seq<u8>,
    host: Host,
    lookups: LookupsView,
) -> PlanView {
    let mint = accounts[0].key;
    let vault = accounts[1].key;
    let fund = accounts[2].key;
    let system = accounts[3].key;
    let token = accounts[4].key;
    let holding = accounts[5].key;
    let member = accounts[6].key;
    let record = accounts[7].key;
    let open_holding = if accounts[5].data.len() == 0 {
        seq![
            ActionView::OpenHolding {
                funder: member,
                wallet: member,
                holding,
                mint,
                token_program: token,
                system_program: system,
            },
        ]
    } else {
        Seq::empty()
    };
    let open_record = if accounts[7].data.len() == 0 {
        seq![
            ActionView::CreateAccount {
                payer: member,
                account: record,
                lamports: host.member_cost,
                space: 122,
                owner: program_id,
                system_program: system,
                signer_seeds: Seq::empty(),
            },
        ]
    } else {
        Seq::empty()
    };
    PlanView {
        actions: open_holding + open_record + seq![
            ActionView::Transfer { from: member, to: vault, lamports: amount, system_program: system },
            ActionView::MintTo {
                token_program: token,
                mint,
                holding,
                authority: fund,
                amount,
                signer_seeds: signing_seeds(fund_seeds(seed), bump_of(lookups.fund)),
            },
        ],
        writes: seq![
            (fund, fund_bytes(fund_after_deposit(fund_parse(accounts[2].data)->0, amount))),
            (record, member_bytes(member_after_deposit(member_before(accounts, host)->0, amount))),
        ],
    }
}

/// What a deposit decides: the refusal, or the plan.
pub open spec fn deposit_decision(
    program_id: Seq<u8>,
    accounts: Seq<AccountView>,
    amount: u64,
    seed: Seq<u8>,
    host: Host,
    lookups: LookupsView,
) -> Result<PlanView, FundError> {
    match deposit_refusal(accounts, amount, seed, host, lookups) {
        Some(e) => Err(e),
        None => Ok(deposit_plan(program_id, accounts, amount, seed, host, lookups)),
    }
}

/// What is looked up for a deposit: the addresses derived for the fund
/// from the seed, for the vault and the member's record from the accounts
/// supplied, and for the member's holding account under the token program
/// supplied.
pub open spec fn deposit_lookups(program_id: Seq<u8>, accounts: Seq<AccountView>, seed: Seq<u8>) -> LookupsView {
    if accounts.len() < 8 {
        no_lookups()
    } else {
        LookupsView {
            fund: program_address(fund_seeds(seed), program_id),
            vault: program_address(vault_seeds(accounts[2].key), program_id),
            member: program_address(member_seeds(accounts[2].key, accounts[6].key), program_id),
            holding: holding_address_of(accounts[6].key, accounts[4].key, accounts[0].key),
            ..no_lookups()
        }
    }
}

/// What a deposit answers: what is asked of the host after deciding on
/// what was looked up.
pub open spec fn deposit_outcome(
    program_id: Seq<u8>,
    accounts: Seq<AccountView>,
    amount: u64,
    seed: Seq<u8>,
    host: Host,
) -> Result<OutcomeView, FundError> {
    outcome_of(
        deposit_decision(program_id, accounts, amount, seed, host, deposit_lookups(program_id, accounts, seed)),
    )
}

/// Decides a deposit on what was looked up for it: checks the member's
/// signature, the addresses and the fund's references, and plans the
/// transfer into the vault, the mint of as many governance tokens, and
/// the two records.
pub fn decide_deposit(
    program_id: &Address,
    accounts: &[Account],
    amount: u64,
    user_seeds: &Vec<u8>,
    host: &Host,
    lookups: &Lookups,
) -> (r: Result<Plan, FundError>)
    ensures
        decides(
            r,
            deposit_decision(program_id@, accounts_view(accounts), amount, user_seeds@, *host, lookups@),
        ),
{
    if user_seeds.len() != 32 {
        return Err(FundError::DecodeError);
    }
    if accounts.len() < 8 {
        return Err(FundError::InsufficientAccounts);
    }
    let ghost view = accounts_view(accounts);
    let mint = accounts[0].key;
    let vault = accounts[1].key;
    let fund = accounts[2].key;
    let system = accounts[3].key;
    let token = accounts[4].key;
    let holding = accounts[5].key;
    let member = accounts[6].key;
    let record = accounts[7].key;
    if !accounts[6].is_signer {
        return Err(FundError::MissingSignature);
    }
    let mut fund_data = match FundAccount::unpack(accounts[2].data.as_slice()) {
        Some(f) => f,
        None => { return Err(FundError::StateMismatch); },
    };
    if !fund_data.is_initialized {
        return Err(FundError::StateMismatch);
    }
    if !is_at(&fund, &lookups.fund) || !is_at(&vault, &lookups.vault) || !is_at(&record, &lookups.member) {
        return Err(FundError::AddressMismatch);
    }
    let fund_bump = match lookups.fund {
        Some(found) => found.1,
        None => { return Err(FundError::AddressMismatch); },
    };
    match lookups.holding {
        Some(derived) => {
            if !derived.same(&holding) {
                return Err(FundError::AddressMismatch);
            }
        },
        None => { return Err(FundError::AddressMismatch); },
    }
    if !fund_data.governance_mint.same(&mint) || !fund_data.vault.same(&vault) {
        return Err(FundError::StateMismatch);
    }
    let record_is_new = accounts[7].data.len() == 0;
    let mut user_data = if record_is_new {
        UserSpecificAccount {
            pubkey: member,
            fund,
            deposit: 0,
            governance_token_balance: 0,
            is_active: false,
            num_proposals: 0,
            join_time: host.unix_timestamp,
            governance_token_account: holding,
        }
    } else {
        match UserSpecificAccount::unpack(accounts[7].data.as_slice()) {
            Some(m) => m,
            None => { return Err(FundError::StateMismatch); },
        }
    };
    assert(member_before(view, *host) == Some(user_data@));
    if !user_data.pubkey.same(&member) || !user_data.fund.same(&fund)
        || !user_data.governance_token_account.same(&holding) {
        return Err(FundError::StateMismatch);
    }
    let total = match fund_data.total_deposit.checked_add(amount) {
        Some(total) => total,
        None => { return Err(FundError::InvalidInstruction); },
    };
    let deposit = match user_data.deposit.checked_add(amount) {
        Some(deposit) => deposit,
        None => { return Err(FundError::InvalidInstruction); },
    };
    let balance = match user_data.governance_token_balance.checked_add(amount) {
        Some(balance) => balance,
        None => { return Err(FundError::InvalidInstruction); },
    };
    let ghost plan = deposit_plan(program_id@, view, amount, user_seeds@, *host, lookups@);
    let ghost fund_before = fund_data@;
    let ghost user_before = user_data@;
    let mut actions: Vec<Action> = Vec::new();
    if accounts[5].data.len() == 0 {
        actions.push(
            Action::OpenHolding {
                funder: member,
                wallet: member,
                holding,
                mint,
                token_program: token,
                system_program: system,
            },
        );
    }
    if record_is_new {
        let unsigned: Vec<Vec<u8>> = Vec::new();
        assert(seeds_view(&unsigned) =~= Seq::<Seq<u8>>::empty());
        actions.push(
            Action::CreateAccount {
                payer: member,
                account: record,
                lamports: host.member_cost,
                space: MEMBER_SPACE as u64,
                owner: *program_id,
                system_program: system,
                signer_seeds: unsigned,
            },
        );
    }
    actions.push(Action::Transfer { from: member, to: vault, lamports: amount, system_program: system });
    actions.push(
        Action::MintTo {
            token_program: token,
            mint,
            holding,
            authority: fund,
            amount,
            signer_seeds: with_bump(&fund_seed_list(user_seeds), fund_bump),
        },
    );
    fund_data.total_deposit = total;
    user_data.deposit = deposit;
    user_data.governance_token_balance = balance;
    user_data.is_active = true;
    assert(fund_data@ == fund_after_deposit(fund_before, amount));
    assert(user_data@ == member_after_deposit(user_before, amount));
    let packed_fund = match fund_data.pack() {
        Some(data) => data,
        None => { return Err(FundError::InvalidInstruction); },
    };
    let writes = vec![
        Write { account: fund, data: packed_fund },
        Write { account: record, data: user_data.pack() },
    ];
    proof {
        assert(actions_view(&actions) =~= plan.actions);
        assert(writes_view(&writes) =~= plan.writes);
    }
    Ok(Plan { actions, writes })
}

/// Looks up the derived addresses of a deposit.
pub fn lookup_deposit(program_id: &Address, accounts: &[Account], user_seeds: &Vec<u8>) -> (l: Lookups)
    ensures
        l@ == deposit_lookups(program_id@, accounts_view(accounts), user_seeds@),
{
    let mut l = Lookups::none();
    if accounts.len() >= 8 {
        l.fund = fund_address(user_seeds, program_id);
        l.vault = vault_address(&accounts[2].key, program_id);
        l.member = member_address(&accounts[2].key, &accounts[6].key, program_id);
        l.holding = holding_address(&accounts[6].key, &accounts[4].key, &accounts[0].key);
    }
    l
}

/// Deposits into a fund: looks up the derived addresses, decides, and
/// builds the calls of what was decided.
pub fn process_init_deposit_sol(
    program_id: &Address,
    accounts: &[Account],
    amount: u64,
    user_seeds: &Vec<u8>,
    host: &Host,
) -> (r: Result<Outcome, FundError>)
    ensures
        answers(r, deposit_outcome(program_id@, accounts_view(accounts), amount, user_seeds@, *host)),
{
    let lookups = lookup_deposit(program_id, accounts, user_seeds);
    match decide_deposit(program_id, accounts, amount, user_seeds, host, &lookups) {
        Ok(plan) => realize(plan),
        Err(e) => Err(e),
    }
}

/// Whether the accounts of a proposal are where the lookups found them:
/// the fund, the proposal and the proposer's record.
pub open spec fn proposal_bound(accounts: Seq<AccountView>, lookups: LookupsView) -> bool {
    &&& found_at(accounts[2].key, lookups.fund)
    &&& found_at(accounts[1].key, lookups.proposal)
    &&& found_at(accounts[3].key, lookups.member)
}

/// Why a proposal is refused, if it is. The checks, in order: amounts and
/// routing tags are equal in number, between 1 and 255; the seed has 32
/// bytes; five accounts are there; the proposer has signed; the accounts
/// are at their derived addresses; an account is there for each asset to
/// sell and each asset to buy; the proposer's record can be read and
/// belongs to the proposer and the fund; its count of proposals can grow.
pub open spec fn proposal_refusal(
    accounts: Seq<AccountView>,
    amounts: Seq<u64>,
    routing_tags: Seq<u8>,
    seed: Seq<u8>,
    lookups: LookupsView,
) -> Option<FundError> {
    let k = amounts.len();
    if amounts.len() != routing_tags.len() || k == 0 || k > 255 {
        Some(FundError::LengthMismatch)
    } else if seed.len() != 32 {
        Some(FundError::DecodeError)
    } else if accounts.len() < 5 {
        Some(FundError::InsufficientAccounts)
    } else if !accounts[0].is_signer {
        Some(FundError::MissingSignature)
    } else if !proposal_bound(accounts, lookups) {
        Some(FundError::AddressMismatch)
    } else if accounts.len() < 5 + 2 * k {
        Some(FundError::InsufficientAccounts)
    } else if member_parse(accounts[3].data) is None || member_parse(accounts[3].data)->0.pubkey
        != accounts[0].key || member_parse(accounts[3].data)->0.fund != accounts[2].key {
        Some(FundError::StateMismatch)
    } else if member_parse(accounts[3].data)->0.num_proposals == 255 {
        Some(FundError::InvalidInstruction)
    } else {
        None
    }
}

/// The record of a proposal that has just been made: the assets to sell
/// are the accounts after the fifth, the assets to buy are the accounts
/// after those; no votes, not executed.
pub open spec fn new_proposal(
    accounts: Seq<AccountView>,
    amounts: Seq<u64>,
    routing_tags: Seq<u8>,
    deadline: i64,
) -> ProposalView {
    let k = amounts.len() as int;
    ProposalView {
        fund: accounts[2].key,
        proposer: accounts[0].key,
        from_assets: keys_at(accounts, 5, k),
        to_assets: keys_at(accounts, 5 + k, k),
        amounts,
        dex_tags: routing_tags,
        votes_yes: 0,
        votes_no: 0,
        deadline,
        executed: false,
    }
}

/// What a proposal that passed every check decides: create the proposal's
/// account with the size of its number of legs, paid for by the proposer;
/// store the proposal and the proposer's record, whose count of proposals
/// has grown by one.
pub open spec fn proposal_plan(
    program_id: Seq<u8>,
    accounts: Seq<AccountView>,
    amounts: Seq<u64>,
    routing_tags: Seq<u8>,
    deadline: i64,
    host: Host,
) -> PlanView {
    let m = member_parse(accounts[3].data)->0;
    PlanView {
        actions: seq![
            ActionView::CreateAccount {
                payer: accounts[0].key,
                account: accounts[1].key,
                lamports: host.proposal_cost,
                space: proposal_len(amounts.len()) as u64,
                owner: program_id,
                system_program: accounts[4].key,
                signer_seeds: Seq::empty(),
            },
        ],
        writes: seq![
            (accounts[1].key, proposal_bytes(new_proposal(accounts, amounts, routing_tags, deadline))),
            (accounts[3].key, member_bytes(MemberView { num_proposals: (m.num_proposals + 1) as u8, ..m })),
        ],
    }
}

/// What a proposal decides: the refusal, or the plan.
pub open spec fn proposal_decision(
    program_id: Seq<u8>,
    accounts: Seq<AccountView>,
    amounts: Seq<u64>,
    routing_tags: Seq<u8>,
    deadline: i64,
    seed: Seq<u8>,
    host: Host,
    lookups: LookupsView,
) -> Result<PlanView, FundError> {
    match proposal_refusal(accounts, amounts, routing_tags, seed, lookups) {
        Some(e) => Err(e),
        None => Ok(proposal_plan(program_id, accounts, amounts, routing_tags, deadline, host)),
    }
}

/// What is looked up for a proposal: the addresses derived for the fund
/// from the seed, and for the proposal and the proposer's record from the
/// accounts supplied.
pub open spec fn proposal_lookups(program_id: Seq<u8>, accounts: Seq<AccountView>, seed: Seq<u8>) -> LookupsView {
    if accounts.len() < 5 {
        no_lookups()
    } else {
        LookupsView {
            fund: program_address(fund_seeds(seed), program_id),
            proposal: program_address(proposal_seeds(accounts[2].key, accounts[0].key), program_id),
            member: program_address(member_seeds(accounts[2].key, accounts[0].key), program_id),
            ..no_lookups()
        }
    }
}

/// What a proposal answers: what is asked of the host after deciding on
/// what was looked up.
pub open spec fn proposal_outcome(
    program_id: Seq<u8>,
    accounts: Seq<AccountView>,
    amounts: Seq<u64>,
    routing_tags: Seq<u8>,
    deadline: i64,
    seed: Seq<u8>,
    host: Host,
) -> Result<OutcomeView, FundError> {
    outcome_of(
        proposal_decision(
            program_id,
            accounts,
            amounts,
            routing_tags,
            deadline,
            seed,
            host,
            proposal_lookups(program_id, accounts, seed),
        ),
    )
}

/// Copies a list of amounts.
fn copy_amounts(amounts: &Vec<u64>) -> (out: Vec<u64>)
    ensures
        out@ == amounts@,
{
    let mut out: Vec<u64> = Vec::new();
    let mut i: usize = 0;
    while i < amounts.len()
        invariant
            i <= amounts@.len(),
            out@ == amounts@.subrange(0, i as int),
        decreases amounts@.len() - i,
    {
        out.push(amounts[i]);
        assert(out@ =~= amounts@.subrange(0, i + 1));
        i += 1;
    }
    assert(out@ =~= amounts@);
    out
}

/// Copies a list of routing tags.
fn copy_tags(tags: &Vec<u8>) -> (out: Vec<u8>)
    ensures
        out@ == tags@,
{
    let mut out: Vec<u8> = Vec::new();
    let mut i: usize = 0;
    while i < tags.len()
        invariant
            i <= tags@.len(),
            out@ == tags@.subrange(0, i as int),
        decreases tags@.len() - i,
    {
        out.push(tags[i]);
        assert(out@ =~= tags@.subrange(0, i + 1));
        i += 1;
    }
    assert(out@ =~= tags@);
    out
}

/// Decides a proposal on what was looked up for it: checks the lengths of
/// its sequences, the proposer's signature and the addresses, takes the
/// assets from the accounts that follow, and plans the proposal's account
/// and the two records.
pub fn decide_proposal(
    program_id: &Address,
    accounts: &[Account],
    amounts: &Vec<u64>,
    dex: &Vec<u8>,
    deadline: i64,
    user_seeds: &Vec<u8>,
    host: &Host,
    lookups: &Lookups,
) -> (r: Result<Plan, FundError>)
    ensures
        decides(
            r,
            proposal_decision(
                program_id@,
                accounts_view(accounts),
                amounts@,
                dex@,
                deadline,
                user_seeds@,
                *host,
                lookups@,
            ),
        ),
{
    let k = amounts.len();
    if k != dex.len() || k == 0 || k > MAX_COUNT {
        return Err(FundError::LengthMismatch);
    }
    if user_seeds.len() != 32 {
        return Err(FundError::DecodeError);
    }
    if accounts.len() < 5 {
        return Err(FundError::InsufficientAccounts);
    }
    let ghost view = accounts_view(accounts);
    let proposer = accounts[0].key;
    let proposal = accounts[1].key;
    let fund = accounts[2].key;
    let record = accounts[3].key;
    let system = accounts[4].key;
    if !accounts[0].is_signer {
        return Err(FundError::MissingSignature);
    }
    if !is_at(&fund, &lookups.fund) || !is_at(&proposal, &lookups.proposal) || !is_at(
        &record,
        &lookups.member,
    ) {
        return Err(FundError::AddressMismatch);
    }
    if accounts.len() < 5 + 2 * k {
        return Err(FundError::InsufficientAccounts);
    }
    let mut user_data = match UserSpecificAccount::unpack(accounts[3].data.as_slice()) {
        Some(m) => m,
        None => { return Err(FundError::StateMismatch); },
    };
    if !user_data.pubkey.same(&proposer) || !user_data.fund.same(&fund) {
        return Err(FundError::StateMismatch);
    }
    if user_data.num_proposals == 255 {
        return Err(FundError::InvalidInstruction);
    }
    let ghost plan = proposal_plan(program_id@, view, amounts@, dex@, deadline, *host);
    let proposal_data = InvestmentProposalAccount {
        fund,
        proposer,
        from_assets: collect_keys(accounts, 5, k),
        to_assets: collect_keys(accounts, 5 + k, k),
        amounts: copy_amounts(amounts),
        dex_tags: copy_tags(dex),
        votes_yes: 0,
        votes_no: 0,
        deadline,
        executed: false,
    };
    assert(proposal_data@ == new_proposal(view, amounts@, dex@, deadline));
    let packed = match proposal_data.pack() {
        Some(data) => data,
        None => { return Err(FundError::LengthMismatch); },
    };
    let ghost before = user_data@;
    user_data.num_proposals = user_data.num_proposals + 1;
    assert(user_data@ == MemberView { num_proposals: (before.num_proposals + 1) as u8, ..before });
    let unsigned: Vec<Vec<u8>> = Vec::new();
    assert(seeds_view(&unsigned) =~= Seq::<Seq<u8>>::empty());
    let actions = vec![
        Action::CreateAccount {
            payer: proposer,
            account: proposal,
            lamports: host.proposal_cost,
            space: proposal_space(k as u8) as u64,
            owner: *program_id,
            system_program: system,
            signer_seeds: unsigned,
        },
    ];
    let writes = vec![
        Write { account: proposal, data: packed },
        Write { account: record, data: user_data.pack() },
    ];
    proof {
        assert(actions_view(&actions) =~= plan.actions);
        assert(writes_view(&writes) =~= plan.writes);
    }
    Ok(Plan { actions, writes })
}

/// Looks up the derived addresses of a proposal.
pub fn lookup_proposal(program_id: &Address, accounts: &[Account], user_seeds: &Vec<u8>) -> (l: Lookups)
    ensures
        l@ == proposal_lookups(program_id@, accounts_view(accounts), user_seeds@),
{
    let mut l = Lookups::none();
    if accounts.len() >= 5 {
        l.fund = fund_address(user_seeds, program_id);
        l.proposal = proposal_address(&accounts[2].key, &accounts[0].key, program_id);
        l.member = member_address(&accounts[2].key, &accounts[0].key, program_id);
    }
    l
}

/// Makes a proposal: looks up the derived addresses, decides, and builds
/// the calls of what was decided.
pub fn process_init_proposal_creation(
    program_id: &Address,
    accounts: &[Account],
    amounts: &Vec<u64>,
    dex: &Vec<u8>,
    deadline: i64,
    user_seeds: &Vec<u8>,
    host: &Host,
) -> (r: Result<Outcome, FundError>)
    ensures
        answers(
            r,
            proposal_outcome(program_id@, accounts_view(accounts), amounts@, dex@, deadline, user_seeds@, *host),
        ),
{
    let lookups = lookup_proposal(program_id, accounts, user_seeds);
    match decide_proposal(program_id, accounts, amounts, dex, deadline, user_seeds, host, &lookups) {
        Ok(plan) => realize(plan),
        Err(e) => Err(e),
    }
}

/// Whether the accounts of a vote are where the lookups found them: the
/// fund, the proposal, the voter's record, the vote record, and the
/// account in which the voter holds governance tokens.
pub open spec fn vote_bound(accounts: Seq<AccountView>, lookups: LookupsView) -> bool {
    &&& found_at(accounts[3].key, lookups.fund)
    &&& found_at(accounts[4].key, lookups.proposal)
    &&& found_at(accounts[5].key, lookups.member)
    &&& found_at(accounts[1].key, lookups.vote)
    &&& lookups.holding == Some(accounts[7].key)
}

/// Whether the stored records of a vote can all be read: the fund's, which
/// must be initialized, the proposal's and the voter's.
pub open spec fn vote_records_read(accounts: Seq<AccountView>) -> bool {
    &&& fund_parse(accounts[3].data) is Some
    &&& fund_parse(accounts[3].data)->0.is_initialized
    &&& proposal_parse(accounts[4].data) is Some
    &&& member_parse(accounts[5].data) is Some
}

/// Whether the stored records of a vote refer to the accounts supplied:
/// the fund's mint, the proposal's fund, and the voter's record with its
/// member, its fund and its holding account.
pub open spec fn vote_references_agree(accounts: Seq<AccountView>) -> bool {
    let f = fund_parse(accounts[3].data)->0;
    let p = proposal_parse(accounts[4].data)->0;
    let m = member_parse(accounts[5].data)->0;
    &&& f.governance_mint == accounts[6].key
    &&& p.fund == accounts[3].key
    &&& m.pubkey == accounts[0].key
    &&& m.fund == accounts[3].key
    &&& m.governance_token_account == accounts[7].key
}

/// The tally that a vote of the given choice adds to.
pub open spec fn tally_before(p: ProposalView, choice: u8) -> u64 {
    if choice == 1 {
        p.votes_yes
    } else {
        p.votes_no
    }
}

/// Why a vote is refused, if it is. The checks, in order: the seed has 32
/// bytes; eight accounts are there; the voter has signed; the three stored
/// records can be read; the accounts are at their derived addresses; the
/// stored references agree with the accounts; the deadline has not passed;
/// no vote record exists yet; the proposal has not been executed; the
/// voter's balance could be read; the tally can take it.
pub open spec fn vote_refusal(
    accounts: Seq<AccountView>,
    choice: u8,
    seed: Seq<u8>,
    host: Host,
    lookups: LookupsView,
) -> Option<FundError> {
    if seed.len() != 32 {
        Some(FundError::DecodeError)
    } else if accounts.len() < 8 {
        Some(FundError::InsufficientAccounts)
    } else if !accounts[0].is_signer {
        Some(FundError::MissingSignature)
    } else if !vote_records_read(accounts) {
        Some(FundError::StateMismatch)
    } else if !vote_bound(accounts, lookups) {
        Some(FundError::AddressMismatch)
    } else if !vote_references_agree(accounts) {
        Some(FundError::StateMismatch)
    } else if proposal_parse(accounts[4].data)->0.deadline < host.unix_timestamp {
        Some(FundError::DeadlinePassed)
    } else if accounts[1].data.len() != 0 {
        Some(FundError::AlreadyVoted)
    } else if proposal_parse(accounts[4].data)->0.executed {
        Some(FundError::InvalidInstruction)
    } else if lookups.balance is None {
        Some(FundError::StateMismatch)
    } else if tally_before(proposal_parse(accounts[4].data)->0, choice) + lookups.balance->0 > u64::MAX {
        Some(FundError::InvalidInstruction)
    } else {
        None
    }
}

/// The proposal after a vote of the given choice and weight: the weight is
/// added to the yes tally where the choice is 1, to the no tally otherwise.
pub open spec fn proposal_after_vote(p: ProposalView, choice: u8, power: u64) -> ProposalView {
    if choice == 1 {
        ProposalView { votes_yes: (p.votes_yes + power) as u64, ..p }
    } else {
        ProposalView { votes_no: (p.votes_no + power) as u64, ..p }
    }
}

/// What a vote that passed every check decides: create the vote record's
/// account, paid for by the voter; store the vote with the voter's
/// balance as its weight, and the proposal with its new tally.
pub open spec fn vote_plan(
    program_id: Seq<u8>,
    accounts: Seq<AccountView>,
    choice: u8,
    host: Host,
    lookups: LookupsView,
) -> PlanView {
    let p = proposal_parse(accounts[4].data)->0;
    let power = lookups.balance->0;
    PlanView {
        actions: seq![
            ActionView::CreateAccount {
                payer: accounts[0].key,
                account: accounts[1].key,
                lamports: host.vote_cost,
                space: 41,
                owner: program_id,
                system_program: accounts[2].key,
                signer_seeds: Seq::empty(),
            },
        ],
        writes: seq![
            (accounts[1].key, vote_bytes(VoteView { voter: accounts[0].key, vote: choice == 1, voting_power: power })),
            (accounts[4].key, proposal_bytes(proposal_after_vote(p, choice, power))),
        ],
    }
}

/// What a vote decides: the refusal, or the plan.
pub open spec fn vote_decision(
    program_id: Seq<u8>,
    accounts: Seq<AccountView>,
    choice: u8,
    seed: Seq<u8>,
    host: Host,
    lookups: LookupsView,
) -> Result<PlanView, FundError> {
    match vote_refusal(accounts, choice, seed, host, lookups) {
        Some(e) => Err(e),
        None => Ok(vote_plan(program_id, accounts, choice, host, lookups)),
    }
}

/// What is looked up for a vote: the addresses derived for the fund from
/// the seed, for the proposal from the fund and the proposer that the
/// proposal's record names, for the voter's record and the vote record
/// from the accounts supplied, and for the voter's holding account under
/// the token program; and the balance read from the holding account.
pub open spec fn vote_lookups(program_id: Seq<u8>, accounts: Seq<AccountView>, seed: Seq<u8>) -> LookupsView {
    if accounts.len() < 8 {
        no_lookups()
    } else {
        LookupsView {
            fund: program_address(fund_seeds(seed), program_id),
            proposal: match proposal_parse(accounts[4].data) {
                Some(p) => program_address(proposal_seeds(accounts[3].key, p.proposer), program_id),
                None => None,
            },
            member: program_address(member_seeds(accounts[3].key, accounts[0].key), program_id),
            vote: program_address(vote_seeds(accounts[4].key, accounts[0].key), program_id),
            holding: holding_address_of(accounts[0].key, token_program_bytes(), accounts[6].key),
            balance: token_balance(accounts[7].data),
            ..no_lookups()
        }
    }
}

/// What a vote answers: what is asked of the host after deciding on what
/// was looked up.
pub open spec fn vote_outcome(
    program_id: Seq<u8>,
    accounts: Seq<AccountView>,
    choice: u8,
    seed: Seq<u8>,
    host: Host,
) -> Result<OutcomeView, FundError> {
    outcome_of(vote_decision(program_id, accounts, choice, seed, host, vote_lookups(program_id, accounts, seed)))
}

/// Decides a vote on what was looked up for it: checks the voter's
/// signature, the addresses, the stored references, the deadline and that
/// the voter has not voted yet, takes the voter's balance as the weight
/// of the vote, and plans the vote record and the proposal's new tally.
pub fn decide_vote(
    program_id: &Address,
    accounts: &[Account],
    vote: u8,
    user_seed: &Vec<u8>,
    host: &Host,
    lookups: &Lookups,
) -> (r: Result<Plan, FundError>)
    ensures
        decides(r, vote_decision(program_id@, accounts_view(accounts), vote, user_seed@, *host, lookups@)),
{
    if user_seed.len() != 32 {
        return Err(FundError::DecodeError);
    }
    if accounts.len() < 8 {
        return Err(FundError::InsufficientAccounts);
    }
    let ghost view = accounts_view(accounts);
    let voter = accounts[0].key;
    let vote_key = accounts[1].key;
    let system = accounts[2].key;
    let fund = accounts[3].key;
    let proposal = accounts[4].key;
    let record = accounts[5].key;
    let mint = accounts[6].key;
    let holding = accounts[7].key;
    if !accounts[0].is_signer {
        return Err(FundError::MissingSignature);
    }
    let fund_data = match FundAccount::unpack(accounts[3].data.as_slice()) {
        Some(f) => f,
        None => { return Err(FundError::StateMismatch); },
    };
    if !fund_data.is_initialized {
        return Err(FundError::StateMismatch);
    }
    let mut proposal_data = match InvestmentProposalAccount::unpack(accounts[4].data.as_slice()) {
        Some(p) => p,
        None => { return Err(FundError::StateMismatch); },
    };
    let user_data = match UserSpecificAccount::unpack(accounts[5].data.as_slice()) {
        Some(m) => m,
        None => { return Err(FundError::StateMismatch); },
    };
    if !is_at(&fund, &lookups.fund) || !is_at(&proposal, &lookups.proposal) || !is_at(
        &record,
        &lookups.member,
    ) || !is_at(&vote_key, &lookups.vote) {
        return Err(FundError::AddressMismatch);
    }
    match lookups.holding {
        Some(derived) => {
            if !derived.same(&holding) {
                return Err(FundError::AddressMismatch);
            }
        },
        None => { return Err(FundError::AddressMismatch); },
    }
    if !fund_data.governance_mint.same(&mint) || !proposal_data.fund.same(&fund)
        || !user_data.pubkey.same(&voter) || !user_data.fund.same(&fund)
        || !user_data.governance_token_account.same(&holding) {
        return Err(FundError::StateMismatch);
    }
    if proposal_data.deadline < host.unix_timestamp {
        return Err(FundError::DeadlinePassed);
    }
    if accounts[1].data.len() != 0 {
        return Err(FundError::AlreadyVoted);
    }
    if proposal_data.executed {
        return Err(FundError::InvalidInstruction);
    }
    let power = match lookups.balance {
        Some(amount) => amount,
        None => { return Err(FundError::StateMismatch); },
    };
    let ghost plan = vote_plan(program_id@, view, vote, *host, lookups@);
    let ghost before = proposal_data@;
    if vote == 1 {
        proposal_data.votes_yes = match proposal_data.votes_yes.checked_add(power) {
            Some(tally) => tally,
            None => { return Err(FundError::InvalidInstruction); },
        };
    } else {
        proposal_data.votes_no = match proposal_data.votes_no.checked_add(power) {
            Some(tally) => tally,
            None => { return Err(FundError::InvalidInstruction); },
        };
    }
    assert(proposal_data@ == proposal_after_vote(before, vote, power));
    let packed = match proposal_data.pack() {
        Some(data) => data,
        None => { return Err(FundError::StateMismatch); },
    };
    let voter_data = VoteAccount { voter, vote: vote == 1, voting_power: power };
    let unsigned: Vec<Vec<u8>> = Vec::new();
    assert(seeds_view(&unsigned) =~= Seq::<Seq<u8>>::empty());
    let actions = vec![
        Action::CreateAccount {
            payer: voter,
            account: vote_key,
            lamports: host.vote_cost,
            space: VOTE_SPACE as u64,
            owner: *program_id,
            system_program: system,
            signer_seeds: unsigned,
        },
    ];
    let writes = vec![
        Write { account: vote_key, data: voter_data.pack() },
        Write { account: proposal, data: packed },
    ];
    proof {
        assert(actions_view(&actions) =~= plan.actions);
        assert(writes_view(&writes) =~= plan.writes);
    }
    Ok(Plan { actions, writes })
}

/// Looks up the derived addresses of a vote and reads the voter's balance.
pub fn lookup_vote(program_id: &Address, accounts: &[Account], user_seed: &Vec<u8>) -> (l: Lookups)
    ensures
        l@ == vote_lookups(program_id@, accounts_view(accounts), user_seed@),
{
    let mut l = Lookups::none();
    if accounts.len() >= 8 {
        l.fund = fund_address(user_seed, program_id);
        l.proposal = match InvestmentProposalAccount::unpack(accounts[4].data.as_slice()) {
            Some(p) => proposal_address(&accounts[3].key, &p.proposer, program_id),
            None => None,
        };
        l.member = member_address(&accounts[3].key, &accounts[0].key, program_id);
        l.vote = vote_address(&accounts[4].key, &accounts[0].key, program_id);
        l.holding = holding_address(&accounts[0].key, &token_program_id(), &accounts[6].key);
        l.balance = match read_token_balance(accounts[7].data.as_slice()) {
            Ok(amount) => Some(amount),
            Err(_) => None,
        };
    }
    l
}

/// Casts a vote: looks up the derived addresses and the voter's balance,
/// decides, and builds the calls of what was decided.
pub fn process_init_voting(
    program_id: &Address,
    accounts: &[Account],
    vote: u8,
    user_seed: &Vec<u8>,
    host: &Host,
) -> (r: Result<Outcome, FundError>)
    ensures
        answers(r, vote_outcome(program_id@, accounts_view(accounts), vote, user_seed@, *host)),
{
    let lookups = lookup_vote(program_id, accounts, user_seed);
    match decide_vote(program_id, accounts, vote, user_seed, host, &lookups) {
        Ok(plan) => realize(plan),
        Err(e) => Err(e),
    }
}

/// Why an execution is refused, if it is. The checks, in order: two
/// accounts are there; the acting member has signed; the proposal's
/// account is the one the command names; the proposal can be read; it has
/// not been executed yet.
pub open spec fn execute_refusal(accounts: Seq<AccountView>, target: Seq<u8>) -> Option<FundError> {
    if accounts.len() < 2 {
        Some(FundError::InsufficientAccounts)
    } else if !accounts[0].is_signer {
        Some(FundError::MissingSignature)
    } else if accounts[1].key != target {
        Some(FundError::AddressMismatch)
    } else if proposal_parse(accounts[1].data) is None {
        Some(FundError::StateMismatch)
    } else if proposal_parse(accounts[1].data)->0.executed {
        Some(FundError::InvalidInstruction)
    } else {
        None
    }
}

/// What an execution decides: the refusal, or, with no action of its own,
/// the proposal stored as executed.
pub open spec fn execute_decision(accounts: Seq<AccountView>, target: Seq<u8>) -> Result<PlanView, FundError> {
    match execute_refusal(accounts, target) {
        Some(e) => Err(e),
        None => Ok(
            PlanView {
                actions: Seq::empty(),
                writes: seq![
                    (
                        accounts[1].key,
                        proposal_bytes(ProposalView { executed: true, ..proposal_parse(accounts[1].data)->0 }),
                    ),
                ],
            },
        ),
    }
}

/// What an execution answers: what is asked of the host after deciding.
pub open spec fn execute_outcome(accounts: Seq<AccountView>, target: Seq<u8>) -> Result<
    OutcomeView,
    FundError,
> {
    outcome_of(execute_decision(accounts, target))
}

/// Decides an execution: checks the signature of the acting member and
/// that the proposal has not been executed, and plans the proposal's
/// record with the flag set. The reallocation itself is the work of
/// whoever carries the proposal out.
pub fn decide_execute(accounts: &[Account], target: &Address) -> (r: Result<Plan, FundError>)
    ensures
        decides(r, execute_decision(accounts_view(accounts), target@)),
{
    if accounts.len() < 2 {
        return Err(FundError::InsufficientAccounts);
    }
    if !accounts[0].is_signer {
        return Err(FundError::MissingSignature);
    }
    let proposal = accounts[1].key;
    if !proposal.same(target) {
        return Err(FundError::AddressMismatch);
    }
    let mut proposal_data = match InvestmentProposalAccount::unpack(accounts[1].data.as_slice()) {
        Some(p) => p,
        None => { return Err(FundError::StateMismatch); },
    };
    if proposal_data.executed {
        return Err(FundError::InvalidInstruction);
    }
    let ghost before = proposal_data@;
    proposal_data.executed = true;
    assert(proposal_data@ == ProposalView { executed: true, ..before });
    let packed = match proposal_data.pack() {
        Some(data) => data,
        None => { return Err(FundError::StateMismatch); },
    };
    let actions: Vec<Action> = Vec::new();
    let writes = vec![Write { account: proposal, data: packed }];
    proof {
        assert(actions_view(&actions) =~= Seq::<ActionView>::empty());
        assert(writes_view(&writes) =~= execute_decision(accounts_view(accounts), target@)->Ok_0.writes);
    }
    Ok(Plan { actions, writes })
}

/// Marks a proposal as executed, once.
pub fn process_execute(accounts: &[Account], target: &Address) -> (r: Result<Outcome, FundError>)
    ensures
        answers(r, execute_outcome(accounts_view(accounts), target@)),
{
    match decide_execute(accounts, target) {
        Ok(plan) => realize(plan),
        Err(e) => Err(e),
    }
}

/// What a decoded command answers on the given accounts.
pub open spec fn command_outcome(
    program_id: Seq<u8>,
    accounts: Seq<AccountView>,
    command: Command,
    host: Host,
) -> Result<OutcomeView, FundError> {
    match command {
        Command::CreateFund { member_count, seed } => create_fund_outcome(
            program_id,
            accounts,
            member_count,
            seed,
            host,
        ),
        Command::Deposit { amount, seed } => deposit_outcome(program_id, accounts, amount, seed, host),
        Command::CreateProposal { amounts, routing_tags, deadline, seed } => proposal_outcome(
            program_id,
            accounts,
            amounts,
            routing_tags,
            deadline,
            seed,
            host,
        ),
        Command::CastVote { choice, seed } => vote_outcome(program_id, accounts, choice, seed, host),
        Command::Execute { proposal } => execute_outcome(accounts, proposal),
    }
}

/// What the bytes of a command answer on the given accounts: the decode
/// error where they hold no command, else what the command answers.
pub open spec fn instruction_outcome(
    program_id: Seq<u8>,
    accounts: Seq<AccountView>,
    data: Seq<u8>,
    host: Host,
) -> Result<OutcomeView, FundError> {
    match decode(data) {
        Ok(command) => command_outcome(program_id, accounts, command, host),
        Err(e) => Err(e),
    }
}

/// Carries out a command that has been decoded.
pub fn process(program_id: &Address, accounts: &[Account], instruction: &FundInstruction, host: &Host) -> (r:
    Result<Outcome, FundError>)
    ensures
        answers(r, command_outcome(program_id@, accounts_view(accounts), instruction@, *host)),
{
    match instruction {
        FundInstruction::InitFundAccount { number_of_members, user_seed } => process_init_fund_account(
            program_id,
            accounts,
            *number_of_members,
            user_seed,
            host,
        ),
        FundInstruction::InitDepositSol { amount, user_seed } => process_init_deposit_sol(
            program_id,
            accounts,
            *amount,
            user_seed,
            host,
        ),
        FundInstruction::InitProposalAccount { amounts, dex, deadline, user_seed } => process_init_proposal_creation(
            program_id,
            accounts,
            amounts,
            dex,
            *deadline,
            user_seed,
            host,
        ),
        FundInstruction::InitVotingAccount { user_seed, vote } => process_init_voting(
            program_id,
            accounts,
            *vote,
            user_seed,
            host,
        ),
        FundInstruction::Execute { proposal } => process_execute(accounts, proposal),
    }
}

/// Decodes a command and carries it out.
pub fn process_instruction(program_id: &Address, accounts: &[Account], data: &[u8], host: &Host) -> (r:
    Result<Outcome, FundError>)
    ensures
        answers(r, instruction_outcome(program_id@, accounts_view(accounts), data@, *host)),
{
    match FundInstruction::unpack(data) {
        Ok(instruction) => process(program_id, accounts, &instruction, host),
        Err(e) => Err(e),
    }
}

} // verus!
