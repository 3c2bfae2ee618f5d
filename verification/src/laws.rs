//! What holds of the fund across commands.
//!
//! Each law is stated over the functions that say what a command decides,
//! for all accounts, fields, host readings and lookups, and proved from
//! them.

use vstd::prelude::*;
use crate::error::FundError;
use crate::ledger::AccountView;
use crate::ledger::ActionView;
use crate::ledger::Host;
use crate::ledger::OutcomeView;
use crate::ledger::PlanView;
use crate::processor::LookupsView;
use crate::processor::create_fund_decision;
use crate::processor::create_fund_refusal;
use crate::processor::deposit_decision;
use crate::processor::deposit_refusal;
use crate::processor::execute_decision;
use crate::processor::execute_refusal;
use crate::processor::fund_after_deposit;
use crate::processor::member_after_deposit;
use crate::processor::member_before;
use crate::processor::member_share;
use crate::processor::new_fund;
use crate::processor::new_proposal;
use crate::processor::outcome_of;
use crate::processor::proposal_after_vote;
use crate::processor::proposal_decision;
use crate::processor::proposal_outcome;
use crate::processor::proposal_refusal;
use crate::processor::vote_decision;
use crate::processor::vote_refusal;
use crate::state::ProposalState;
use crate::state::ProposalView;
use crate::state::VoteView;
use crate::state::fund_len;
use crate::state::fund_parse;
use crate::state::fund_wf;
use crate::state::lemma_fund_parse_bytes;
use crate::state::lemma_fund_parse_wf;
use crate::state::lemma_member_parse_bytes;
use crate::state::lemma_member_parse_wf;
use crate::state::lemma_proposal_parse_bytes;
use crate::state::lemma_proposal_parse_wf;
use crate::state::lemma_vote_parse_bytes;
use crate::state::member_parse;
use crate::state::member_wf;
use crate::state::proposal_len;
use crate::state::proposal_parse;
use crate::state::proposal_state;
use crate::state::proposal_wf;
use crate::state::vote_parse;

verus! {

/// Whether the accounts are such as a host can supply: every address has
/// 32 bytes.
pub open spec fn accounts_wf(accounts: Seq<AccountView>) -> bool {
    forall|i: int| 0 <= i < accounts.len() ==> (#[trigger] accounts[i]).key.len() == 32
}

/// The accounts with the bytes of the account at `index` replaced.
pub open spec fn with_data(accounts: Seq<AccountView>, index: int, data: Seq<u8>) -> Seq<AccountView> {
    accounts.update(index, AccountView { data, ..accounts[index] })
}

/// The host is asked only for what was decided: a refusal reaches it as
/// the same refusal, and where the calls of a plan are built, there is one
/// for each action and the writes are those of the plan.
pub proof fn lemma_outcome_keeps_the_decision(decision: Result<PlanView, FundError>)
    ensures
        decision matches Err(e) ==> outcome_of(decision) == Err::<OutcomeView, FundError>(e),
        decision matches Ok(plan) ==> (outcome_of(decision) matches Ok(outcome) ==> outcome.writes
            == plan.writes && outcome.calls.len() == plan.actions.len()),
        decision matches Ok(plan) ==> (outcome_of(decision) matches Err(e) ==> e
            == FundError::AddressMismatch),
{
}

/// The record of a new fund can be stored.
proof fn lemma_new_fund_wf(
    accounts: Seq<AccountView>,
    member_count: u8,
    seed: Seq<u8>,
    host: Host,
    lookups: LookupsView,
)
    requires
        accounts_wf(accounts),
        create_fund_refusal(accounts, member_count, seed, host, lookups) is None,
    ensures
        fund_wf(new_fund(accounts, member_count, seed, host)),
{
    let f = new_fund(accounts, member_count, seed, host);
    assert(accounts[6].key.len() == 32);
    assert(accounts[0].key.len() == 32);
    assert(accounts[1].key.len() == 32);
    assert forall|i: int| 0 <= i < f.members.len() implies (#[trigger] f.members[i]).len() == 32 by {
        assert(accounts[6 + i].key.len() == 32);
    }
}

/// The member's record that a deposit finds can be stored.
proof fn lemma_member_before_wf(
    accounts: Seq<AccountView>,
    amount: u64,
    seed: Seq<u8>,
    host: Host,
    lookups: LookupsView,
)
    requires
        accounts_wf(accounts),
        deposit_refusal(accounts, amount, seed, host, lookups) is None,
    ensures
        member_wf(member_before(accounts, host)->0),
{
    if accounts[7].data.len() == 0 {
        assert(accounts[6].key.len() == 32);
        assert(accounts[2].key.len() == 32);
        assert(accounts[5].key.len() == 32);
    } else {
        lemma_member_parse_wf(accounts[7].data);
    }
}

/// A fund that is created charges each member the same share of the total
/// storage cost, the total divided by the number of members and rounded
/// down; and the record it stores reads back as a fund with nothing paid
/// in, initialized, with the mint and the vault supplied.
pub proof fn lemma_created_fund_is_shared_and_empty(
    program_id: Seq<u8>,
    accounts: Seq<AccountView>,
    member_count: u8,
    seed: Seq<u8>,
    host: Host,
    lookups: LookupsView,
)
    requires
        accounts_wf(accounts),
        create_fund_refusal(accounts, member_count, seed, host, lookups) is None,
    ensures
        create_fund_decision(program_id, accounts, member_count, seed, host, lookups) is Ok,
        forall|i: int|
            0 <= i < member_count ==> (#[trigger] create_fund_decision(
                program_id,
                accounts,
                member_count,
                seed,
                host,
                lookups,
            )->Ok_0.actions[i]) == (ActionView::Transfer {
                from: accounts[6 + i].key,
                to: accounts[5].key,
                lamports: member_share(
                    (host.fund_cost + host.vault_cost + host.mint_cost) as u64,
                    member_count,
                ),
                system_program: accounts[2].key,
            }),
        fund_parse(
            create_fund_decision(program_id, accounts, member_count, seed, host, lookups)->Ok_0.writes[0].1,
        ) == Some(new_fund(accounts, member_count, seed, host)),
        new_fund(accounts, member_count, seed, host).total_deposit == 0,
        new_fund(accounts, member_count, seed, host).is_initialized,
{
    lemma_new_fund_wf(accounts, member_count, seed, host, lookups);
    lemma_fund_parse_bytes(new_fund(accounts, member_count, seed, host));
}

/// The fund's account is created with the size of the fund's record: the
/// record stored has as many bytes as the action that creates the account
/// asks for.
pub proof fn lemma_fund_record_fills_its_account(
    program_id: Seq<u8>,
    accounts: Seq<AccountView>,
    member_count: u8,
    seed: Seq<u8>,
    host: Host,
    lookups: LookupsView,
)
    requires
        accounts_wf(accounts),
        create_fund_refusal(accounts, member_count, seed, host, lookups) is None,
    ensures
        create_fund_decision(program_id, accounts, member_count, seed, host, lookups)->Ok_0.writes[0].1.len()
            == fund_len(member_count as nat),
        create_fund_decision(program_id, accounts, member_count, seed, host, lookups)->Ok_0.actions[member_count as int] matches ActionView::CreateAccount {
            account,
            space,
            ..
        } && account == accounts[4].key && space == fund_len(member_count as nat),
{
    lemma_new_fund_wf(accounts, member_count, seed, host, lookups);
    lemma_fund_parse_bytes(new_fund(accounts, member_count, seed, host));
}

/// A deposit never lowers what a fund or a member has paid in, and keeps
/// the fund's mint and vault: the records it stores read back as the
/// records before it with the amount added to the fund's total, to the
/// member's deposit and to the member's mirror of governance tokens.
pub proof fn lemma_deposit_adds_amount(
    program_id: Seq<u8>,
    accounts: Seq<AccountView>,
    amount: u64,
    seed: Seq<u8>,
    host: Host,
    lookups: LookupsView,
)
    requires
        accounts_wf(accounts),
        deposit_refusal(accounts, amount, seed, host, lookups) is None,
    ensures
        deposit_decision(program_id, accounts, amount, seed, host, lookups) is Ok,
        fund_parse(deposit_decision(program_id, accounts, amount, seed, host, lookups)->Ok_0.writes[0].1)
            == Some(fund_after_deposit(fund_parse(accounts[2].data)->0, amount)),
        fund_after_deposit(fund_parse(accounts[2].data)->0, amount).total_deposit == fund_parse(
            accounts[2].data,
        )->0.total_deposit + amount,
        fund_after_deposit(fund_parse(accounts[2].data)->0, amount).governance_mint == fund_parse(
            accounts[2].data,
        )->0.governance_mint,
        member_parse(deposit_decision(program_id, accounts, amount, seed, host, lookups)->Ok_0.writes[1].1)
            == Some(member_after_deposit(member_before(accounts, host)->0, amount)),
        member_after_deposit(member_before(accounts, host)->0, amount).governance_token_balance
            == member_before(accounts, host)->0.governance_token_balance + amount,
        member_after_deposit(member_before(accounts, host)->0, amount).deposit == member_before(
            accounts,
            host,
        )->0.deposit + amount,
        deposit_decision(program_id, accounts, amount, seed, host, lookups)->Ok_0.writes[1].1.len() == 122,
{
    lemma_fund_parse_wf(accounts[2].data);
    lemma_fund_parse_bytes(fund_after_deposit(fund_parse(accounts[2].data)->0, amount));
    lemma_member_before_wf(accounts, amount, seed, host, lookups);
    lemma_member_parse_bytes(member_after_deposit(member_before(accounts, host)->0, amount));
}

/// A deposit opens the member's holding account and the member's record
/// only while they are empty: once both hold data, a deposit plans the
/// transfer and the mint and nothing else. The mint is of the amount
/// deposited, whether or not an account is opened.
pub proof fn lemma_deposit_opens_accounts_once(
    program_id: Seq<u8>,
    accounts: Seq<AccountView>,
    amount: u64,
    seed: Seq<u8>,
    host: Host,
    lookups: LookupsView,
)
    requires
        deposit_refusal(accounts, amount, seed, host, lookups) is None,
    ensures
        deposit_decision(program_id, accounts, amount, seed, host, lookups) is Ok,
        deposit_decision(program_id, accounts, amount, seed, host, lookups)->Ok_0.actions.len() == 2 + (if accounts[5].data.len()
            == 0 {
            1int
        } else {
            0int
        }) + (if accounts[7].data.len() == 0 {
            1int
        } else {
            0int
        }),
        accounts[5].data.len() > 0 ==> forall|i: int|
            0 <= i < deposit_decision(program_id, accounts, amount, seed, host, lookups)->Ok_0.actions.len()
                ==> !(#[trigger] deposit_decision(
                program_id,
                accounts,
                amount,
                seed,
                host,
                lookups,
            )->Ok_0.actions[i] is OpenHolding),
        deposit_decision(program_id, accounts, amount, seed, host, lookups)->Ok_0.actions.last() matches ActionView::MintTo {
            amount: minted,
            ..
        } && minted == amount,
{
}

/// A proposal whose amounts and routing tags differ in number is refused
/// with `LengthMismatch`, whatever else is supplied; so is one without
/// legs. Nothing is asked of the host.
pub proof fn lemma_unequal_lengths_are_refused(
    program_id: Seq<u8>,
    accounts: Seq<AccountView>,
    amounts: Seq<u64>,
    routing_tags: Seq<u8>,
    deadline: i64,
    seed: Seq<u8>,
    host: Host,
    lookups: LookupsView,
)
    requires
        amounts.len() != routing_tags.len() || amounts.len() == 0,
    ensures
        proposal_decision(program_id, accounts, amounts, routing_tags, deadline, seed, host, lookups) == Err::<
            PlanView,
            FundError,
        >(FundError::LengthMismatch),
        proposal_outcome(program_id, accounts, amounts, routing_tags, deadline, seed, host) == Err::<
            OutcomeView,
            FundError,
        >(FundError::LengthMismatch),
{
}

/// A proposal's account is created with the size of the proposal: the
/// record stored has as many bytes as the action that creates the account
/// asks for, and reads back as the proposal made, with no votes and not
/// executed.
pub proof fn lemma_proposal_fills_its_account(
    program_id: Seq<u8>,
    accounts: Seq<AccountView>,
    amounts: Seq<u64>,
    routing_tags: Seq<u8>,
    deadline: i64,
    seed: Seq<u8>,
    host: Host,
    lookups: LookupsView,
)
    requires
        accounts_wf(accounts),
        proposal_refusal(accounts, amounts, routing_tags, seed, lookups) is None,
    ensures
        proposal_decision(program_id, accounts, amounts, routing_tags, deadline, seed, host, lookups) is Ok,
        proposal_decision(
            program_id,
            accounts,
            amounts,
            routing_tags,
            deadline,
            seed,
            host,
            lookups,
        )->Ok_0.writes[0].1.len() == proposal_len(amounts.len()),
        proposal_decision(
            program_id,
            accounts,
            amounts,
            routing_tags,
            deadline,
            seed,
            host,
            lookups,
        )->Ok_0.actions[0] matches ActionView::CreateAccount { account, space, .. } && account
            == accounts[1].key && space == proposal_len(amounts.len()),
        proposal_parse(
            proposal_decision(
                program_id,
                accounts,
                amounts,
                routing_tags,
                deadline,
                seed,
                host,
                lookups,
            )->Ok_0.writes[0].1,
        ) == Some(new_proposal(accounts, amounts, routing_tags, deadline)),
{
    let p = new_proposal(accounts, amounts, routing_tags, deadline);
    let k = amounts.len() as int;
    assert(proposal_wf(p)) by {
        assert(accounts[2].key.len() == 32);
        assert(accounts[0].key.len() == 32);
        assert forall|i: int| 0 <= i < p.from_assets.len() implies (#[trigger] p.from_assets[i]).len() == 32 by {
            assert(accounts[5 + i].key.len() == 32);
        }
        assert forall|i: int| 0 <= i < p.to_assets.len() implies (#[trigger] p.to_assets[i]).len() == 32 by {
            assert(accounts[5 + k + i].key.len() == 32);
        }
    }
    lemma_proposal_parse_bytes(p);
}

/// A vote stores what was decided when it was cast: the vote record reads
/// back as the voter, the choice and the balance that was looked up, and
/// the proposal reads back with that balance added to the tally of the
/// choice and nothing else changed.
pub proof fn lemma_vote_is_recorded(
    program_id: Seq<u8>,
    accounts: Seq<AccountView>,
    choice: u8,
    seed: Seq<u8>,
    host: Host,
    lookups: LookupsView,
)
    requires
        accounts_wf(accounts),
        vote_refusal(accounts, choice, seed, host, lookups) is None,
    ensures
        vote_decision(program_id, accounts, choice, seed, host, lookups) is Ok,
        vote_parse(vote_decision(program_id, accounts, choice, seed, host, lookups)->Ok_0.writes[0].1) == Some(
            VoteView { voter: accounts[0].key, vote: choice == 1, voting_power: lookups.balance->0 },
        ),
        vote_decision(program_id, accounts, choice, seed, host, lookups)->Ok_0.writes[0].1.len() == 41,
        proposal_parse(vote_decision(program_id, accounts, choice, seed, host, lookups)->Ok_0.writes[1].1)
            == Some(proposal_after_vote(proposal_parse(accounts[4].data)->0, choice, lookups.balance->0)),
        proposal_after_vote(proposal_parse(accounts[4].data)->0, choice, lookups.balance->0).deadline
            == proposal_parse(accounts[4].data)->0.deadline,
{
    let p = proposal_parse(accounts[4].data)->0;
    let power = lookups.balance->0;
    lemma_proposal_parse_wf(accounts[4].data);
    lemma_proposal_parse_bytes(proposal_after_vote(p, choice, power));
    assert(accounts[0].key.len() == 32);
    lemma_vote_parse_bytes(VoteView { voter: accounts[0].key, vote: choice == 1, voting_power: power });
}

/// Nobody votes twice: once a vote has gone through and its writes are in
/// the accounts, the same voter's next vote on the same proposal is refused
/// with `AlreadyVoted` for as long as the deadline has not passed, whatever
/// the choice and whatever the voter's balance has become.
pub proof fn lemma_second_vote_is_refused(
    program_id: Seq<u8>,
    accounts: Seq<AccountView>,
    choice: u8,
    seed: Seq<u8>,
    host: Host,
    lookups: LookupsView,
    next_choice: u8,
    later: Host,
    next_balance: Option<u64>,
)
    requires
        accounts_wf(accounts),
        vote_refusal(accounts, choice, seed, host, lookups) is None,
        later.unix_timestamp <= proposal_parse(accounts[4].data)->0.deadline,
    ensures
        vote_decision(program_id, accounts, choice, seed, host, lookups) is Ok,
        vote_decision(
            program_id,
            with_data(
                with_data(
                    accounts,
                    1,
                    vote_decision(program_id, accounts, choice, seed, host, lookups)->Ok_0.writes[0].1,
                ),
                4,
                vote_decision(program_id, accounts, choice, seed, host, lookups)->Ok_0.writes[1].1,
            ),
            next_choice,
            seed,
            later,
            LookupsView { balance: next_balance, ..lookups },
        ) == Err::<PlanView, FundError>(FundError::AlreadyVoted),
{
    lemma_vote_is_recorded(program_id, accounts, choice, seed, host, lookups);
}

/// A vote that would go through before the deadline is refused with
/// `DeadlinePassed` once the deadline lies before the current time.
pub proof fn lemma_late_vote_is_refused(
    program_id: Seq<u8>,
    accounts: Seq<AccountView>,
    choice: u8,
    seed: Seq<u8>,
    host: Host,
    lookups: LookupsView,
    later: Host,
)
    requires
        vote_refusal(accounts, choice, seed, host, lookups) is None,
        later.unix_timestamp > proposal_parse(accounts[4].data)->0.deadline,
    ensures
        vote_decision(program_id, accounts, choice, seed, later, lookups) == Err::<PlanView, FundError>(
            FundError::DeadlinePassed,
        ),
{
}

/// Votes are taken only while a proposal is open, and leave it open: a
/// vote that goes through finds the proposal open at the time of the vote,
/// and the proposal it stores is open at that time too.
pub proof fn lemma_votes_need_an_open_proposal(
    accounts: Seq<AccountView>,
    choice: u8,
    seed: Seq<u8>,
    host: Host,
    lookups: LookupsView,
)
    requires
        vote_refusal(accounts, choice, seed, host, lookups) is None,
    ensures
        proposal_state(proposal_parse(accounts[4].data)->0, host.unix_timestamp) == ProposalState::Open,
        proposal_state(
            proposal_after_vote(proposal_parse(accounts[4].data)->0, choice, lookups.balance->0),
            host.unix_timestamp,
        ) == ProposalState::Open,
{
}

/// A proposal is executed once: after an execution has gone through and
/// its write is in the account, the next execution is refused with
/// `InvalidInstruction`; the proposal stored is executed and has the
/// deadline it was made with.
pub proof fn lemma_executed_once(accounts: Seq<AccountView>, target: Seq<u8>)
    requires
        execute_refusal(accounts, target) is None,
    ensures
        execute_decision(accounts, target) is Ok,
        proposal_parse(execute_decision(accounts, target)->Ok_0.writes[0].1) == Some(
            ProposalView { executed: true, ..proposal_parse(accounts[1].data)->0 },
        ),
        execute_decision(with_data(accounts, 1, execute_decision(accounts, target)->Ok_0.writes[0].1), target)
            == Err::<PlanView, FundError>(FundError::InvalidInstruction),
{
    let p = proposal_parse(accounts[1].data)->0;
    lemma_proposal_parse_wf(accounts[1].data);
    lemma_proposal_parse_bytes(ProposalView { executed: true, ..p });
}

/// A proposal is executed from being open or expired, and is executed
/// afterwards at any time.
pub proof fn lemma_execution_ends_a_proposal(accounts: Seq<AccountView>, target: Seq<u8>, now: i64)
    requires
        execute_refusal(accounts, target) is None,
    ensures
        proposal_state(proposal_parse(accounts[1].data)->0, now) != ProposalState::Executed,
        proposal_parse(execute_decision(accounts, target)->Ok_0.writes[0].1) matches Some(p) && proposal_state(
            p,
            now,
        ) == ProposalState::Executed,
{
    lemma_executed_once(accounts, target);
}

/// Nothing leaves the executed state: on a proposal that has been
/// executed, every vote is refused.
pub proof fn lemma_executed_takes_no_votes(
    program_id: Seq<u8>,
    accounts: Seq<AccountView>,
    choice: u8,
    seed: Seq<u8>,
    host: Host,
    lookups: LookupsView,
)
    requires
        proposal_parse(accounts[4].data) is Some,
        proposal_state(proposal_parse(accounts[4].data)->0, host.unix_timestamp) == ProposalState::Executed,
    ensures
        vote_decision(program_id, accounts, choice, seed, host, lookups) is Err,
{
}

/// Nothing leaves the executed state: on a proposal that has been
/// executed, every execution is refused.
pub proof fn lemma_executed_is_final(accounts: Seq<AccountView>, target: Seq<u8>, now: i64)
    requires
        proposal_parse(accounts[1].data) is Some,
        proposal_state(proposal_parse(accounts[1].data)->0, now) == ProposalState::Executed,
    ensures
        execute_decision(accounts, target) is Err,
{
}

} // verus!
