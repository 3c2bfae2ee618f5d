use investment_fund::address::{
    fund_address, funding_address, member_address, mint_address, proposal_address, vault_address, vote_address,
    Address,
};
use investment_fund::error::FundError;
use investment_fund::instruction::FundInstruction;
use investment_fund::ledger::{
    holding_address, token_program_id, Account, AccountMeta, Call, Host, Instruction, Outcome,
};
use investment_fund::processor::{
    process, process_execute, process_init_deposit_sol, process_init_fund_account, process_init_proposal_creation,
    process_init_voting, process_instruction,
};
use investment_fund::state::{FundAccount, InvestmentProposalAccount, UserSpecificAccount, VoteAccount};
use solana_program::program_pack::Pack;
use solana_program::pubkey::Pubkey;

fn program() -> Address {
    Address::new([9u8; 32])
}

fn key(n: u8) -> Address {
    Address::new([n; 32])
}

fn seed() -> Vec<u8> {
    vec![3u8; 32]
}

fn system() -> Address {
    Address::new([0u8; 32])
}

fn pk(a: &Address) -> Pubkey {
    Pubkey::new_from_array(a.bytes)
}

fn host() -> Host {
    Host {
        unix_timestamp: 1_000,
        fund_cost: 1_000,
        vault_cost: 700,
        mint_cost: 300,
        member_cost: 55,
        proposal_cost: 66,
        vote_cost: 77,
    }
}

fn account(key: Address, is_signer: bool, data: Vec<u8>) -> Account {
    Account { key, is_signer, data }
}

fn lower(ix: solana_program::instruction::Instruction) -> Instruction {
    Instruction {
        program_id: Address::new(ix.program_id.to_bytes()),
        accounts: ix
            .accounts
            .iter()
            .map(|m| AccountMeta {
                pubkey: Address::new(m.pubkey.to_bytes()),
                is_signer: m.is_signer,
                is_writable: m.is_writable,
            })
            .collect(),
        data: ix.data,
    }
}

fn fund_key() -> Address {
    fund_address(&seed(), &program()).unwrap().0
}

fn vault_key() -> Address {
    vault_address(&fund_key(), &program()).unwrap().0
}

fn mint_key() -> Address {
    mint_address(&fund_key(), &program()).unwrap().0
}

fn funding_key() -> Address {
    funding_address(&program()).unwrap().0
}

fn members() -> Vec<Address> {
    vec![key(11), key(12), key(13)]
}

fn create_fund_accounts() -> Vec<Account> {
    let mut accounts = vec![
        account(mint_key(), false, vec![]),
        account(vault_key(), false, vec![]),
        account(system(), false, vec![]),
        account(token_program_id(), false, vec![]),
        account(fund_key(), false, vec![]),
        account(funding_key(), false, vec![]),
    ];
    for m in members() {
        accounts.push(account(m, true, vec![]));
    }
    accounts
}

fn created_fund() -> Vec<u8> {
    let outcome = process_init_fund_account(&program(), &create_fund_accounts(), 3, &seed(), &host()).unwrap();
    outcome.writes[0].data.clone()
}

fn token_account(owner: &Address, amount: u64) -> Vec<u8> {
    let state = spl_token::state::Account {
        mint: pk(&mint_key()),
        owner: pk(owner),
        amount,
        state: spl_token::state::AccountState::Initialized,
        ..Default::default()
    };
    let mut data = vec![0u8; spl_token::state::Account::LEN];
    spl_token::state::Account::pack(state, &mut data).unwrap();
    data
}

fn deposit_accounts(member: &Address, fund_data: Vec<u8>, holding_data: Vec<u8>, record_data: Vec<u8>) -> Vec<Account> {
    vec![
        account(mint_key(), false, vec![0u8; 82]),
        account(vault_key(), false, vec![0u8; 165]),
        account(fund_key(), false, fund_data),
        account(system(), false, vec![]),
        account(token_program_id(), false, vec![]),
        account(holding_address(member, &token_program_id(), &mint_key()).unwrap(), false, holding_data),
        account(*member, true, vec![]),
        account(member_address(&fund_key(), member, &program()).unwrap().0, false, record_data),
    ]
}

fn member_record(member: &Address, deposit: u64, proposals: u8) -> Vec<u8> {
    UserSpecificAccount {
        pubkey: *member,
        fund: fund_key(),
        deposit,
        governance_token_balance: deposit,
        is_active: true,
        num_proposals: proposals,
        join_time: 1_000,
        governance_token_account: holding_address(member, &token_program_id(), &mint_key()).unwrap(),
    }
    .pack()
}

fn proposal_accounts(proposer: &Address, record_data: Vec<u8>, assets: usize) -> Vec<Account> {
    let mut accounts = vec![
        account(*proposer, true, vec![]),
        account(proposal_address(&fund_key(), proposer, &program()).unwrap().0, false, vec![]),
        account(fund_key(), false, created_fund()),
        account(member_address(&fund_key(), proposer, &program()).unwrap().0, false, record_data),
        account(system(), false, vec![]),
    ];
    for i in 0..assets {
        accounts.push(account(key(100 + i as u8), false, vec![]));
    }
    accounts
}

fn stored_proposal(proposer: &Address, deadline: i64, executed: bool) -> Vec<u8> {
    InvestmentProposalAccount {
        fund: fund_key(),
        proposer: *proposer,
        from_assets: vec![key(100)],
        to_assets: vec![key(101)],
        amounts: vec![5],
        dex_tags: vec![1],
        votes_yes: 10,
        votes_no: 20,
        deadline,
        executed,
    }
    .pack()
    .unwrap()
}

fn vote_accounts(voter: &Address, proposer: &Address, proposal_data: Vec<u8>, vote_data: Vec<u8>, balance: u64) -> Vec<Account> {
    let proposal = proposal_address(&fund_key(), proposer, &program()).unwrap().0;
    vec![
        account(*voter, true, vec![]),
        account(vote_address(&proposal, voter, &program()).unwrap().0, false, vote_data),
        account(system(), false, vec![]),
        account(fund_key(), false, created_fund()),
        account(proposal, false, proposal_data),
        account(member_address(&fund_key(), voter, &program()).unwrap().0, false, member_record(voter, 150, 0)),
        account(mint_key(), false, vec![0u8; 82]),
        account(
            holding_address(voter, &token_program_id(), &mint_key()).unwrap(),
            false,
            token_account(voter, balance),
        ),
    ]
}

#[allow(deprecated)]
fn transfer(from: &Address, to: &Address, lamports: u64) -> Instruction {
    lower(solana_program::system_instruction::transfer(&pk(from), &pk(to), lamports))
}

#[allow(deprecated)]
fn create(from: &Address, to: &Address, lamports: u64, space: u64, owner: &Address) -> Instruction {
    lower(solana_program::system_instruction::create_account(&pk(from), &pk(to), lamports, space, &pk(owner)))
}

fn unsigned(instruction: Instruction, accounts: Vec<Address>) -> Call {
    Call { instruction, accounts, signer_seeds: vec![] }
}

#[test]
fn create_fund_charges_each_member_a_third_rounded_down() {
    let accounts = create_fund_accounts();
    let outcome = process_init_fund_account(&program(), &accounts, 3, &seed(), &host()).unwrap();
    assert_eq!(outcome.calls.len(), 7);
    let share = 2_000 / 3;
    assert_eq!(share, 666);
    for (i, member) in members().iter().enumerate() {
        assert_eq!(
            outcome.calls[i],
            unsigned(transfer(member, &funding_key(), share), vec![*member, funding_key(), system()])
        );
    }
    let collected = 3 * share;
    assert!(collected <= 2_000 && 2_000 - collected <= 2);
    assert_eq!(2_000 - collected, 2);

    let signer = vec![b"rent_69".to_vec(), vec![funding_address(&program()).unwrap().1]];
    assert_eq!(
        outcome.calls[3],
        Call {
            instruction: create(&funding_key(), &fund_key(), 1_000, 150 + 96, &program()),
            accounts: vec![funding_key(), fund_key(), system()],
            signer_seeds: signer.clone(),
        }
    );
    assert_eq!(
        outcome.calls[4],
        Call {
            instruction: create(&funding_key(), &vault_key(), 700, 165, &token_program_id()),
            accounts: vec![funding_key(), vault_key(), system()],
            signer_seeds: signer.clone(),
        }
    );
    assert_eq!(
        outcome.calls[5],
        Call {
            instruction: create(&funding_key(), &mint_key(), 300, 82, &token_program_id()),
            accounts: vec![funding_key(), mint_key(), system()],
            signer_seeds: signer,
        }
    );
    let initialize =
        spl_token::instruction::initialize_mint(&spl_token::id(), &pk(&mint_key()), &pk(&fund_key()), None, 6)
            .unwrap();
    assert_eq!(outcome.calls[6], unsigned(lower(initialize), vec![mint_key(), token_program_id()]));

    assert_eq!(outcome.writes.len(), 1);
    assert_eq!(outcome.writes[0].account, fund_key());
    assert_eq!(outcome.writes[0].data.len(), 150 + 96);
    let fund = FundAccount::unpack(&outcome.writes[0].data).unwrap();
    assert_eq!(fund.total_deposit, 0);
    assert!(fund.is_initialized);
    assert_eq!(fund.members, members());
    assert_eq!(fund.creator, key(11));
    assert_eq!(fund.name, [3u8; 32]);
    assert_eq!(fund.governance_mint, mint_key());
    assert_eq!(fund.vault, vault_key());
    assert_eq!(fund.created_at, 1_000);
}

#[test]
fn create_fund_with_one_member_charges_the_whole_cost() {
    let mut accounts = create_fund_accounts();
    accounts.truncate(7);
    let outcome = process_init_fund_account(&program(), &accounts, 1, &seed(), &host()).unwrap();
    assert_eq!(outcome.calls.len(), 5);
    assert_eq!(outcome.calls[0].instruction, transfer(&key(11), &funding_key(), 2_000));
    assert_eq!(outcome.writes[0].data.len(), 150 + 32);
}

#[test]
fn create_fund_needs_every_member_to_sign() {
    let mut accounts = create_fund_accounts();
    accounts[7].is_signer = false;
    assert_eq!(
        process_init_fund_account(&program(), &accounts, 3, &seed(), &host()),
        Err(FundError::MissingSignature)
    );
    let accounts = create_fund_accounts();
    assert_eq!(
        process_init_fund_account(&program(), &accounts, 4, &seed(), &host()),
        Err(FundError::MissingSignature)
    );
    assert_eq!(
        process_init_fund_account(&program(), &accounts, 0, &seed(), &host()),
        Err(FundError::MissingSignature)
    );
}

#[test]
fn create_fund_refuses_accounts_at_other_addresses() {
    for wrong in [0usize, 1, 4, 5] {
        let mut accounts = create_fund_accounts();
        accounts[wrong].key = key(77);
        assert_eq!(
            process_init_fund_account(&program(), &accounts, 3, &seed(), &host()),
            Err(FundError::AddressMismatch)
        );
    }
    let mut accounts = create_fund_accounts();
    accounts[3].key = key(78);
    assert_eq!(
        process_init_fund_account(&program(), &accounts, 3, &seed(), &host()),
        Err(FundError::AddressMismatch)
    );
    assert_eq!(
        process_init_fund_account(&program(), &create_fund_accounts(), 3, &vec![4u8; 32], &host()),
        Err(FundError::AddressMismatch)
    );
}

#[test]
fn create_fund_refuses_short_input() {
    let accounts = create_fund_accounts();
    assert_eq!(
        process_init_fund_account(&program(), &accounts[..5], 3, &seed(), &host()),
        Err(FundError::InsufficientAccounts)
    );
    assert_eq!(
        process_init_fund_account(&program(), &accounts, 3, &vec![3u8; 31], &host()),
        Err(FundError::DecodeError)
    );
    let mut dear = host();
    dear.fund_cost = u64::MAX;
    assert_eq!(
        process_init_fund_account(&program(), &accounts, 3, &seed(), &dear),
        Err(FundError::InvalidInstruction)
    );
}

#[test]
#[allow(deprecated)]
fn two_deposits_open_the_holding_account_once_and_add_up() {
    let member = key(11);
    let holding = holding_address(&member, &token_program_id(), &mint_key()).unwrap();
    let record = member_address(&fund_key(), &member, &program()).unwrap().0;

    let accounts = deposit_accounts(&member, created_fund(), vec![], vec![]);
    let first = process_init_deposit_sol(&program(), &accounts, 100, &seed(), &host()).unwrap();
    assert_eq!(first.calls.len(), 4);
    let open = spl_associated_token_account::instruction::create_associated_token_account(
        &pk(&member),
        &pk(&member),
        &pk(&mint_key()),
        &spl_token::id(),
    );
    assert_eq!(
        first.calls[0],
        unsigned(lower(open), vec![member, holding, mint_key(), system(), token_program_id()])
    );
    assert_eq!(
        first.calls[1],
        unsigned(create(&member, &record, 55, 122, &program()), vec![member, record, system()])
    );
    assert_eq!(first.calls[2], unsigned(transfer(&member, &vault_key(), 100), vec![member, vault_key(), system()]));
    let mint_100 = spl_token::instruction::mint_to(
        &spl_token::id(),
        &pk(&mint_key()),
        &pk(&holding),
        &pk(&fund_key()),
        &[],
        100,
    )
    .unwrap();
    assert_eq!(
        first.calls[3],
        Call {
            instruction: lower(mint_100),
            accounts: vec![token_program_id(), mint_key(), holding, fund_key()],
            signer_seeds: vec![seed(), b"fund".to_vec(), vec![fund_address(&seed(), &program()).unwrap().1]],
        }
    );
    assert_eq!(first.writes[0].account, fund_key());
    assert_eq!(first.writes[1].account, record);
    assert_eq!(FundAccount::unpack(&first.writes[0].data).unwrap().total_deposit, 100);
    let after_first = UserSpecificAccount::unpack(&first.writes[1].data).unwrap();
    assert_eq!(after_first.deposit, 100);
    assert_eq!(after_first.governance_token_balance, 100);
    assert!(after_first.is_active);
    assert_eq!(after_first.governance_token_account, holding);
    assert_eq!(after_first.join_time, 1_000);

    let accounts = deposit_accounts(
        &member,
        first.writes[0].data.clone(),
        token_account(&member, 100),
        first.writes[1].data.clone(),
    );
    let second = process_init_deposit_sol(&program(), &accounts, 50, &seed(), &host()).unwrap();
    assert_eq!(second.calls.len(), 2);
    assert_eq!(second.calls[0].instruction, transfer(&member, &vault_key(), 50));
    let mint_50 = spl_token::instruction::mint_to(
        &spl_token::id(),
        &pk(&mint_key()),
        &pk(&holding),
        &pk(&fund_key()),
        &[],
        50,
    )
    .unwrap();
    assert_eq!(second.calls[1].instruction, lower(mint_50));
    let fund = FundAccount::unpack(&second.writes[0].data).unwrap();
    assert_eq!(fund.total_deposit, 150);
    assert_eq!(fund.governance_mint, mint_key());
    let after_second = UserSpecificAccount::unpack(&second.writes[1].data).unwrap();
    assert_eq!(after_second.deposit, 150);
    assert_eq!(after_second.governance_token_balance, 150);
}

#[test]
fn deposit_refuses_what_does_not_match() {
    let member = key(11);
    let good = deposit_accounts(&member, created_fund(), vec![], vec![]);

    let mut accounts = good.clone();
    accounts[6].is_signer = false;
    assert_eq!(
        process_init_deposit_sol(&program(), &accounts, 1, &seed(), &host()),
        Err(FundError::MissingSignature)
    );
    assert_eq!(
        process_init_deposit_sol(&program(), &good[..7], 1, &seed(), &host()),
        Err(FundError::InsufficientAccounts)
    );
    let mut accounts = good.clone();
    accounts[2].data = vec![1, 2, 3];
    assert_eq!(
        process_init_deposit_sol(&program(), &accounts, 1, &seed(), &host()),
        Err(FundError::StateMismatch)
    );
    let mut accounts = good.clone();
    accounts[2].data = vec![0u8; 150];
    assert_eq!(
        process_init_deposit_sol(&program(), &accounts, 1, &seed(), &host()),
        Err(FundError::StateMismatch)
    );
    for wrong in [1usize, 2, 5, 7] {
        let mut accounts = good.clone();
        accounts[wrong].key = key(88);
        assert_eq!(
            process_init_deposit_sol(&program(), &accounts, 1, &seed(), &host()),
            Err(FundError::AddressMismatch)
        );
    }
    let mut other_fund = FundAccount::unpack(&created_fund()).unwrap();
    other_fund.governance_mint = key(66);
    let accounts = deposit_accounts(&member, other_fund.pack().unwrap(), vec![], vec![]);
    assert_eq!(
        process_init_deposit_sol(&program(), &accounts, 1, &seed(), &host()),
        Err(FundError::StateMismatch)
    );
    let mut other_fund = FundAccount::unpack(&created_fund()).unwrap();
    other_fund.vault = key(66);
    let accounts = deposit_accounts(&member, other_fund.pack().unwrap(), vec![], vec![]);
    assert_eq!(
        process_init_deposit_sol(&program(), &accounts, 1, &seed(), &host()),
        Err(FundError::StateMismatch)
    );
    let accounts = deposit_accounts(&member, created_fund(), vec![], member_record(&key(12), 5, 0));
    assert_eq!(
        process_init_deposit_sol(&program(), &accounts, 1, &seed(), &host()),
        Err(FundError::StateMismatch)
    );
    let accounts = deposit_accounts(&member, created_fund(), vec![], vec![7u8; 10]);
    assert_eq!(
        process_init_deposit_sol(&program(), &accounts, 1, &seed(), &host()),
        Err(FundError::StateMismatch)
    );
    let accounts = deposit_accounts(&member, created_fund(), vec![], member_record(&member, u64::MAX, 0));
    assert_eq!(
        process_init_deposit_sol(&program(), &accounts, 1, &seed(), &host()),
        Err(FundError::InvalidInstruction)
    );
}

#[test]
fn proposal_with_unequal_lengths_is_refused_before_anything_is_created() {
    let proposer = key(11);
    let accounts = proposal_accounts(&proposer, member_record(&proposer, 100, 0), 4);
    assert_eq!(
        process_init_proposal_creation(&program(), &accounts, &vec![1, 2], &vec![9], 5_000, &seed(), &host()),
        Err(FundError::LengthMismatch)
    );
    assert_eq!(
        process_init_proposal_creation(&program(), &[], &vec![1, 2], &vec![9], 5_000, &vec![], &host()),
        Err(FundError::LengthMismatch)
    );
    assert_eq!(
        process_init_proposal_creation(&program(), &accounts, &vec![], &vec![], 5_000, &seed(), &host()),
        Err(FundError::LengthMismatch)
    );
    assert_eq!(
        process_init_proposal_creation(&program(), &accounts, &vec![0; 256], &vec![0; 256], 5_000, &seed(), &host()),
        Err(FundError::LengthMismatch)
    );
}

#[test]
fn proposal_takes_its_assets_from_the_accounts_in_order() {
    let proposer = key(11);
    let accounts = proposal_accounts(&proposer, member_record(&proposer, 100, 4), 5);
    let proposal = accounts[1].key;
    let record = accounts[3].key;
    let outcome =
        process_init_proposal_creation(&program(), &accounts, &vec![10, 20], &vec![7, 8], 5_000, &seed(), &host())
            .unwrap();
    assert_eq!(
        outcome.calls,
        vec![unsigned(create(&proposer, &proposal, 66, 105 + 146, &program()), vec![proposer, proposal, system()])]
    );
    assert_eq!(outcome.writes[0].account, proposal);
    assert_eq!(outcome.writes[0].data.len(), 105 + 146);
    assert_eq!(
        InvestmentProposalAccount::unpack(&outcome.writes[0].data),
        Some(InvestmentProposalAccount {
            fund: fund_key(),
            proposer,
            from_assets: vec![key(100), key(101)],
            to_assets: vec![key(102), key(103)],
            amounts: vec![10, 20],
            dex_tags: vec![7, 8],
            votes_yes: 0,
            votes_no: 0,
            deadline: 5_000,
            executed: false,
        })
    );
    assert_eq!(outcome.writes[1].account, record);
    assert_eq!(UserSpecificAccount::unpack(&outcome.writes[1].data).unwrap().num_proposals, 5);
}

#[test]
fn proposal_refuses_what_does_not_match() {
    let proposer = key(11);
    let good = proposal_accounts(&proposer, member_record(&proposer, 100, 0), 4);
    let run = |accounts: &[Account]| {
        process_init_proposal_creation(&program(), accounts, &vec![10, 20], &vec![7, 8], 5_000, &seed(), &host())
    };
    assert_eq!(run(&good[..8]), Err(FundError::InsufficientAccounts));
    assert_eq!(run(&good[..4]), Err(FundError::InsufficientAccounts));
    let mut accounts = good.clone();
    accounts[0].is_signer = false;
    assert_eq!(run(&accounts), Err(FundError::MissingSignature));
    for wrong in [1usize, 2, 3] {
        let mut accounts = good.clone();
        accounts[wrong].key = key(88);
        assert_eq!(run(&accounts), Err(FundError::AddressMismatch));
    }
    let mut accounts = good.clone();
    accounts[3].data = vec![];
    assert_eq!(run(&accounts), Err(FundError::StateMismatch));
    let mut accounts = good.clone();
    accounts[3].data = member_record(&proposer, 100, 255);
    assert_eq!(run(&accounts), Err(FundError::InvalidInstruction));
    assert_eq!(
        process_init_proposal_creation(&program(), &good, &vec![10], &vec![7], 5_000, &vec![1u8; 5], &host()),
        Err(FundError::DecodeError)
    );
}

#[test]
fn vote_snapshots_the_balance_and_cannot_be_cast_twice() {
    let voter = key(12);
    let proposer = key(11);
    let accounts = vote_accounts(&voter, &proposer, stored_proposal(&proposer, 2_000, false), vec![], 150);
    let vote_key = accounts[1].key;
    let proposal = accounts[4].key;
    let first = process_init_voting(&program(), &accounts, 1, &seed(), &host()).unwrap();
    assert_eq!(
        first.calls,
        vec![unsigned(create(&voter, &vote_key, 77, 41, &program()), vec![voter, vote_key, system()])]
    );
    assert_eq!(first.writes[0].account, vote_key);
    assert_eq!(
        VoteAccount::unpack(&first.writes[0].data),
        Some(VoteAccount { voter, vote: true, voting_power: 150 })
    );
    assert_eq!(first.writes[1].account, proposal);
    let tallied = InvestmentProposalAccount::unpack(&first.writes[1].data).unwrap();
    assert_eq!((tallied.votes_yes, tallied.votes_no), (160, 20));
    assert_eq!(tallied.deadline, 2_000);

    let again = vote_accounts(&voter, &proposer, first.writes[1].data.clone(), first.writes[0].data.clone(), 900);
    assert_eq!(process_init_voting(&program(), &again, 0, &seed(), &host()), Err(FundError::AlreadyVoted));
    assert_eq!(process_init_voting(&program(), &again, 1, &seed(), &host()), Err(FundError::AlreadyVoted));
}

#[test]
fn vote_against_adds_to_the_other_tally() {
    let voter = key(12);
    let proposer = key(11);
    let accounts = vote_accounts(&voter, &proposer, stored_proposal(&proposer, 1_000, false), vec![], 5);
    for choice in [0u8, 2, 255] {
        let outcome = process_init_voting(&program(), &accounts, choice, &seed(), &host()).unwrap();
        assert_eq!(
            VoteAccount::unpack(&outcome.writes[0].data),
            Some(VoteAccount { voter, vote: false, voting_power: 5 })
        );
        let tallied = InvestmentProposalAccount::unpack(&outcome.writes[1].data).unwrap();
        assert_eq!((tallied.votes_yes, tallied.votes_no), (10, 25));
    }
}

#[test]
fn vote_after_the_deadline_is_refused() {
    let voter = key(12);
    let proposer = key(11);
    let accounts = vote_accounts(&voter, &proposer, stored_proposal(&proposer, 999, false), vec![], 150);
    assert_eq!(process_init_voting(&program(), &accounts, 1, &seed(), &host()), Err(FundError::DeadlinePassed));
    let accounts = vote_accounts(&voter, &proposer, stored_proposal(&proposer, 1_000, false), vec![], 150);
    assert!(process_init_voting(&program(), &accounts, 1, &seed(), &host()).is_ok());
}

#[test]
fn vote_refuses_what_does_not_match() {
    let voter = key(12);
    let proposer = key(11);
    let good = vote_accounts(&voter, &proposer, stored_proposal(&proposer, 2_000, false), vec![], 150);
    let run = |accounts: &[Account]| process_init_voting(&program(), accounts, 1, &seed(), &host());
    assert_eq!(run(&good[..7]), Err(FundError::InsufficientAccounts));
    let mut accounts = good.clone();
    accounts[0].is_signer = false;
    assert_eq!(run(&accounts), Err(FundError::MissingSignature));
    for unreadable in [3usize, 4, 5] {
        let mut accounts = good.clone();
        accounts[unreadable].data = vec![1u8; 7];
        assert_eq!(run(&accounts), Err(FundError::StateMismatch));
    }
    for wrong in [1usize, 3, 4, 5, 7] {
        let mut accounts = good.clone();
        accounts[wrong].key = key(88);
        assert_eq!(run(&accounts), Err(FundError::AddressMismatch));
    }
    let mut accounts = good.clone();
    accounts[7].data = vec![0u8; 165];
    assert_eq!(run(&accounts), Err(FundError::StateMismatch));
    let mut accounts = good.clone();
    accounts[7].data = vec![0u8; 10];
    assert_eq!(run(&accounts), Err(FundError::StateMismatch));
    let accounts = vote_accounts(&voter, &proposer, stored_proposal(&proposer, 2_000, true), vec![], 150);
    assert_eq!(run(&accounts), Err(FundError::InvalidInstruction));
    let accounts = vote_accounts(&voter, &proposer, stored_proposal(&proposer, 2_000, false), vec![], u64::MAX);
    assert_eq!(run(&accounts), Err(FundError::InvalidInstruction));
    assert_eq!(
        process_init_voting(&program(), &good, 1, &vec![3u8; 33], &host()),
        Err(FundError::DecodeError)
    );
}

#[test]
fn execution_sets_the_flag_once() {
    let proposer = key(11);
    let proposal = proposal_address(&fund_key(), &proposer, &program()).unwrap().0;
    let accounts =
        vec![account(key(12), true, vec![]), account(proposal, false, stored_proposal(&proposer, 10, false))];
    let outcome = process_execute(&accounts, &proposal).unwrap();
    assert!(outcome.calls.is_empty());
    assert_eq!(outcome.writes.len(), 1);
    assert_eq!(outcome.writes[0].account, proposal);
    let stored = InvestmentProposalAccount::unpack(&outcome.writes[0].data).unwrap();
    assert!(stored.executed);
    assert_eq!(stored.deadline, 10);
    assert_eq!((stored.votes_yes, stored.votes_no), (10, 20));

    let accounts = vec![account(key(12), true, vec![]), account(proposal, false, outcome.writes[0].data.clone())];
    assert_eq!(process_execute(&accounts, &proposal), Err(FundError::InvalidInstruction));
}

#[test]
fn execution_refuses_what_does_not_match() {
    let proposer = key(11);
    let proposal = proposal_address(&fund_key(), &proposer, &program()).unwrap().0;
    let good = vec![account(key(12), true, vec![]), account(proposal, false, stored_proposal(&proposer, 10, false))];
    assert_eq!(process_execute(&good[..1], &proposal), Err(FundError::InsufficientAccounts));
    let mut accounts = good.clone();
    accounts[0].is_signer = false;
    assert_eq!(process_execute(&accounts, &proposal), Err(FundError::MissingSignature));
    assert_eq!(process_execute(&good, &key(1)), Err(FundError::AddressMismatch));
    let mut accounts = good.clone();
    accounts[1].data = vec![];
    assert_eq!(process_execute(&accounts, &proposal), Err(FundError::StateMismatch));
}

#[test]
fn commands_are_decoded_and_dispatched() {
    let accounts = create_fund_accounts();
    let mut data = vec![0u8, 3];
    data.extend_from_slice(&seed());
    let decoded: Result<Outcome, FundError> = process_instruction(&program(), &accounts, &data, &host());
    assert_eq!(decoded, process_init_fund_account(&program(), &accounts, 3, &seed(), &host()));
    assert!(decoded.is_ok());
    assert_eq!(
        process(
            &program(),
            &accounts,
            &FundInstruction::InitFundAccount { number_of_members: 3, user_seed: seed() },
            &host()
        ),
        decoded
    );
    assert_eq!(process_instruction(&program(), &accounts, &[], &host()), Err(FundError::DecodeError));
    assert_eq!(process_instruction(&program(), &accounts, &[9u8; 40], &host()), Err(FundError::DecodeError));
    assert_eq!(process_instruction(&program(), &accounts, &data[..33], &host()), Err(FundError::DecodeError));

    let mut data = vec![2u8, 0];
    data.extend_from_slice(&7i64.to_le_bytes());
    data.extend_from_slice(&seed());
    assert_eq!(process_instruction(&program(), &accounts, &data, &host()), Err(FundError::LengthMismatch));

    let proposer = key(11);
    let proposal = proposal_address(&fund_key(), &proposer, &program()).unwrap().0;
    let accounts =
        vec![account(key(12), true, vec![]), account(proposal, false, stored_proposal(&proposer, 10, false))];
    let mut data = vec![4u8];
    data.extend_from_slice(&proposal.bytes);
    assert_eq!(process_instruction(&program(), &accounts, &data, &host()), process_execute(&accounts, &proposal));
    let member = key(11);
    let accounts = deposit_accounts(&member, created_fund(), vec![], vec![]);
    let mut data = vec![1u8];
    data.extend_from_slice(&100u64.to_le_bytes());
    data.extend_from_slice(&seed());
    assert_eq!(
        process_instruction(&program(), &accounts, &data, &host()),
        process_init_deposit_sol(&program(), &accounts, 100, &seed(), &host())
    );
    let voter = key(12);
    let accounts = vote_accounts(&voter, &proposer, stored_proposal(&proposer, 2_000, false), vec![], 150);
    let mut data = vec![3u8, 1];
    data.extend_from_slice(&seed());
    assert_eq!(
        process_instruction(&program(), &accounts, &data, &host()),
        process_init_voting(&program(), &accounts, 1, &seed(), &host())
    );
}
