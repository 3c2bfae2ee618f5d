use investment_fund::address::Address;
use investment_fund::error::FundError;
use investment_fund::ledger::{realize, realize_action, token_program_id, Account, Action, Host, Plan, Write};
use investment_fund::processor::{
    decide_create_fund, decide_deposit, decide_execute, decide_proposal, decide_vote, lookup_create_fund, Lookups,
};
use investment_fund::state::{FundAccount, InvestmentProposalAccount, UserSpecificAccount, VoteAccount};
use solana_program::pubkey::Pubkey;

fn key(n: u8) -> Address {
    Address::new([n; 32])
}

fn program() -> Address {
    key(9)
}

fn seed() -> Vec<u8> {
    vec![3u8; 32]
}

fn host() -> Host {
    Host {
        unix_timestamp: 1_000,
        fund_cost: 1_000,
        vault_cost: 700,
        mint_cost: 300,
        member_cost: 55,
        proposal_cost: 66,
        vote_cost: 77,
    }
}

fn account(key: Address, is_signer: bool, data: Vec<u8>) -> Account {
    Account { key, is_signer, data }
}

const MINT: u8 = 1;
const VAULT: u8 = 2;
const SYSTEM: u8 = 0;
const TOKEN: u8 = 3;
const FUND: u8 = 4;
const FUNDING: u8 = 5;
const HOLDING: u8 = 6;
const RECORD: u8 = 7;
const PROPOSAL: u8 = 8;
const VOTE: u8 = 10;

fn lookups() -> Lookups {
    Lookups {
        fund: Some((key(FUND), 255)),
        vault: Some((key(VAULT), 254)),
        mint: Some((key(MINT), 253)),
        funding: Some((key(FUNDING), 252)),
        member: Some((key(RECORD), 251)),
        proposal: Some((key(PROPOSAL), 250)),
        vote: Some((key(VOTE), 249)),
        holding: Some(key(HOLDING)),
        balance: Some(150),
    }
}

fn stored_fund() -> Vec<u8> {
    FundAccount {
        name: [3u8; 32],
        creator: key(11),
        members: vec![key(11), key(12)],
        total_deposit: 40,
        governance_mint: key(MINT),
        vault: key(VAULT),
        is_initialized: true,
        created_at: 1,
        is_private: 0,
    }
    .pack()
    .unwrap()
}

fn stored_member(member: u8, deposit: u64) -> Vec<u8> {
    UserSpecificAccount {
        pubkey: key(member),
        fund: key(FUND),
        deposit,
        governance_token_balance: deposit,
        is_active: true,
        num_proposals: 0,
        join_time: 1,
        governance_token_account: key(HOLDING),
    }
    .pack()
}

fn stored_proposal(deadline: i64) -> Vec<u8> {
    InvestmentProposalAccount {
        fund: key(FUND),
        proposer: key(11),
        from_assets: vec![key(100)],
        to_assets: vec![key(101)],
        amounts: vec![5],
        dex_tags: vec![1],
        votes_yes: 10,
        votes_no: 20,
        deadline,
        executed: false,
    }
    .pack()
    .unwrap()
}

fn create_fund_accounts() -> Vec<Account> {
    vec![
        account(key(MINT), false, vec![]),
        account(key(VAULT), false, vec![]),
        account(key(SYSTEM), false, vec![]),
        account(key(TOKEN), false, vec![]),
        account(key(FUND), false, vec![]),
        account(key(FUNDING), false, vec![]),
        account(key(11), true, vec![]),
        account(key(12), true, vec![]),
        account(key(13), true, vec![]),
    ]
}

fn deposit_accounts(holding_data: Vec<u8>, record_data: Vec<u8>) -> Vec<Account> {
    vec![
        account(key(MINT), false, vec![0; 82]),
        account(key(VAULT), false, vec![0; 165]),
        account(key(FUND), false, stored_fund()),
        account(key(SYSTEM), false, vec![]),
        account(key(TOKEN), false, vec![]),
        account(key(HOLDING), false, holding_data),
        account(key(11), true, vec![]),
        account(key(RECORD), false, record_data),
    ]
}

fn vote_accounts(vote_data: Vec<u8>, deadline: i64) -> Vec<Account> {
    vec![
        account(key(12), true, vec![]),
        account(key(VOTE), false, vote_data),
        account(key(SYSTEM), false, vec![]),
        account(key(FUND), false, stored_fund()),
        account(key(PROPOSAL), false, stored_proposal(deadline)),
        account(key(RECORD), false, stored_member(12, 150)),
        account(key(MINT), false, vec![0; 82]),
        account(key(HOLDING), false, vec![1; 165]),
    ]
}

fn funded(account: u8, lamports: u64, space: u64, owner: Address) -> Action {
    Action::CreateAccount {
        payer: key(FUNDING),
        account: key(account),
        lamports,
        space,
        owner,
        system_program: key(SYSTEM),
        signer_seeds: vec![b"rent_69".to_vec(), vec![252]],
    }
}

#[test]
fn fund_creation_is_decided_on_what_was_looked_up() {
    let plan = decide_create_fund(&program(), &create_fund_accounts(), 3, &seed(), &host(), &lookups()).unwrap();
    let mut expected: Vec<Action> = [11u8, 12, 13]
        .iter()
        .map(|m| Action::Transfer { from: key(*m), to: key(FUNDING), lamports: 666, system_program: key(SYSTEM) })
        .collect();
    expected.push(funded(FUND, 1_000, 150 + 96, program()));
    expected.push(funded(VAULT, 700, 165, key(TOKEN)));
    expected.push(funded(MINT, 300, 82, key(TOKEN)));
    expected.push(Action::InitializeMint {
        token_program: key(TOKEN),
        mint: key(MINT),
        authority: key(FUND),
        decimals: 6,
    });
    assert_eq!(plan.actions, expected);
    assert_eq!(plan.writes.len(), 1);
    assert_eq!(plan.writes[0].account, key(FUND));
    assert_eq!(
        FundAccount::unpack(&plan.writes[0].data),
        Some(FundAccount {
            name: [3u8; 32],
            creator: key(11),
            members: vec![key(11), key(12), key(13)],
            total_deposit: 0,
            governance_mint: key(MINT),
            vault: key(VAULT),
            is_initialized: true,
            created_at: 1_000,
            is_private: 0,
        })
    );
}

#[test]
fn shares_round_down_and_leave_less_than_one_unit_each() {
    for (costs, members, share) in [((10u64, 0u64, 0u64), 3u8, 3u64), ((0, 0, 0), 2, 0), ((7, 7, 7), 1, 21), ((1, 1, 0), 3, 0)] {
        let mut accounts = create_fund_accounts();
        accounts.truncate(6 + members as usize);
        let mut dear = host();
        dear.fund_cost = costs.0;
        dear.vault_cost = costs.1;
        dear.mint_cost = costs.2;
        let plan = decide_create_fund(&program(), &accounts, members, &seed(), &dear, &lookups()).unwrap();
        let total = costs.0 + costs.1 + costs.2;
        for i in 0..members as usize {
            assert_eq!(
                plan.actions[i],
                Action::Transfer {
                    from: accounts[6 + i].key,
                    to: key(FUNDING),
                    lamports: share,
                    system_program: key(SYSTEM)
                }
            );
        }
        assert!(share * members as u64 <= total);
        assert!(total - share * (members as u64) < members as u64);
    }
}

#[test]
fn fund_creation_is_refused_where_a_lookup_disagrees() {
    let accounts = create_fund_accounts();
    let all = lookups();
    for broken in 0..4 {
        let mut l = all;
        match broken {
            0 => l.fund = None,
            1 => l.vault = Some((key(99), 254)),
            2 => l.mint = None,
            _ => l.funding = Some((key(99), 1)),
        }
        assert_eq!(
            decide_create_fund(&program(), &accounts, 3, &seed(), &host(), &l),
            Err(FundError::AddressMismatch)
        );
    }
    assert_eq!(
        decide_create_fund(&program(), &accounts, 3, &seed(), &host(), &Lookups::none()),
        Err(FundError::AddressMismatch)
    );
}

#[test]
fn lookups_of_a_short_account_list_find_nothing() {
    let accounts = create_fund_accounts();
    assert_eq!(lookup_create_fund(&program(), &accounts[..5], &seed()), Lookups::none());
    let found = lookup_create_fund(&program(), &accounts, &seed());
    assert!(found.fund.is_some() && found.vault.is_some() && found.mint.is_some() && found.funding.is_some());
    assert_eq!(found.member, None);
    assert_eq!(found.balance, None);
}

#[test]
fn first_deposit_opens_both_accounts_and_later_ones_none() {
    let first = decide_deposit(&program(), &deposit_accounts(vec![], vec![]), 100, &seed(), &host(), &lookups())
        .unwrap();
    assert_eq!(
        first.actions,
        vec![
            Action::OpenHolding {
                funder: key(11),
                wallet: key(11),
                holding: key(HOLDING),
                mint: key(MINT),
                token_program: key(TOKEN),
                system_program: key(SYSTEM),
            },
            Action::CreateAccount {
                payer: key(11),
                account: key(RECORD),
                lamports: 55,
                space: 122,
                owner: program(),
                system_program: key(SYSTEM),
                signer_seeds: vec![],
            },
            Action::Transfer { from: key(11), to: key(VAULT), lamports: 100, system_program: key(SYSTEM) },
            Action::MintTo {
                token_program: key(TOKEN),
                mint: key(MINT),
                holding: key(HOLDING),
                authority: key(FUND),
                amount: 100,
                signer_seeds: vec![seed(), b"fund".to_vec(), vec![255]],
            },
        ]
    );
    assert_eq!(FundAccount::unpack(&first.writes[0].data).unwrap().total_deposit, 140);
    let record = UserSpecificAccount::unpack(&first.writes[1].data).unwrap();
    assert_eq!((record.deposit, record.governance_token_balance, record.is_active), (100, 100, true));

    let mut accounts = deposit_accounts(vec![1; 165], first.writes[1].data.clone());
    accounts[2].data = first.writes[0].data.clone();
    let second = decide_deposit(&program(), &accounts, 50, &seed(), &host(), &lookups()).unwrap();
    assert_eq!(
        second.actions,
        vec![
            Action::Transfer { from: key(11), to: key(VAULT), lamports: 50, system_program: key(SYSTEM) },
            Action::MintTo {
                token_program: key(TOKEN),
                mint: key(MINT),
                holding: key(HOLDING),
                authority: key(FUND),
                amount: 50,
                signer_seeds: vec![seed(), b"fund".to_vec(), vec![255]],
            },
        ]
    );
    assert_eq!(FundAccount::unpack(&second.writes[0].data).unwrap().total_deposit, 190);
    let record = UserSpecificAccount::unpack(&second.writes[1].data).unwrap();
    assert_eq!((record.deposit, record.governance_token_balance), (150, 150));
}

#[test]
fn deposit_is_refused_where_a_lookup_disagrees() {
    let accounts = deposit_accounts(vec![], vec![]);
    let mut l = lookups();
    l.holding = Some(key(99));
    assert_eq!(decide_deposit(&program(), &accounts, 1, &seed(), &host(), &l), Err(FundError::AddressMismatch));
    let mut l = lookups();
    l.member = None;
    assert_eq!(decide_deposit(&program(), &accounts, 1, &seed(), &host(), &l), Err(FundError::AddressMismatch));
    let mut full = deposit_accounts(vec![], vec![]);
    let mut fund = FundAccount::unpack(&stored_fund()).unwrap();
    fund.total_deposit = u64::MAX;
    full[2].data = fund.pack().unwrap();
    assert_eq!(
        decide_deposit(&program(), &full, 1, &seed(), &host(), &lookups()),
        Err(FundError::InvalidInstruction)
    );
}

#[test]
fn unequal_lengths_are_refused_whatever_else_is_supplied() {
    assert_eq!(
        decide_proposal(&program(), &[], &vec![1, 2], &vec![9], 5, &vec![], &host(), &Lookups::none()),
        Err(FundError::LengthMismatch)
    );
    assert_eq!(
        decide_proposal(&program(), &[], &vec![], &vec![], 5, &seed(), &host(), &lookups()),
        Err(FundError::LengthMismatch)
    );
}

#[test]
fn proposal_is_decided_on_what_was_looked_up() {
    let accounts = vec![
        account(key(11), true, vec![]),
        account(key(PROPOSAL), false, vec![]),
        account(key(FUND), false, stored_fund()),
        account(key(RECORD), false, stored_member(11, 5)),
        account(key(SYSTEM), false, vec![]),
        account(key(100), false, vec![]),
        account(key(101), false, vec![]),
    ];
    let plan = decide_proposal(&program(), &accounts, &vec![8], &vec![2], -5, &seed(), &host(), &lookups()).unwrap();
    assert_eq!(
        plan.actions,
        vec![Action::CreateAccount {
            payer: key(11),
            account: key(PROPOSAL),
            lamports: 66,
            space: 105 + 73,
            owner: program(),
            system_program: key(SYSTEM),
            signer_seeds: vec![],
        }]
    );
    let stored = InvestmentProposalAccount::unpack(&plan.writes[0].data).unwrap();
    assert_eq!(stored.from_assets, vec![key(100)]);
    assert_eq!(stored.to_assets, vec![key(101)]);
    assert_eq!(stored.deadline, -5);
    assert_eq!(UserSpecificAccount::unpack(&plan.writes[1].data).unwrap().num_proposals, 1);
    assert_eq!(
        decide_proposal(&program(), &accounts[..6], &vec![8], &vec![2], -5, &seed(), &host(), &lookups()),
        Err(FundError::InsufficientAccounts)
    );
}

#[test]
fn vote_takes_the_balance_that_was_looked_up() {
    let accounts = vote_accounts(vec![], 1_000);
    let plan = decide_vote(&program(), &accounts, 1, &seed(), &host(), &lookups()).unwrap();
    assert_eq!(
        plan.actions,
        vec![Action::CreateAccount {
            payer: key(12),
            account: key(VOTE),
            lamports: 77,
            space: 41,
            owner: program(),
            system_program: key(SYSTEM),
            signer_seeds: vec![],
        }]
    );
    assert_eq!(
        VoteAccount::unpack(&plan.writes[0].data),
        Some(VoteAccount { voter: key(12), vote: true, voting_power: 150 })
    );
    let tallied = InvestmentProposalAccount::unpack(&plan.writes[1].data).unwrap();
    assert_eq!((tallied.votes_yes, tallied.votes_no), (160, 20));

    let mut again = vote_accounts(plan.writes[0].data.clone(), 1_000);
    again[4].data = plan.writes[1].data.clone();
    let mut richer = lookups();
    richer.balance = Some(1_000_000);
    assert_eq!(decide_vote(&program(), &again, 0, &seed(), &host(), &richer), Err(FundError::AlreadyVoted));

    let mut unread = lookups();
    unread.balance = None;
    assert_eq!(decide_vote(&program(), &accounts, 1, &seed(), &host(), &unread), Err(FundError::StateMismatch));
    let mut heavy = lookups();
    heavy.balance = Some(u64::MAX - 9);
    assert_eq!(decide_vote(&program(), &accounts, 1, &seed(), &host(), &heavy), Err(FundError::InvalidInstruction));
    assert!(decide_vote(&program(), &accounts, 0, &seed(), &host(), &heavy).is_err());
    let late = vote_accounts(vec![], 999);
    assert_eq!(decide_vote(&program(), &late, 1, &seed(), &host(), &lookups()), Err(FundError::DeadlinePassed));
}

#[test]
fn execution_plans_no_action() {
    let accounts = vec![account(key(12), true, vec![]), account(key(PROPOSAL), false, stored_proposal(5))];
    let plan = decide_execute(&accounts, &key(PROPOSAL)).unwrap();
    assert!(plan.actions.is_empty());
    assert!(InvestmentProposalAccount::unpack(&plan.writes[0].data).unwrap().executed);
}

#[test]
#[allow(deprecated)]
fn actions_become_the_calls_that_the_programs_define() {
    let transfer = Action::Transfer { from: key(1), to: key(2), lamports: 9, system_program: key(SYSTEM) };
    let call = realize_action(&transfer).unwrap();
    let outside = solana_program::system_instruction::transfer(
        &Pubkey::new_from_array([1; 32]),
        &Pubkey::new_from_array([2; 32]),
        9,
    );
    assert_eq!(call.instruction.program_id.bytes, outside.program_id.to_bytes());
    assert_eq!(call.instruction.data, outside.data);
    assert_eq!(call.instruction.data, vec![2, 0, 0, 0, 9, 0, 0, 0, 0, 0, 0, 0]);
    assert_eq!(call.instruction.accounts.len(), 2);
    assert!(call.instruction.accounts[0].is_signer && call.instruction.accounts[0].is_writable);
    assert!(!call.instruction.accounts[1].is_signer && call.instruction.accounts[1].is_writable);
    assert_eq!(call.accounts, vec![key(1), key(2), key(SYSTEM)]);
    assert!(call.signer_seeds.is_empty());

    let create = Action::CreateAccount {
        payer: key(1),
        account: key(2),
        lamports: 3,
        space: 4,
        owner: key(5),
        system_program: key(SYSTEM),
        signer_seeds: vec![vec![7], vec![8]],
    };
    let call = realize_action(&create).unwrap();
    assert_eq!(call.instruction.data.len(), 52);
    assert_eq!(&call.instruction.data[..4], &[0u8, 0, 0, 0][..]);
    assert_eq!(&call.instruction.data[4..12], &3u64.to_le_bytes()[..]);
    assert_eq!(&call.instruction.data[12..20], &4u64.to_le_bytes()[..]);
    assert_eq!(&call.instruction.data[20..], &[5u8; 32][..]);
    assert_eq!(call.signer_seeds, vec![vec![7u8], vec![8u8]]);
}

#[test]
fn token_actions_need_the_token_program() {
    let wrong = Action::InitializeMint { token_program: key(TOKEN), mint: key(1), authority: key(2), decimals: 6 };
    assert_eq!(realize_action(&wrong), None);
    let right =
        Action::InitializeMint { token_program: token_program_id(), mint: key(1), authority: key(2), decimals: 6 };
    let call = realize_action(&right).unwrap();
    assert_eq!(call.instruction.program_id, token_program_id());
    assert_eq!(call.instruction.data[0], 0);
    assert_eq!(call.instruction.data[1], 6);
    assert_eq!(call.accounts, vec![key(1), token_program_id()]);

    let mint_to = |token_program: Address| Action::MintTo {
        token_program,
        mint: key(1),
        holding: key(2),
        authority: key(3),
        amount: 77,
        signer_seeds: vec![vec![1]],
    };
    assert_eq!(realize_action(&mint_to(key(TOKEN))), None);
    let call = realize_action(&mint_to(token_program_id())).unwrap();
    assert_eq!(call.instruction.data, vec![7, 77, 0, 0, 0, 0, 0, 0, 0]);
    assert_eq!(call.signer_seeds, vec![vec![1u8]]);

    let open = Action::OpenHolding {
        funder: key(1),
        wallet: key(1),
        holding: key(HOLDING),
        mint: key(2),
        token_program: token_program_id(),
        system_program: key(SYSTEM),
    };
    assert_eq!(realize_action(&open), None);
}

#[test]
fn a_plan_is_realized_whole_or_not_at_all() {
    let transfer = Action::Transfer { from: key(1), to: key(2), lamports: 9, system_program: key(SYSTEM) };
    let wrong = Action::InitializeMint { token_program: key(TOKEN), mint: key(1), authority: key(2), decimals: 6 };
    let write = Write { account: key(4), data: vec![1, 2, 3] };
    let outcome = realize(Plan { actions: vec![transfer.clone(), transfer.clone()], writes: vec![write.clone()] })
        .unwrap();
    assert_eq!(outcome.calls.len(), 2);
    assert_eq!(outcome.calls[0], realize_action(&transfer).unwrap());
    assert_eq!(outcome.writes, vec![write.clone()]);
    assert_eq!(
        realize(Plan { actions: vec![transfer, wrong], writes: vec![write] }),
        Err(FundError::AddressMismatch)
    );
    let empty = realize(Plan { actions: vec![], writes: vec![] }).unwrap();
    assert!(empty.calls.is_empty() && empty.writes.is_empty());
}
