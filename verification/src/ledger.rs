//! What the fund sees of the ledger and asks of it.
//!
//! A command arrives with a list of accounts. The fund reads them as plain
//! values and decides on a plan: an ordered list of actions for other
//! programs and of records to store. Each action is then turned into a
//! call by the library of the program it is for; what such a library
//! builds is given a name here, and calls are compared by those names. The
//! host carries the calls out, stores the records, and discards everything
//! if a step fails.

use vstd::prelude::*;
use solana_program::program_error::ProgramError;
use solana_program::pubkey::Pubkey;
use crate::address::Address;
use crate::address::addresses_view;
use crate::address::program_address;
use crate::address::seeds_view;
use crate::error::FundError;

verus! {

/// An account as the host hands it to a command.
#[derive(Clone, Debug, PartialEq, Eq)]
pub struct Account {
    /// Where the account lives.
    pub key: Address,
    /// Whether the holder of the account's key signed this command.
    pub is_signer: bool,
    /// The bytes stored in the account; empty while it does not exist.
    pub data: Vec<u8>,
}

/// One account of an instruction: its address and how the callee may use it.
#[derive(Clone, Debug, PartialEq, Eq)]
pub struct AccountMeta {
    pub pubkey: Address,
    pub is_signer: bool,
    pub is_writable: bool,
}

/// An instruction for another program.
#[derive(Clone, Debug, PartialEq, Eq)]
pub struct Instruction {
    pub program_id: Address,
    pub accounts: Vec<AccountMeta>,
    pub data: Vec<u8>,
}

impl View for Instruction {
    type V = (Seq<u8>, Seq<(Seq<u8>, bool, bool)>, Seq<u8>);

    open spec fn view(&self) -> (Seq<u8>, Seq<(Seq<u8>, bool, bool)>, Seq<u8>) {
        (
            self.program_id@,
            Seq::new(
                self.accounts@.len(),
                |i: int| (self.accounts@[i].pubkey@, self.accounts@[i].is_signer, self.accounts@[i].is_writable),
            ),
            self.data@,
        )
    }
}

/// A call to another program: the instruction, the accounts handed along
/// with it, and the seeds of the derived account that signs it, if one does.
#[derive(Clone, Debug, PartialEq, Eq)]
pub struct Call {
    pub instruction: Instruction,
    /// Addresses of the accounts the callee receives, in order.
    pub accounts: Vec<Address>,
    /// Seeds and bump of the derived signer; empty when only the signers of
    /// the command itself sign.
    pub signer_seeds: Vec<Vec<u8>>,
}

/// A record to store in an account once the calls have gone through.
#[derive(Clone, Debug, PartialEq, Eq)]
pub struct Write {
    pub account: Address,
    pub data: Vec<u8>,
}

/// What a command that passed every check asks of the host: the calls, in
/// order, then the writes, in order.
#[derive(Clone, Debug, PartialEq, Eq)]
pub struct Outcome {
    pub calls: Vec<Call>,
    pub writes: Vec<Write>,
}

/// What a command asks of another program, before the instruction for it
/// is built.
#[derive(Clone, Debug, PartialEq, Eq)]
pub enum Action {
    /// Move `lamports` from `from` to `to`.
    Transfer { from: Address, to: Address, lamports: u64, system_program: Address },
    /// Create `account` with `space` bytes, owned by `owner` and paid for by
    /// `payer`; `signer_seeds` are those of the payer where it is a derived
    /// account, and empty otherwise.
    CreateAccount {
        payer: Address,
        account: Address,
        lamports: u64,
        space: u64,
        owner: Address,
        system_program: Address,
        signer_seeds: Vec<Vec<u8>>,
    },
    /// Initialize `mint` with `authority` as the only one who can mint.
    InitializeMint { token_program: Address, mint: Address, authority: Address, decimals: u8 },
    /// Create `holding`, the account in which `wallet` holds tokens of
    /// `mint`, paid for by `funder`.
    OpenHolding {
        funder: Address,
        wallet: Address,
        holding: Address,
        mint: Address,
        token_program: Address,
        system_program: Address,
    },
    /// Mint `amount` tokens of `mint` into `holding`, signed by the derived
    /// account `authority` with `signer_seeds`.
    MintTo {
        token_program: Address,
        mint: Address,
        holding: Address,
        authority: Address,
        amount: u64,
        signer_seeds: Vec<Vec<u8>>,
    },
}

/// What a command that passed every check has decided: the actions, in
/// order, then the writes, in order.
#[derive(Clone, Debug, PartialEq, Eq)]
pub struct Plan {
    pub actions: Vec<Action>,
    pub writes: Vec<Write>,
}

/// What the host reads for a command before the fund decides: the time,
/// and the cost of keeping an account of each size the command may create.
#[derive(Clone, Copy, Debug, PartialEq, Eq)]
pub struct Host {
    /// Current time, in seconds.
    pub unix_timestamp: i64,
    /// Storage cost of the fund record of the command's member count.
    pub fund_cost: u64,
    /// Storage cost of a vault.
    pub vault_cost: u64,
    /// Storage cost of a mint.
    pub mint_cost: u64,
    /// Storage cost of a member record.
    pub member_cost: u64,
    /// Storage cost of a proposal of the command's leg count.
    pub proposal_cost: u64,
    /// Storage cost of a vote record.
    pub vote_cost: u64,
}

/// An account as plain values.
pub struct AccountView {
    pub key: Seq<u8>,
    pub is_signer: bool,
    pub data: Seq<u8>,
}

impl View for Account {
    type V = AccountView;

    open spec fn view(&self) -> AccountView {
        AccountView { key: self.key@, is_signer: self.is_signer, data: self.data@ }
    }
}

/// The accounts of a command as plain values, in order.
pub open spec fn accounts_view(accounts: &[Account]) -> Seq<AccountView> {
    Seq::new(accounts@.len(), |i: int| accounts@[i]@)
}

/// A list of calls as plain values, in order.
pub open spec fn calls_view(calls: &Vec<Call>) -> Seq<CallView> {
    Seq::new(calls@.len(), |i: int| calls@[i]@)
}

/// A list of writes as plain values, in order: address, then bytes.
pub open spec fn writes_view(writes: &Vec<Write>) -> Seq<(Seq<u8>, Seq<u8>)> {
    Seq::new(writes@.len(), |i: int| (writes@[i].account@, writes@[i].data@))
}

/// A call as plain values: instruction, accounts, signer seeds.
pub struct CallView {
    pub instruction: (Seq<u8>, Seq<(Seq<u8>, bool, bool)>, Seq<u8>),
    pub accounts: Seq<Seq<u8>>,
    pub signer_seeds: Seq<Seq<u8>>,
}

/// An outcome as plain values.
pub struct OutcomeView {
    pub calls: Seq<CallView>,
    pub writes: Seq<(Seq<u8>, Seq<u8>)>,
}

impl View for Call {
    type V = CallView;

    open spec fn view(&self) -> CallView {
        CallView {
            instruction: self.instruction@,
            accounts: addresses_view(&self.accounts),
            signer_seeds: seeds_view(&self.signer_seeds),
        }
    }
}

impl View for Outcome {
    type V = OutcomeView;

    open spec fn view(&self) -> OutcomeView {
        OutcomeView { calls: calls_view(&self.calls), writes: writes_view(&self.writes) }
    }
}

/// An action as plain values.
pub enum ActionView {
    Transfer { from: Seq<u8>, to: Seq<u8>, lamports: u64, system_program: Seq<u8> },
    CreateAccount {
        payer: Seq<u8>,
        account: Seq<u8>,
        lamports: u64,
        space: u64,
        owner: Seq<u8>,
        system_program: Seq<u8>,
        signer_seeds: Seq<Seq<u8>>,
    },
    InitializeMint { token_program: Seq<u8>, mint: Seq<u8>, authority: Seq<u8>, decimals: u8 },
    OpenHolding {
        funder: Seq<u8>,
        wallet: Seq<u8>,
        holding: Seq<u8>,
        mint: Seq<u8>,
        token_program: Seq<u8>,
        system_program: Seq<u8>,
    },
    MintTo {
        token_program: Seq<u8>,
        mint: Seq<u8>,
        holding: Seq<u8>,
        authority: Seq<u8>,
        amount: u64,
        signer_seeds: Seq<Seq<u8>>,
    },
}

impl View for Action {
    type V = ActionView;

    open spec fn view(&self) -> ActionView {
        match self {
            Action::Transfer { from, to, lamports, system_program } => ActionView::Transfer {
                from: from@,
                to: to@,
                lamports: *lamports,
                system_program: system_program@,
            },
            Action::CreateAccount {
                payer,
                account,
                lamports,
                space,
                owner,
                system_program,
                signer_seeds,
            } => ActionView::CreateAccount {
                payer: payer@,
                account: account@,
                lamports: *lamports,
                space: *space,
                owner: owner@,
                system_program: system_program@,
                signer_seeds: seeds_view(signer_seeds),
            },
            Action::InitializeMint { token_program, mint, authority, decimals } => ActionView::InitializeMint {
                token_program: token_program@,
                mint: mint@,
                authority: authority@,
                decimals: *decimals,
            },
            Action::OpenHolding {
                funder,
                wallet,
                holding,
                mint,
                token_program,
                system_program,
            } => ActionView::OpenHolding {
                funder: funder@,
                wallet: wallet@,
                holding: holding@,
                mint: mint@,
                token_program: token_program@,
                system_program: system_program@,
            },
            Action::MintTo {
                token_program,
                mint,
                holding,
                authority,
                amount,
                signer_seeds,
            } => ActionView::MintTo {
                token_program: token_program@,
                mint: mint@,
                holding: holding@,
                authority: authority@,
                amount: *amount,
                signer_seeds: seeds_view(signer_seeds),
            },
        }
    }
}

/// A list of actions as plain values, in order.
pub open spec fn actions_view(actions: &Vec<Action>) -> Seq<ActionView> {
    Seq::new(actions@.len(), |i: int| actions@[i]@)
}

/// A plan as plain values.
pub struct PlanView {
    pub actions: Seq<ActionView>,
    pub writes: Seq<(Seq<u8>, Seq<u8>)>,
}

impl View for Plan {
    type V = PlanView;

    open spec fn view(&self) -> PlanView {
        PlanView { actions: actions_view(&self.actions), writes: writes_view(&self.writes) }
    }
}

/// Bytes of the token program's address.
pub open spec fn token_program_bytes() -> Seq<u8> {
    seq![
        6u8, 221, 246, 225, 215, 101, 161, 147, 217, 203, 225, 70, 206, 235, 121, 172, 28, 180, 133,
        237, 95, 91, 55, 145, 58, 140, 245, 133, 126, 255, 0, 169,
    ]
}

/// Bytes of the address of the program that keeps token holding accounts.
pub open spec fn holding_program_bytes() -> Seq<u8> {
    seq![
        140u8, 151, 37, 143, 78, 36, 137, 241, 187, 61, 16, 41, 20, 142, 13, 131, 11, 90, 19, 153,
        218, 255, 16, 132, 4, 142, 123, 216, 219, 233, 248, 89,
    ]
}

/// Address of the token program.
pub fn token_program_id() -> (a: Address)
    ensures
        a@ == token_program_bytes(),
{
    let a = Address::new(
        [
            6u8, 221, 246, 225, 215, 101, 161, 147, 217, 203, 225, 70, 206, 235, 121, 172, 28, 180,
            133, 237, 95, 91, 55, 145, 58, 140, 245, 133, 126, 255, 0, 169,
        ],
    );
    assert(a@ =~= token_program_bytes());
    a
}

/// Address of the program that keeps token holding accounts.
pub fn holding_program_id() -> (a: Address)
    ensures
        a@ == holding_program_bytes(),
{
    let a = Address::new(
        [
            140u8, 151, 37, 143, 78, 36, 137, 241, 187, 61, 16, 41, 20, 142, 13, 131, 11, 90, 19,
            153, 218, 255, 16, 132, 4, 142, 123, 216, 219, 233, 248, 89,
        ],
    );
    assert(a@ =~= holding_program_bytes());
    a
}

/// Seeds of the account in which `wallet` holds tokens of `mint` under the
/// token program at `token_program`.
pub open spec fn holding_seeds(wallet: Seq<u8>, token_program: Seq<u8>, mint: Seq<u8>) -> Seq<Seq<u8>> {
    seq![wallet, token_program, mint]
}

/// The address of the account in which `wallet` holds tokens of `mint`,
/// or `None` where the derivation finds none.
pub open spec fn holding_address_of(wallet: Seq<u8>, token_program: Seq<u8>, mint: Seq<u8>) -> Option<Seq<u8>> {
    match program_address(holding_seeds(wallet, token_program, mint), holding_program_bytes()) {
        Some(found) => Some(found.0),
        None => None,
    }
}

/// Address of the account in which `wallet` holds tokens of `mint` under
/// the token program at `token_program`: derived from the three addresses
/// under the program that keeps holding accounts.
pub fn holding_address(wallet: &Address, token_program: &Address, mint: &Address) -> (r: Option<Address>)
    ensures
        r matches Some(a) ==> holding_address_of(wallet@, token_program@, mint@) == Some(a@),
        r is None ==> holding_address_of(wallet@, token_program@, mint@) is None,
{
    let seeds = vec![wallet.to_vec(), token_program.to_vec(), mint.to_vec()];
    assert(seeds_view(&seeds) =~= holding_seeds(wallet@, token_program@, mint@));
    match crate::address::derive(&seeds, &holding_program_id()) {
        Some(found) => Some(found.0),
        None => None,
    }
}

/// `ProgramError`, the error of the ledger's libraries. A value of it is
/// carried from the call that failed to the place where it is turned into
/// an error of the fund; nothing is read from it.
#[verifier::external_type_specification]
#[verifier::external_body]
pub struct ExProgramError(solana_program::program_error::ProgramError);

/// The instruction that moves `lamports` from `from` to `to`.
pub uninterp spec fn system_transfer(from: Seq<u8>, to: Seq<u8>, lamports: u64) -> (Seq<u8>, Seq<(Seq<u8>, bool, bool)>, Seq<u8>);

/// The instruction that creates the account `to`, paid for by `from`.
pub uninterp spec fn system_create_account(from: Seq<u8>, to: Seq<u8>, lamports: u64, space: u64, owner: Seq<u8>) -> (Seq<u8>, Seq<(Seq<u8>, bool, bool)>, Seq<u8>);

/// The instruction that initializes a mint, or `None` where the token
/// program's library refuses to build it.
pub uninterp spec fn token_initialize_mint(token_program: Seq<u8>, mint: Seq<u8>, authority: Seq<u8>, freeze: Option<Seq<u8>>, decimals: u8) -> Option<(Seq<u8>, Seq<(Seq<u8>, bool, bool)>, Seq<u8>)>;

/// The instruction that mints `amount` tokens into `account`, or `None`
/// where the token program's library refuses to build it.
pub uninterp spec fn token_mint_to(token_program: Seq<u8>, mint: Seq<u8>, account: Seq<u8>, authority: Seq<u8>, signers: Seq<Seq<u8>>, amount: u64) -> Option<(Seq<u8>, Seq<(Seq<u8>, bool, bool)>, Seq<u8>)>;

/// The instruction that creates the account in which `wallet` holds tokens
/// of `mint`, paid for by `funder`.
pub uninterp spec fn holding_create(funder: Seq<u8>, wallet: Seq<u8>, mint: Seq<u8>, token_program: Seq<u8>) -> (Seq<u8>, Seq<(Seq<u8>, bool, bool)>, Seq<u8>);

/// The balance stored in the bytes of a token holding account, or `None`
/// where the bytes are not those of an initialized holding account.
pub uninterp spec fn token_balance(data: Seq<u8>) -> Option<u64>;

/// Calls `system_instruction::transfer` and copies the instruction out field
/// by field. The contract claims only that the instruction is the one named
/// by `system_transfer` for these arguments.
#[verifier::external_body]
fn build_transfer(from: &Address, to: &Address, lamports: u64) -> (ix: Instruction)
    ensures
        ix@ == system_transfer(from@, to@, lamports),
{
    let ix = solana_program::system_instruction::transfer(
        &Pubkey::new_from_array(from.bytes),
        &Pubkey::new_from_array(to.bytes),
        lamports,
    );
    Instruction {
        program_id: Address { bytes: ix.program_id.to_bytes() },
        accounts: ix.accounts.iter().map(|m| AccountMeta { pubkey: Address { bytes: m.pubkey.to_bytes() }, is_signer: m.is_signer, is_writable: m.is_writable }).collect(),
        data: ix.data,
    }
}

/// Calls `system_instruction::create_account` and copies the instruction
/// out field by field. The contract claims only that the instruction is the
/// one named by `system_create_account` for these arguments.
#[verifier::external_body]
fn build_create_account(from: &Address, to: &Address, lamports: u64, space: u64, owner: &Address) -> (ix: Instruction)
    ensures
        ix@ == system_create_account(from@, to@, lamports, space, owner@),
{
    let ix = solana_program::system_instruction::create_account(
        &Pubkey::new_from_array(from.bytes),
        &Pubkey::new_from_array(to.bytes),
        lamports,
        space,
        &Pubkey::new_from_array(owner.bytes),
    );
    Instruction {
        program_id: Address { bytes: ix.program_id.to_bytes() },
        accounts: ix.accounts.iter().map(|m| AccountMeta { pubkey: Address { bytes: m.pubkey.to_bytes() }, is_signer: m.is_signer, is_writable: m.is_writable }).collect(),
        data: ix.data,
    }
}

/// Calls `spl_token::instruction::initialize_mint` and copies the
/// instruction out field by field. The contract claims only that the
/// outcome is the one named by `token_initialize_mint` for these arguments:
/// the instruction where one is built, none where the call fails.
#[verifier::external_body]
fn build_initialize_mint(token_program: &Address, mint: &Address, authority: &Address, freeze: Option<Address>, decimals: u8) -> (r: Result<Instruction, ProgramError>)
    ensures
        r matches Ok(ix) ==> token_initialize_mint(token_program@, mint@, authority@, option_view(freeze), decimals) == Some(ix@),
        r is Err ==> token_initialize_mint(token_program@, mint@, authority@, option_view(freeze), decimals) is None,
{
    let freeze = freeze.map(|a| Pubkey::new_from_array(a.bytes));
    let ix = spl_token::instruction::initialize_mint(
        &Pubkey::new_from_array(token_program.bytes),
        &Pubkey::new_from_array(mint.bytes),
        &Pubkey::new_from_array(authority.bytes),
        freeze.as_ref(),
        decimals,
    )?;
    Ok(Instruction {
        program_id: Address { bytes: ix.program_id.to_bytes() },
        accounts: ix.accounts.iter().map(|m| AccountMeta { pubkey: Address { bytes: m.pubkey.to_bytes() }, is_signer: m.is_signer, is_writable: m.is_writable }).collect(),
        data: ix.data,
    })
}

/// Calls `spl_token::instruction::mint_to` and copies the instruction out
/// field by field. The contract claims only that the outcome is the one
/// named by `token_mint_to` for these arguments: the instruction where one
/// is built, none where the call fails.
#[verifier::external_body]
fn build_mint_to(token_program: &Address, mint: &Address, account: &Address, authority: &Address, signers: &Vec<Address>, amount: u64) -> (r: Result<Instruction, ProgramError>)
    ensures
        r matches Ok(ix) ==> token_mint_to(token_program@, mint@, account@, authority@, addresses_view(signers), amount) == Some(ix@),
        r is Err ==> token_mint_to(token_program@, mint@, account@, authority@, addresses_view(signers), amount) is None,
{
    let keys: Vec<Pubkey> = signers.iter().map(|a| Pubkey::new_from_array(a.bytes)).collect();
    let ix = spl_token::instruction::mint_to(
        &Pubkey::new_from_array(token_program.bytes),
        &Pubkey::new_from_array(mint.bytes),
        &Pubkey::new_from_array(account.bytes),
        &Pubkey::new_from_array(authority.bytes),
        &keys.iter().collect::<Vec<_>>(),
        amount,
    )?;
    Ok(Instruction {
        program_id: Address { bytes: ix.program_id.to_bytes() },
        accounts: ix.accounts.iter().map(|m| AccountMeta { pubkey: Address { bytes: m.pubkey.to_bytes() }, is_signer: m.is_signer, is_writable: m.is_writable }).collect(),
        data: ix.data,
    })
}

/// Calls `spl_associated_token_account::instruction::create_associated_token_account`
/// and copies the instruction out field by field. The outside function
/// derives the holding account's address itself and does not return where
/// none exists, so the caller must know that one does. The contract claims
/// only that the instruction is the one named by `holding_create` for these
/// arguments.
#[verifier::external_body]
fn build_holding_create(funder: &Address, wallet: &Address, mint: &Address, token_program: &Address) -> (ix: Instruction)
    requires
        holding_address_of(wallet@, token_program@, mint@) is Some,
    ensures
        ix@ == holding_create(funder@, wallet@, mint@, token_program@),
{
    let ix = spl_associated_token_account::instruction::create_associated_token_account(
        &Pubkey::new_from_array(funder.bytes),
        &Pubkey::new_from_array(wallet.bytes),
        &Pubkey::new_from_array(mint.bytes),
        &Pubkey::new_from_array(token_program.bytes),
    );
    Instruction {
        program_id: Address { bytes: ix.program_id.to_bytes() },
        accounts: ix.accounts.iter().map(|m| AccountMeta { pubkey: Address { bytes: m.pubkey.to_bytes() }, is_signer: m.is_signer, is_writable: m.is_writable }).collect(),
        data: ix.data,
    }
}

/// Calls `spl_token::state::Account::unpack` and hands out the balance it
/// reads. The contract claims only that the outcome is the one named by
/// `token_balance` for these bytes: the balance where the bytes unpack,
/// none where the call fails.
#[verifier::external_body]
pub(crate) fn read_token_balance(data: &[u8]) -> (r: Result<u64, ProgramError>)
    ensures
        r matches Ok(amount) ==> token_balance(data@) == Some(amount),
        r is Err ==> token_balance(data@) is None,
{
    let account = <spl_token::state::Account as solana_program::program_pack::Pack>::unpack(data)?;
    Ok(account.amount)
}

/// An optional address as optional bytes.
pub open spec fn option_view(a: Option<Address>) -> Option<Seq<u8>> {
    match a {
        Some(a) => Some(a@),
        None => None,
    }
}

/// The call that carries an action out, or `None` where the library of the
/// program called builds no instruction for it: the token program named is
/// not the one that library serves, or the holding account named is not
/// the one derived for its wallet and mint.
pub open spec fn call_of(action: ActionView) -> Option<CallView> {
    match action {
        ActionView::Transfer { from, to, lamports, system_program } => Some(
            CallView {
                instruction: system_transfer(from, to, lamports),
                accounts: seq![from, to, system_program],
                signer_seeds: Seq::empty(),
            },
        ),
        ActionView::CreateAccount { payer, account, lamports, space, owner, system_program, signer_seeds } => Some(
            CallView {
                instruction: system_create_account(payer, account, lamports, space, owner),
                accounts: seq![payer, account, system_program],
                signer_seeds,
            },
        ),
        ActionView::InitializeMint { token_program, mint, authority, decimals } => match token_initialize_mint(
            token_program,
            mint,
            authority,
            None,
            decimals,
        ) {
            Some(instruction) => Some(
                CallView { instruction, accounts: seq![mint, token_program], signer_seeds: Seq::empty() },
            ),
            None => None,
        },
        ActionView::OpenHolding { funder, wallet, holding, mint, token_program, system_program } => {
            if holding_address_of(wallet, token_program, mint) == Some(holding) {
                Some(
                    CallView {
                        instruction: holding_create(funder, wallet, mint, token_program),
                        accounts: seq![funder, holding, mint, system_program, token_program],
                        signer_seeds: Seq::empty(),
                    },
                )
            } else {
                None
            }
        },
        ActionView::MintTo { token_program, mint, holding, authority, amount, signer_seeds } => match token_mint_to(
            token_program,
            mint,
            holding,
            authority,
            Seq::empty(),
            amount,
        ) {
            Some(instruction) => Some(
                CallView { instruction, accounts: seq![token_program, mint, holding, authority], signer_seeds },
            ),
            None => None,
        },
    }
}

/// What the host is asked for a plan: the call of each action and the
/// writes, or `AddressMismatch` where an action has no call.
pub open spec fn realized(plan: PlanView) -> Result<OutcomeView, FundError> {
    if forall|i: int| 0 <= i < plan.actions.len() ==> call_of(#[trigger] plan.actions[i]) is Some {
        Ok(
            OutcomeView {
                calls: Seq::new(plan.actions.len(), |i: int| call_of(plan.actions[i])->0),
                writes: plan.writes,
            },
        )
    } else {
        Err(FundError::AddressMismatch)
    }
}

/// Whether the result of a command is the one its inputs call for.
pub open spec fn answers(r: Result<Outcome, FundError>, expected: Result<OutcomeView, FundError>) -> bool {
    match r {
        Ok(outcome) => expected == Ok::<OutcomeView, FundError>(outcome@),
        Err(e) => expected == Err::<OutcomeView, FundError>(e),
    }
}

/// Copies a list of seeds.
fn copy_seeds(seeds: &Vec<Vec<u8>>) -> (out: Vec<Vec<u8>>)
    ensures
        seeds_view(&out) == seeds_view(seeds),
{
    let mut out: Vec<Vec<u8>> = Vec::new();
    let mut i: usize = 0;
    while i < seeds.len()
        invariant
            i <= seeds@.len(),
            out@.len() == i,
            forall|j: int| 0 <= j < i ==> out@[j]@ == seeds@[j]@,
        decreases seeds@.len() - i,
    {
        out.push(seeds[i].clone());
        i += 1;
    }
    assert(seeds_view(&out) =~= seeds_view(seeds));
    out
}

/// Builds the call that carries an action out; `None` where the library
/// of the program called builds no instruction for it.
pub fn realize_action(action: &Action) -> (r: Option<Call>)
    ensures
        r matches Some(call) ==> call_of(action@) == Some(call@),
        r is None ==> call_of(action@) is None,
{
    let no_seeds: Vec<Vec<u8>> = Vec::new();
    assert(seeds_view(&no_seeds) =~= Seq::<Seq<u8>>::empty());
    match action {
        Action::Transfer { from, to, lamports, system_program } => {
            let accounts = vec![*from, *to, *system_program];
            assert(addresses_view(&accounts) =~= seq![from@, to@, system_program@]);
            Some(Call { instruction: build_transfer(from, to, *lamports), accounts, signer_seeds: no_seeds })
        },
        Action::CreateAccount { payer, account, lamports, space, owner, system_program, signer_seeds } => {
            let accounts = vec![*payer, *account, *system_program];
            assert(addresses_view(&accounts) =~= seq![payer@, account@, system_program@]);
            Some(
                Call {
                    instruction: build_create_account(payer, account, *lamports, *space, owner),
                    accounts,
                    signer_seeds: copy_seeds(signer_seeds),
                },
            )
        },
        Action::InitializeMint { token_program, mint, authority, decimals } => {
            match build_initialize_mint(token_program, mint, authority, None, *decimals) {
                Ok(instruction) => {
                    let accounts = vec![*mint, *token_program];
                    assert(addresses_view(&accounts) =~= seq![mint@, token_program@]);
                    Some(Call { instruction, accounts, signer_seeds: no_seeds })
                },
                Err(_) => None,
            }
        },
        Action::OpenHolding { funder, wallet, holding, mint, token_program, system_program } => {
            match holding_address(wallet, token_program, mint) {
                Some(derived) => {
                    if !derived.same(holding) {
                        return None;
                    }
                    let accounts = vec![*funder, *holding, *mint, *system_program, *token_program];
                    assert(addresses_view(&accounts) =~= seq![
                        funder@,
                        holding@,
                        mint@,
                        system_program@,
                        token_program@,
                    ]);
                    Some(
                        Call {
                            instruction: build_holding_create(funder, wallet, mint, token_program),
                            accounts,
                            signer_seeds: no_seeds,
                        },
                    )
                },
                None => None,
            }
        },
        Action::MintTo { token_program, mint, holding, authority, amount, signer_seeds } => {
            let no_signers: Vec<Address> = Vec::new();
            assert(addresses_view(&no_signers) =~= Seq::<Seq<u8>>::empty());
            match build_mint_to(token_program, mint, holding, authority, &no_signers, *amount) {
                Ok(instruction) => {
                    let accounts = vec![*token_program, *mint, *holding, *authority];
                    assert(addresses_view(&accounts) =~= seq![token_program@, mint@, holding@, authority@]);
                    Some(Call { instruction, accounts, signer_seeds: copy_seeds(signer_seeds) })
                },
                Err(_) => None,
            }
        },
    }
}

/// Builds the calls of a plan, in order, and hands the writes on; fails
/// with `AddressMismatch` where an action has no call.
pub fn realize(plan: Plan) -> (r: Result<Outcome, FundError>)
    ensures
        answers(r, realized(plan@)),
{
    let mut calls: Vec<Call> = Vec::new();
    let mut i: usize = 0;
    while i < plan.actions.len()
        invariant
            i <= plan.actions@.len(),
            calls@.len() == i,
            forall|j: int| 0 <= j < i ==> call_of(#[trigger] plan@.actions[j]) == Some(calls@[j]@),
        decreases plan.actions@.len() - i,
    {
        match realize_action(&plan.actions[i]) {
            Some(call) => {
                calls.push(call);
            },
            None => {
                assert(call_of(plan@.actions[i as int]) is None);
                return Err(FundError::AddressMismatch);
            },
        }
        i += 1;
    }
    let outcome = Outcome { calls, writes: plan.writes };
    assert(outcome@.calls =~= realized(plan@)->Ok_0.calls);
    Ok(outcome)
}

} // verus!
