//! The wire format of commands.
//!
//! A command is one opcode byte followed by fields at fixed positions:
//! little-endian integers of fixed width and 32-byte chunks for seeds and
//! addresses. Bytes after the last field are ignored.

use vstd::prelude::*;
use vstd::bytes::spec_u64_to_le_bytes;
use vstd::bytes::u64_from_le_bytes;
use vstd::bytes::u64_to_le_bytes;
use vstd::bytes::lemma_auto_spec_u64_to_from_le_bytes;
use vstd::slice::slice_subrange;
use crate::wire::amounts_bytes;
use crate::wire::le_u64_at;
use crate::wire::lemma_amounts_bytes_push;
use crate::wire::lemma_signed_unsigned;
use crate::wire::push_all;
use crate::wire::signed_of;
use crate::wire::to_signed;
use crate::wire::to_unsigned;
use crate::wire::unsigned_of;
use crate::address::Address;
use crate::error::FundError;

verus! {

/// Width of an amount or a timestamp on the wire.
pub const BYTE_SIZE_8: usize = 8;

/// Width of a seed or an address on the wire.
pub const SEED_BYTES: usize = 32;

/// A command to the fund.
#[derive(Clone, Debug, PartialEq, Eq)]
pub enum FundInstruction {
    /// Create a fund for the given number of members. Accounts: mint, vault,
    /// system program, token program, fund, funding account, then one
    /// account for each member.
    InitFundAccount { number_of_members: u8, user_seed: Vec<u8> },
    /// Deposit into a fund. Accounts: mint, vault, fund, system program,
    /// token program, the member's token holding account, the member, the
    /// member's record.
    InitDepositSol { amount: u64, user_seed: Vec<u8> },
    /// Propose to reallocate assets. Accounts: proposer, proposal, fund, the
    /// proposer's record, system program, then one account for each asset
    /// to sell and one for each asset to buy.
    InitProposalAccount { amounts: Vec<u64>, dex: Vec<u8>, deadline: i64, user_seed: Vec<u8> },
    /// Vote on a proposal. Accounts: voter, vote record, system program,
    /// fund, proposal, the voter's record, mint, the voter's token holding
    /// account.
    InitVotingAccount { user_seed: Vec<u8>, vote: u8 },
    /// Mark a proposal as executed. Accounts: the acting member, proposal.
    Execute { proposal: Address },
}

/// A command as plain values.
pub enum Command {
    CreateFund { member_count: u8, seed: Seq<u8> },
    Deposit { amount: u64, seed: Seq<u8> },
    CreateProposal { amounts: Seq<u64>, routing_tags: Seq<u8>, deadline: i64, seed: Seq<u8> },
    CastVote { choice: u8, seed: Seq<u8> },
    Execute { proposal: Seq<u8> },
}

impl View for FundInstruction {
    type V = Command;

    open spec fn view(&self) -> Command {
        match self {
            FundInstruction::InitFundAccount { number_of_members, user_seed } => Command::CreateFund {
                member_count: *number_of_members,
                seed: user_seed@,
            },
            FundInstruction::InitDepositSol { amount, user_seed } => Command::Deposit {
                amount: *amount,
                seed: user_seed@,
            },
            FundInstruction::InitProposalAccount { amounts, dex, deadline, user_seed } => Command::CreateProposal {
                amounts: amounts@,
                routing_tags: dex@,
                deadline: *deadline,
                seed: user_seed@,
            },
            FundInstruction::InitVotingAccount { user_seed, vote } => Command::CastVote {
                choice: *vote,
                seed: user_seed@,
            },
            FundInstruction::Execute { proposal } => Command::Execute { proposal: proposal@ },
        }
    }
}

/// The fund-creation command in the bytes after the opcode.
pub open spec fn decode_create_fund(rest: Seq<u8>) -> Result<Command, FundError> {
    if rest.len() < 33 {
        Err(FundError::DecodeError)
    } else {
        Ok(Command::CreateFund { member_count: rest[0], seed: rest.subrange(1, 33) })
    }
}

/// The deposit command in the bytes after the opcode.
pub open spec fn decode_deposit(rest: Seq<u8>) -> Result<Command, FundError> {
    if rest.len() < 40 {
        Err(FundError::DecodeError)
    } else {
        Ok(Command::Deposit { amount: le_u64_at(rest, 0), seed: rest.subrange(8, 40) })
    }
}

/// The proposal command in the bytes after the opcode: a leg count `n`,
/// `n` amounts, `n` routing tags, the deadline, the seed.
pub open spec fn decode_create_proposal(rest: Seq<u8>) -> Result<Command, FundError> {
    if rest.len() < 1 || rest.len() < 41 + 9 * rest[0] {
        Err(FundError::DecodeError)
    } else {
        let n = rest[0] as int;
        Ok(
            Command::CreateProposal {
                amounts: Seq::new(n as nat, |i: int| le_u64_at(rest, 1 + 8 * i)),
                routing_tags: rest.subrange(1 + 8 * n, 1 + 9 * n),
                deadline: signed_of(le_u64_at(rest, 1 + 9 * n)),
                seed: rest.subrange(9 + 9 * n, 41 + 9 * n),
            },
        )
    }
}

/// The vote command in the bytes after the opcode.
pub open spec fn decode_cast_vote(rest: Seq<u8>) -> Result<Command, FundError> {
    if rest.len() < 33 {
        Err(FundError::DecodeError)
    } else {
        Ok(Command::CastVote { choice: rest[0], seed: rest.subrange(1, 33) })
    }
}

/// The execution command in the bytes after the opcode.
pub open spec fn decode_execute(rest: Seq<u8>) -> Result<Command, FundError> {
    if rest.len() < 32 {
        Err(FundError::DecodeError)
    } else {
        Ok(Command::Execute { proposal: rest.subrange(0, 32) })
    }
}

/// What the bytes of a command mean: the command they hold, or
/// `DecodeError` where the buffer is empty, the opcode is unknown or a
/// field is cut short.
pub open spec fn decode(input: Seq<u8>) -> Result<Command, FundError> {
    if input.len() == 0 {
        Err(FundError::DecodeError)
    } else if input[0] == 0 {
        decode_create_fund(input.skip(1))
    } else if input[0] == 1 {
        decode_deposit(input.skip(1))
    } else if input[0] == 2 {
        decode_create_proposal(input.skip(1))
    } else if input[0] == 3 {
        decode_cast_vote(input.skip(1))
    } else if input[0] == 4 {
        decode_execute(input.skip(1))
    } else {
        Err(FundError::DecodeError)
    }
}

/// Whether the result of a decoder is what the bytes mean.
pub open spec fn decoded_as(r: Result<FundInstruction, FundError>, meaning: Result<Command, FundError>) -> bool {
    match r {
        Ok(instruction) => meaning == Ok::<Command, FundError>(instruction@),
        Err(e) => meaning == Err::<Command, FundError>(e),
    }
}

/// Whether a command fits the wire format: seeds and addresses of 32
/// bytes, and as many routing tags as amounts, at most 255 of each.
pub open spec fn encodable(c: Command) -> bool {
    match c {
        Command::CreateFund { member_count, seed } => seed.len() == 32,
        Command::Deposit { amount, seed } => seed.len() == 32,
        Command::CreateProposal { amounts, routing_tags, deadline, seed } => {
            &&& seed.len() == 32
            &&& amounts.len() == routing_tags.len()
            &&& amounts.len() <= 255
        },
        Command::CastVote { choice, seed } => seed.len() == 32,
        Command::Execute { proposal } => proposal.len() == 32,
    }
}

/// The bytes of a command that fits the wire format.
pub open spec fn encode(c: Command) -> Seq<u8> {
    match c {
        Command::CreateFund { member_count, seed } => seq![0u8, member_count] + seed,
        Command::Deposit { amount, seed } => seq![1u8] + spec_u64_to_le_bytes(amount) + seed,
        Command::CreateProposal { amounts, routing_tags, deadline, seed } => seq![2u8, amounts.len() as u8]
            + amounts_bytes(amounts) + routing_tags + spec_u64_to_le_bytes(unsigned_of(deadline)) + seed,
        Command::CastVote { choice, seed } => seq![3u8, choice] + seed,
        Command::Execute { proposal } => seq![4u8] + proposal,
    }
}

impl FundInstruction {
    /// Decodes a command. Fails with `DecodeError` on an empty buffer, an
    /// unknown opcode, or a field that the buffer cuts short.
    pub fn unpack(input: &[u8]) -> (r: Result<FundInstruction, FundError>)
        ensures
            decoded_as(r, decode(input@)),
    {
        if input.len() == 0 {
            return Err(FundError::DecodeError);
        }
        let tag = input[0];
        let rest = slice_subrange(input, 1, input.len());
        assert(rest@ =~= input@.skip(1));
        if tag == 0 {
            Self::unpack_create_fund(rest)
        } else if tag == 1 {
            Self::unpack_deposit(rest)
        } else if tag == 2 {
            Self::unpack_create_proposal(rest)
        } else if tag == 3 {
            Self::unpack_cast_vote(rest)
        } else if tag == 4 {
            Self::unpack_execute(rest)
        } else {
            Err(FundError::DecodeError)
        }
    }

    /// Decodes the fields of a fund creation.
    fn unpack_create_fund(rest: &[u8]) -> (r: Result<FundInstruction, FundError>)
        ensures
            decoded_as(r, decode_create_fund(rest@)),
    {
        let (num, rest1) = match Self::unpack_members(rest) {
            Ok(p) => p,
            Err(e) => { return Err(e); },
        };
        let (user_seed, _rest) = match Self::unpack_seed(rest1) {
            Ok(p) => p,
            Err(e) => { return Err(e); },
        };
        assert(rest@.skip(1).subrange(0, 32) =~= rest@.subrange(1, 33));
        Ok(FundInstruction::InitFundAccount { number_of_members: num, user_seed })
    }

    /// Decodes the fields of a deposit.
    fn unpack_deposit(rest: &[u8]) -> (r: Result<FundInstruction, FundError>)
        ensures
            decoded_as(r, decode_deposit(rest@)),
    {
        let (amount, rest1) = match Self::unpack_amount(rest) {
            Ok(p) => p,
            Err(e) => { return Err(e); },
        };
        let (user_seed, _rest) = match Self::unpack_seed(rest1) {
            Ok(p) => p,
            Err(e) => { return Err(e); },
        };
        assert(rest@.skip(8).subrange(0, 32) =~= rest@.subrange(8, 40));
        Ok(FundInstruction::InitDepositSol { amount, user_seed })
    }

    /// Decodes the fields of a proposal.
    fn unpack_create_proposal(rest: &[u8]) -> (r: Result<FundInstruction, FundError>)
        ensures
            decoded_as(r, decode_create_proposal(rest@)),
    {
        let (number_of_assets, rest1) = match Self::unpack_members(rest) {
            Ok(p) => p,
            Err(e) => { return Err(e); },
        };
        let (amounts, rest2) = match Self::unpack_amounts(rest1, number_of_assets) {
            Ok(p) => p,
            Err(e) => { return Err(e); },
        };
        let (dex, rest3) = match Self::unpack_dex(rest2, number_of_assets) {
            Ok(p) => p,
            Err(e) => { return Err(e); },
        };
        let (deadline, rest4) = match Self::unpack_deadline(rest3) {
            Ok(p) => p,
            Err(e) => { return Err(e); },
        };
        let (user_seed, _rest) = match Self::unpack_seed(rest4) {
            Ok(p) => p,
            Err(e) => { return Err(e); },
        };
        proof {
            let n: int = number_of_assets as int;
            let r = rest@;
            assert(rest2@ =~= r.skip(1 + 8 * n));
            assert(rest3@ =~= r.skip(1 + 9 * n));
            assert(rest4@ =~= r.skip(9 + 9 * n));
            assert(dex@ =~= r.subrange(1 + 8 * n, 1 + 9 * n));
            assert(user_seed@ =~= r.subrange(9 + 9 * n, 41 + 9 * n));
            assert(rest3@.subrange(0, 8) =~= r.subrange(1 + 9 * n, 1 + 9 * n + 8));
            assert forall|i: int| 0 <= i < n implies amounts@[i] == le_u64_at(r, 1 + 8 * i) by {
                assert(rest1@.subrange(8 * i, 8 * i + 8) =~= r.subrange(1 + 8 * i, 1 + 8 * i + 8));
            }
            assert(amounts@ =~= Seq::new(n as nat, |i: int| le_u64_at(r, 1 + 8 * i)));
        }
        Ok(FundInstruction::InitProposalAccount { amounts, dex, deadline, user_seed })
    }

    /// Decodes the fields of a vote.
    fn unpack_cast_vote(rest: &[u8]) -> (r: Result<FundInstruction, FundError>)
        ensures
            decoded_as(r, decode_cast_vote(rest@)),
    {
        let (vote, rest1) = match Self::unpack_vote(rest) {
            Ok(p) => p,
            Err(e) => { return Err(e); },
        };
        let (user_seed, _rest) = match Self::unpack_seed(rest1) {
            Ok(p) => p,
            Err(e) => { return Err(e); },
        };
        assert(rest@.skip(1).subrange(0, 32) =~= rest@.subrange(1, 33));
        Ok(FundInstruction::InitVotingAccount { user_seed, vote })
    }

    /// Decodes the fields of an execution.
    fn unpack_execute(rest: &[u8]) -> (r: Result<FundInstruction, FundError>)
        ensures
            decoded_as(r, decode_execute(rest@)),
    {
        match Address::from_slice(rest) {
            Some(proposal) => Ok(FundInstruction::Execute { proposal }),
            None => Err(FundError::DecodeError),
        }
    }

    /// Splits one byte off the front: a member count or a leg count.
    fn unpack_members(input: &[u8]) -> (r: Result<(u8, &[u8]), FundError>)
        ensures
            input@.len() < 1 ==> r == Err::<(u8, &[u8]), FundError>(FundError::DecodeError),
            input@.len() >= 1 ==> r is Ok && r->Ok_0.0 == input@[0] && r->Ok_0.1@ == input@.skip(1),
    {
        if input.len() < 1 {
            return Err(FundError::DecodeError);
        }
        let rest = slice_subrange(input, 1, input.len());
        assert(rest@ =~= input@.skip(1));
        Ok((input[0], rest))
    }

    /// Splits a little-endian amount off the front.
    pub fn unpack_amount(input: &[u8]) -> (r: Result<(u64, &[u8]), FundError>)
        ensures
            input@.len() < 8 ==> r == Err::<(u64, &[u8]), FundError>(FundError::DecodeError),
            input@.len() >= 8 ==> r is Ok && r->Ok_0.0 == le_u64_at(input@, 0) && r->Ok_0.1@
                == input@.skip(8),
    {
        if input.len() < BYTE_SIZE_8 {
            return Err(FundError::DecodeError);
        }
        let amount = u64_from_le_bytes(slice_subrange(input, 0, BYTE_SIZE_8));
        let rest = slice_subrange(input, BYTE_SIZE_8, input.len());
        assert(rest@ =~= input@.skip(8));
        Ok((amount, rest))
    }

    /// Splits a 32-byte seed off the front.
    pub fn unpack_seed(input: &[u8]) -> (r: Result<(Vec<u8>, &[u8]), FundError>)
        ensures
            input@.len() < 32 ==> r == Err::<(Vec<u8>, &[u8]), FundError>(FundError::DecodeError),
            input@.len() >= 32 ==> r is Ok && r->Ok_0.0@ == input@.subrange(0, 32) && r->Ok_0.1@
                == input@.skip(32),
    {
        if input.len() < SEED_BYTES {
            return Err(FundError::DecodeError);
        }
        let mut seed_material: Vec<u8> = Vec::new();
        let mut i: usize = 0;
        while i < SEED_BYTES
            invariant
                i <= 32,
                input@.len() >= 32,
                seed_material@.len() == i,
                forall|j: int| 0 <= j < i ==> seed_material@[j] == input@[j],
            decreases 32 - i,
        {
            seed_material.push(input[i]);
            i += 1;
        }
        let rest = slice_subrange(input, SEED_BYTES, input.len());
        assert(rest@ =~= input@.skip(32));
        assert(seed_material@ =~= input@.subrange(0, 32));
        Ok((seed_material, rest))
    }

    /// Splits `number_of_assets` little-endian amounts off the front.
    pub fn unpack_amounts(input: &[u8], number_of_assets: u8) -> (r: Result<(Vec<u64>, &[u8]), FundError>)
        ensures
            input@.len() < 8 * number_of_assets ==> r == Err::<(Vec<u64>, &[u8]), FundError>(
                FundError::DecodeError,
            ),
            input@.len() >= 8 * number_of_assets ==> r is Ok && r->Ok_0.0@ == Seq::new(
                number_of_assets as nat,
                |i: int| le_u64_at(input@, 8 * i),
            ) && r->Ok_0.1@ == input@.skip(8 * number_of_assets),
    {
        let count: usize = number_of_assets as usize;
        if input.len() < BYTE_SIZE_8 * count {
            return Err(FundError::DecodeError);
        }
        let mut amounts: Vec<u64> = Vec::new();
        let mut input_slice = input;
        let mut i: usize = 0;
        while i < count
            invariant
                i <= count,
                count == number_of_assets,
                input@.len() >= 8 * count,
                amounts@.len() == i,
                input_slice@ == input@.skip(8 * i),
                forall|j: int| 0 <= j < i ==> amounts@[j] == le_u64_at(input@, 8 * j),
            decreases count - i,
        {
            let (amount, rest) = match Self::unpack_amount(input_slice) {
                Ok(p) => p,
                Err(e) => { return Err(e); },
            };
            assert(input_slice@.subrange(0, 8) =~= input@.subrange(8 * i, 8 * i + 8));
            assert(rest@ =~= input@.skip(8 * (i + 1)));
            amounts.push(amount);
            input_slice = rest;
            i += 1;
        }
        assert(amounts@ =~= Seq::new(number_of_assets as nat, |i: int| le_u64_at(input@, 8 * i)));
        Ok((amounts, input_slice))
    }

    /// Splits `number_of_assets` one-byte routing tags off the front.
    fn unpack_dex(input: &[u8], number_of_assets: u8) -> (r: Result<(Vec<u8>, &[u8]), FundError>)
        ensures
            input@.len() < number_of_assets ==> r == Err::<(Vec<u8>, &[u8]), FundError>(
                FundError::DecodeError,
            ),
            input@.len() >= number_of_assets ==> r is Ok && r->Ok_0.0@ == input@.subrange(
                0,
                number_of_assets as int,
            ) && r->Ok_0.1@ == input@.skip(number_of_assets as int),
    {
        let count: usize = number_of_assets as usize;
        if input.len() < count {
            return Err(FundError::DecodeError);
        }
        let mut dex: Vec<u8> = Vec::new();
        let mut i: usize = 0;
        while i < count
            invariant
                i <= count,
                input@.len() >= count,
                dex@.len() == i,
                forall|j: int| 0 <= j < i ==> dex@[j] == input@[j],
            decreases count - i,
        {
            dex.push(input[i]);
            i += 1;
        }
        let rest = slice_subrange(input, count, input.len());
        assert(rest@ =~= input@.skip(number_of_assets as int));
        assert(dex@ =~= input@.subrange(0, number_of_assets as int));
        Ok((dex, rest))
    }

    /// Splits a little-endian signed timestamp off the front.
    fn unpack_deadline(input: &[u8]) -> (r: Result<(i64, &[u8]), FundError>)
        ensures
            input@.len() < 8 ==> r == Err::<(i64, &[u8]), FundError>(FundError::DecodeError),
            input@.len() >= 8 ==> r is Ok && r->Ok_0.0 == signed_of(le_u64_at(input@, 0))
                && r->Ok_0.1@ == input@.skip(8),
    {
        match Self::unpack_amount(input) {
            Ok((bits, rest)) => Ok((to_signed(bits), rest)),
            Err(e) => Err(e),
        }
    }

    /// Splits the one-byte choice of a vote off the front.
    fn unpack_vote(input: &[u8]) -> (r: Result<(u8, &[u8]), FundError>)
        ensures
            input@.len() < 1 ==> r == Err::<(u8, &[u8]), FundError>(FundError::DecodeError),
            input@.len() >= 1 ==> r is Ok && r->Ok_0.0 == input@[0] && r->Ok_0.1@ == input@.skip(1),
    {
        Self::unpack_members(input)
    }
}

impl FundInstruction {
    /// Encodes a command; `None` where it does not fit the wire format
    /// (a seed that is not 32 bytes long, amounts and routing tags that
    /// differ in number, more than 255 legs).
    pub fn pack(&self) -> (r: Option<Vec<u8>>)
        ensures
            encodable(self@) ==> r is Some && r->0@ == encode(self@),
            !encodable(self@) ==> r is None,
    {
        let mut out: Vec<u8> = Vec::new();
        match self {
            FundInstruction::InitFundAccount { number_of_members, user_seed } => {
                if user_seed.len() != SEED_BYTES {
                    return None;
                }
                out.push(0u8);
                out.push(*number_of_members);
                push_all(&mut out, user_seed.as_slice());
                assert(out@ =~= encode(self@));
            },
            FundInstruction::InitDepositSol { amount, user_seed } => {
                if user_seed.len() != SEED_BYTES {
                    return None;
                }
                out.push(1u8);
                let bytes = u64_to_le_bytes(*amount);
                push_all(&mut out, bytes.as_slice());
                push_all(&mut out, user_seed.as_slice());
                assert(out@ =~= encode(self@));
            },
            FundInstruction::InitProposalAccount { amounts, dex, deadline, user_seed } => {
                if user_seed.len() != SEED_BYTES || amounts.len() != dex.len() || amounts.len() > 255 {
                    return None;
                }
                out.push(2u8);
                out.push(amounts.len() as u8);
                let mut i: usize = 0;
                while i < amounts.len()
                    invariant
                        i <= amounts@.len(),
                        out@ == seq![2u8, amounts@.len() as u8] + amounts_bytes(amounts@.subrange(0, i as int)),
                    decreases amounts@.len() - i,
                {
                    let bytes = u64_to_le_bytes(amounts[i]);
                    push_all(&mut out, bytes.as_slice());
                    proof {
                        lemma_amounts_bytes_push(amounts@.subrange(0, i as int), amounts@[i as int]);
                        assert(amounts@.subrange(0, i as int).push(amounts@[i as int]) =~= amounts@.subrange(
                            0,
                            i + 1,
                        ));
                    }
                    i += 1;
                }
                assert(amounts@.subrange(0, amounts@.len() as int) =~= amounts@);
                push_all(&mut out, dex.as_slice());
                let bytes = u64_to_le_bytes(to_unsigned(*deadline));
                push_all(&mut out, bytes.as_slice());
                push_all(&mut out, user_seed.as_slice());
                assert(out@ =~= encode(self@));
            },
            FundInstruction::InitVotingAccount { user_seed, vote } => {
                if user_seed.len() != SEED_BYTES {
                    return None;
                }
                out.push(3u8);
                out.push(*vote);
                push_all(&mut out, user_seed.as_slice());
                assert(out@ =~= encode(self@));
            },
            FundInstruction::Execute { proposal } => {
                out.push(4u8);
                let bytes = proposal.to_vec();
                push_all(&mut out, bytes.as_slice());
                assert(out@ =~= encode(self@));
            },
        }
        Some(out)
    }
}

/// Number of bytes of a command on the wire.
pub open spec fn encoded_len(c: Command) -> nat {
    match c {
        Command::CreateFund { member_count, seed } => 34,
        Command::Deposit { amount, seed } => 41,
        Command::CreateProposal { amounts, routing_tags, deadline, seed } => 42 + 9 * amounts.len(),
        Command::CastVote { choice, seed } => 34,
        Command::Execute { proposal } => 33,
    }
}

/// Decoding undoes encoding: the bytes of any command that fits the wire
/// format decode to that command, and their number is `encoded_len`.
pub proof fn lemma_decode_encode(c: Command)
    requires
        encodable(c),
    ensures
        encode(c).len() == encoded_len(c),
        decode(encode(c)) == Ok::<Command, FundError>(c),
{
    lemma_auto_spec_u64_to_from_le_bytes();
    let bytes = encode(c);
    let rest = bytes.skip(1);
    match c {
        Command::CreateFund { member_count, seed } => {
            assert(rest.subrange(1, 33) =~= seed);
        },
        Command::Deposit { amount, seed } => {
            assert(rest.subrange(0, 8) =~= spec_u64_to_le_bytes(amount));
            assert(rest.subrange(8, 40) =~= seed);
        },
        Command::CreateProposal { amounts, routing_tags, deadline, seed } => {
            let n = amounts.len() as int;
            assert(bytes.len() == 42 + 9 * n);
            assert(rest[0] == n as u8);
            assert(rest.subrange(1 + 8 * n, 1 + 9 * n) =~= routing_tags);
            assert(rest.subrange(1 + 9 * n, 1 + 9 * n + 8) =~= spec_u64_to_le_bytes(unsigned_of(deadline)));
            assert(rest.subrange(9 + 9 * n, 41 + 9 * n) =~= seed);
            lemma_signed_unsigned(deadline);
            assert forall|i: int| 0 <= i < n implies le_u64_at(rest, 1 + 8 * i) == amounts[i] by {
                let piece = rest.subrange(1 + 8 * i, 1 + 8 * i + 8);
                assert forall|j: int| 0 <= j < 8 implies piece[j] == spec_u64_to_le_bytes(amounts[i])[j] by {
                    assert(piece[j] == amounts_bytes(amounts)[8 * i + j]);
                    assert((8 * i + j) / 8 == i);
                    assert((8 * i + j) % 8 == j);
                }
                assert(piece =~= spec_u64_to_le_bytes(amounts[i]));
            }
            assert(Seq::new(n as nat, |i: int| le_u64_at(rest, 1 + 8 * i)) =~= amounts);
        },
        Command::CastVote { choice, seed } => {
            assert(rest.subrange(1, 33) =~= seed);
        },
        Command::Execute { proposal } => {
            assert(rest.subrange(0, 32) =~= proposal);
        },
    }
}

/// A command cut short is refused: every proper prefix of the bytes of a
/// command that fits the wire format decodes to `DecodeError`.
pub proof fn lemma_truncated_is_refused(c: Command, keep: int)
    requires
        encodable(c),
        0 <= keep < encode(c).len(),
    ensures
        decode(encode(c).subrange(0, keep)) == Err::<Command, FundError>(FundError::DecodeError),
{
    lemma_decode_encode(c);
    let cut = encode(c).subrange(0, keep);
    if keep >= 1 {
        assert(cut[0] == encode(c)[0]);
        assert(cut.skip(1).len() == keep - 1);
        if keep >= 2 {
            assert(cut.skip(1)[0] == encode(c)[1]);
        }
    }
}

} // verus!
