//! The commands of the program and their wire format.
//!
//! An instruction is one opcode byte followed by the fields of the command the
//! opcode selects, in declared order: a `u8` as one byte, a `u32` as four and a
//! `u64` as eight, least significant byte first. Bytes after the last field are
//! not looked at.
use crate::le::{
    lemma_u32_le_bytes, lemma_u32_le_round_trip, lemma_u64_le_bytes, lemma_u64_le_round_trip,
    read_u32_le, read_u64_le, u32_from_le, u32_to_le, u64_from_le, u64_to_le,
};
use solana_program::program_error::ProgramError;
use vstd::prelude::*;

verus! {

/// A decoded instruction.
#[allow(non_camel_case_types)]
#[derive(Debug, PartialEq)]
pub enum SuperBondsInstruction {
    /// Created only once.
    initStakingPool {},
    initPool { pool_length: u32 },
    updateParameter { para_id: u8, value: u64 },
    external_farm {},
    deposit_trader_pool { amount: u64 },
    updateGovernanceOperatorAdmin { is_gov: u8, index: u8 },
    claimTreasury {},
    add_remove_liq { action_type: u8, amount: u64 },
    /// Type 0 stakes the LP token, type 2 the SuperB token. An amount of zero
    /// claims the rewards.
    stake { stake_type: u8, amount: u64 },
    unstake { unstake_type: u8, amount: u64 },
    claimNFT {},
    trade { usdc_in: u64 },
    redeem {},
    request_farming_reward {},
    distribute_farming_reward { farm_id: u8, amount: u64 },
    cleanup_farming_reward_request {},
    set_superbonds { status: u8 },
    settle_redemption {},
    /// Withdraws from the USDC or SuperB treasury and the SuperB fee pool.
    withdraw_fund { amount: u64 },
}

impl SuperBondsInstruction {
    /// The opcode of this command. The gaps in the numbering are reserved.
    pub open spec fn tag(self) -> u8 {
        match self {
            Self::initPool { .. } => 0,
            Self::updateGovernanceOperatorAdmin { .. } => 2,
            Self::initStakingPool { } => 3,
            Self::claimTreasury { } => 5,
            Self::updateParameter { .. } => 7,
            Self::set_superbonds { .. } => 9,
            Self::add_remove_liq { .. } => 11,
            Self::trade { .. } => 15,
            Self::redeem { } => 17,
            Self::stake { .. } => 19,
            Self::unstake { .. } => 21,
            Self::claimNFT { } => 23,
            Self::external_farm { } => 31,
            Self::deposit_trader_pool { .. } => 33,
            Self::request_farming_reward { } => 35,
            Self::distribute_farming_reward { .. } => 37,
            Self::cleanup_farming_reward_request { } => 38,
            Self::settle_redemption { } => 39,
            Self::withdraw_fund { .. } => 41,
        }
    }

    /// The fields of this command as they travel: in declared order, each
    /// little-endian at its fixed width.
    pub open spec fn payload(self) -> Seq<u8> {
        match self {
            Self::initPool { pool_length } => u32_to_le(pool_length),
            Self::updateGovernanceOperatorAdmin { is_gov, index } => seq![is_gov, index],
            Self::updateParameter { para_id, value } => seq![para_id] + u64_to_le(value),
            Self::set_superbonds { status } => seq![status],
            Self::add_remove_liq { action_type, amount } => seq![action_type] + u64_to_le(amount),
            Self::trade { usdc_in } => u64_to_le(usdc_in),
            Self::stake { stake_type, amount } => seq![stake_type] + u64_to_le(amount),
            Self::unstake { unstake_type, amount } => seq![unstake_type] + u64_to_le(amount),
            Self::deposit_trader_pool { amount } => u64_to_le(amount),
            Self::distribute_farming_reward { farm_id, amount } => seq![farm_id] + u64_to_le(
                amount,
            ),
            Self::withdraw_fund { amount } => u64_to_le(amount),
            Self::initStakingPool { }
            | Self::claimTreasury { }
            | Self::redeem { }
            | Self::claimNFT { }
            | Self::external_farm { }
            | Self::request_farming_reward { }
            | Self::cleanup_farming_reward_request { }
            | Self::settle_redemption { } => Seq::empty(),
        }
    }

    /// The instruction that stands for this command: its opcode, then its
    /// payload.
    pub open spec fn encoding(self) -> Seq<u8> {
        seq![self.tag()] + self.payload()
    }

    /// Whether `tag` is an opcode of the table.
    pub open spec fn is_opcode(tag: u8) -> bool {
        tag == 0 || tag == 2 || tag == 3 || tag == 5 || tag == 7 || tag == 9 || tag == 11 || tag
            == 15 || tag == 17 || tag == 19 || tag == 21 || tag == 23 || tag == 31 || tag == 33
            || tag == 35 || tag == 37 || tag == 38 || tag == 39 || tag == 41
    }

    /// What an instruction decodes to. The first byte selects the layout; the
    /// bytes `p` after it must hold every field of that layout, and each field
    /// is read at its place in `p`. An empty instruction, an opcode outside
    /// the table and a payload that ends before its last field are all
    /// invalid instruction data.
    pub open spec fn spec_unpack(input: Seq<u8>) -> Result<Self, ProgramError> {
        let invalid = Err(ProgramError::InvalidInstructionData);
        let p = input.skip(1);
        if input.len() == 0 {
            invalid
        } else {
            match input[0] {
                0 => if p.len() >= 4 {
                    Ok(Self::initPool { pool_length: u32_from_le(p) })
                } else {
                    invalid
                },
                2 => if p.len() >= 2 {
                    Ok(Self::updateGovernanceOperatorAdmin { is_gov: p[0], index: p[1] })
                } else {
                    invalid
                },
                3 => Ok(Self::initStakingPool {  }),
                5 => Ok(Self::claimTreasury {  }),
                7 => if p.len() >= 9 {
                    Ok(Self::updateParameter { para_id: p[0], value: u64_from_le(p.skip(1)) })
                } else {
                    invalid
                },
                9 => if p.len() >= 1 {
                    Ok(Self::set_superbonds { status: p[0] })
                } else {
                    invalid
                },
                11 => if p.len() >= 9 {
                    Ok(Self::add_remove_liq { action_type: p[0], amount: u64_from_le(p.skip(1)) })
                } else {
                    invalid
                },
                15 => if p.len() >= 8 {
                    Ok(Self::trade { usdc_in: u64_from_le(p) })
                } else {
                    invalid
                },
                17 => Ok(Self::redeem {  }),
                19 => if p.len() >= 9 {
                    Ok(Self::stake { stake_type: p[0], amount: u64_from_le(p.skip(1)) })
                } else {
                    invalid
                },
                21 => if p.len() >= 9 {
                    Ok(Self::unstake { unstake_type: p[0], amount: u64_from_le(p.skip(1)) })
                } else {
                    invalid
                },
                23 => Ok(Self::claimNFT {  }),
                31 => Ok(Self::external_farm {  }),
                33 => if p.len() >= 8 {
                    Ok(Self::deposit_trader_pool { amount: u64_from_le(p) })
                } else {
                    invalid
                },
                35 => Ok(Self::request_farming_reward {  }),
                37 => if p.len() >= 9 {
                    Ok(
                        Self::distribute_farming_reward {
                            farm_id: p[0],
                            amount: u64_from_le(p.skip(1)),
                        },
                    )
                } else {
                    invalid
                },
                38 => Ok(Self::cleanup_farming_reward_request {  }),
                39 => Ok(Self::settle_redemption {  }),
                41 => if p.len() >= 8 {
                    Ok(Self::withdraw_fund { amount: u64_from_le(p) })
                } else {
                    invalid
                },
                _ => invalid,
            }
        }
    }

    /// Decodes an instruction: reads the opcode, then the fields of its
    /// layout in declared order. Fails with
    /// `ProgramError::InvalidInstructionData`, and with nothing else, on an
    /// empty input, on an opcode outside the table and on a payload that ends
    /// before the last field.
    pub fn unpack(input: &[u8]) -> (r: Result<Self, ProgramError>)
        ensures
            r == Self::spec_unpack(input@),
    {
        if input.len() == 0 {
            return Err(ProgramError::InvalidInstructionData);
        }
        let (head, rest) = input.split_at(1);
        let tag = head[0];
        Ok(
            match tag {
                0 => {
                    let (pool_length, _rest) = Self::unpack_u32(rest)?;
                    Self::initPool { pool_length }
                },
                2 => {
                    let (is_gov, rest) = Self::unpack_u8(rest)?;
                    let (index, _rest) = Self::unpack_u8(rest)?;
                    Self::updateGovernanceOperatorAdmin { is_gov, index }
                },
                3 => Self::initStakingPool {  },
                5 => Self::claimTreasury {  },
                7 => {
                    let (para_id, rest) = Self::unpack_u8(rest)?;
                    let (value, _rest) = Self::unpack_u64(rest)?;
                    Self::updateParameter { para_id, value }
                },
                9 => {
                    let (status, _rest) = Self::unpack_u8(rest)?;
                    Self::set_superbonds { status }
                },
                11 => {
                    let (action_type, rest) = Self::unpack_u8(rest)?;
                    let (amount, _rest) = Self::unpack_u64(rest)?;
                    Self::add_remove_liq { action_type, amount }
                },
                15 => {
                    let (usdc_in, _rest) = Self::unpack_u64(rest)?;
                    Self::trade { usdc_in }
                },
                17 => Self::redeem {  },
                19 => {
                    let (stake_type, rest) = Self::unpack_u8(rest)?;
                    let (amount, _rest) = Self::unpack_u64(rest)?;
                    Self::stake { stake_type, amount }
                },
                21 => {
                    let (unstake_type, rest) = Self::unpack_u8(rest)?;
                    let (amount, _rest) = Self::unpack_u64(rest)?;
                    Self::unstake { unstake_type, amount }
                },
                23 => Self::claimNFT {  },
                31 => Self::external_farm {  },
                33 => {
                    let (amount, _rest) = Self::unpack_u64(rest)?;
                    Self::deposit_trader_pool { amount }
                },
                35 => Self::request_farming_reward {  },
                37 => {
                    let (farm_id, rest) = Self::unpack_u8(rest)?;
                    let (amount, _rest) = Self::unpack_u64(rest)?;
                    Self::distribute_farming_reward { farm_id, amount }
                },
                38 => Self::cleanup_farming_reward_request {  },
                39 => Self::settle_redemption {  },
                41 => {
                    let (amount, _rest) = Self::unpack_u64(rest)?;
                    Self::withdraw_fund { amount }
                },
                _ => return Err(ProgramError::InvalidInstructionData),
            },
        )
    }

    /// Takes a `u64` off the front of `input`: its first eight bytes as a
    /// little-endian value, and what follows them.
    pub fn unpack_u64(input: &[u8]) -> (r: Result<(u64, &[u8]), ProgramError>)
        ensures
            match r {
                Ok((value, rest)) => input@.len() >= 8 && value == u64_from_le(input@) && rest@
                    == input@.skip(8),
                Err(e) => input@.len() < 8 && e == ProgramError::InvalidInstructionData,
            },
    {
        if input.len() >= 8 {
            let (amount, rest) = input.split_at(8);
            Ok((read_u64_le(amount), rest))
        } else {
            Err(ProgramError::InvalidInstructionData)
        }
    }

    /// Takes a `u32` off the front of `input`: its first four bytes as a
    /// little-endian value, and what follows them.
    pub fn unpack_u32(input: &[u8]) -> (r: Result<(u32, &[u8]), ProgramError>)
        ensures
            match r {
                Ok((value, rest)) => input@.len() >= 4 && value == u32_from_le(input@) && rest@
                    == input@.skip(4),
                Err(e) => input@.len() < 4 && e == ProgramError::InvalidInstructionData,
            },
    {
        if input.len() >= 4 {
            let (amount, rest) = input.split_at(4);
            Ok((read_u32_le(amount), rest))
        } else {
            Err(ProgramError::InvalidInstructionData)
        }
    }

    /// Takes a `u8` off the front of `input`: its first byte, and what follows
    /// it.
    pub fn unpack_u8(input: &[u8]) -> (r: Result<(u8, &[u8]), ProgramError>)
        ensures
            match r {
                Ok((value, rest)) => input@.len() >= 1 && value == input@[0] && rest@
                    == input@.skip(1),
                Err(e) => input@.len() < 1 && e == ProgramError::InvalidInstructionData,
            },
    {
        if input.len() >= 1 {
            let (amount, rest) = input.split_at(1);
            Ok((amount[0], rest))
        } else {
            Err(ProgramError::InvalidInstructionData)
        }
    }
}

/// The opcode table holds the opcodes of the commands and no others.
pub proof fn lemma_opcode_table(tag: u8)
    ensures
        SuperBondsInstruction::is_opcode(tag) <==> exists|cmd: SuperBondsInstruction|
            cmd.tag() == tag,
{
    if SuperBondsInstruction::is_opcode(tag) {
        // An opcode of the table followed by nine bytes fills its layout, and
        // the command read from it is a witness.
        let filled = seq![tag] + Seq::new(9, |i: int| 0u8);
        let cmd = SuperBondsInstruction::spec_unpack(filled)->Ok_0;
        assert(cmd.tag() == tag);
    }
}

/// The payload of a command has the width of its layout: no field, or the
/// widths of its fields added up.
pub proof fn lemma_payload_len(cmd: SuperBondsInstruction)
    ensures
        cmd.payload().len() == match cmd {
            SuperBondsInstruction::initPool { .. } => 4nat,
            SuperBondsInstruction::updateGovernanceOperatorAdmin { .. } => 2,
            SuperBondsInstruction::set_superbonds { .. } => 1,
            SuperBondsInstruction::trade { .. }
            | SuperBondsInstruction::deposit_trader_pool { .. }
            | SuperBondsInstruction::withdraw_fund { .. } => 8,
            SuperBondsInstruction::updateParameter { .. }
            | SuperBondsInstruction::add_remove_liq { .. }
            | SuperBondsInstruction::stake { .. }
            | SuperBondsInstruction::unstake { .. }
            | SuperBondsInstruction::distribute_farming_reward { .. } => 9,
            _ => 0,
        },
{
}

/// An instruction made of a command's opcode and the little-endian bytes of
/// its fields, in declared order, decodes to that command.
pub proof fn lemma_unpack_encoding(cmd: SuperBondsInstruction)
    ensures
        SuperBondsInstruction::spec_unpack(cmd.encoding()) == Ok::<
            SuperBondsInstruction,
            ProgramError,
        >(cmd),
{
    lemma_unpack_followed(cmd, Seq::empty());
    assert(cmd.encoding() + Seq::<u8>::empty() =~= cmd.encoding());
}

/// Bytes after the last field are ignored: a well-formed instruction followed
/// by anything decodes to the command that it decodes to alone.
pub proof fn lemma_unpack_trailing(cmd: SuperBondsInstruction, trailing: Seq<u8>)
    ensures
        SuperBondsInstruction::spec_unpack(cmd.encoding() + trailing)
            == SuperBondsInstruction::spec_unpack(cmd.encoding()),
        SuperBondsInstruction::spec_unpack(cmd.encoding() + trailing) == Ok::<
            SuperBondsInstruction,
            ProgramError,
        >(cmd),
{
    lemma_unpack_encoding(cmd);
    lemma_unpack_followed(cmd, trailing);
}

/// The fields of a command are read back from its instruction, whatever
/// follows it.
proof fn lemma_unpack_followed(cmd: SuperBondsInstruction, trailing: Seq<u8>)
    ensures
        SuperBondsInstruction::spec_unpack(cmd.encoding() + trailing) == Ok::<
            SuperBondsInstruction,
            ProgramError,
        >(cmd),
{
    let input = cmd.encoding() + trailing;
    let p = input.skip(1);
    lemma_payload_len(cmd);
    assert(input[0] == cmd.tag());
    assert(p =~= cmd.payload() + trailing);
    match cmd {
        SuperBondsInstruction::initPool { pool_length } => {
            lemma_u32_le_round_trip(pool_length, trailing);
        },
        SuperBondsInstruction::trade { usdc_in: v }
        | SuperBondsInstruction::deposit_trader_pool { amount: v }
        | SuperBondsInstruction::withdraw_fund { amount: v } => {
            lemma_u64_le_round_trip(v, trailing);
        },
        SuperBondsInstruction::updateParameter { value: v, .. }
        | SuperBondsInstruction::add_remove_liq { amount: v, .. }
        | SuperBondsInstruction::stake { amount: v, .. }
        | SuperBondsInstruction::unstake { amount: v, .. }
        | SuperBondsInstruction::distribute_farming_reward { amount: v, .. } => {
            lemma_u64_le_round_trip(v, trailing);
            assert(p.skip(1) =~= u64_to_le(v) + trailing);
        },
        _ => {},
    }
}

/// A well-formed instruction cut short, with its opcode kept, is invalid
/// instruction data.
pub proof fn lemma_unpack_truncated(cmd: SuperBondsInstruction, n: int)
    requires
        1 <= n < cmd.encoding().len(),
    ensures
        SuperBondsInstruction::spec_unpack(cmd.encoding().take(n)) == Err::<
            SuperBondsInstruction,
            ProgramError,
        >(ProgramError::InvalidInstructionData),
{
    lemma_payload_len(cmd);
}

/// An instruction whose first byte is no opcode of the table is invalid
/// instruction data, whatever follows that byte.
pub proof fn lemma_unpack_unknown_opcode(input: Seq<u8>)
    requires
        input.len() > 0,
        !SuperBondsInstruction::is_opcode(input[0]),
    ensures
        SuperBondsInstruction::spec_unpack(input) == Err::<SuperBondsInstruction, ProgramError>(
            ProgramError::InvalidInstructionData,
        ),
{
}

/// Nothing decodes but a well-formed instruction and what may follow it: the
/// instruction of the decoded command is the front of the input.
pub proof fn lemma_unpack_is_encoded(input: Seq<u8>, cmd: SuperBondsInstruction)
    requires
        SuperBondsInstruction::spec_unpack(input) == Ok::<SuperBondsInstruction, ProgramError>(
            cmd,
        ),
    ensures
        cmd.encoding().is_prefix_of(input),
{
    let p = input.skip(1);
    lemma_payload_len(cmd);
    match cmd {
        SuperBondsInstruction::initPool { .. } => {
            lemma_u32_le_bytes(p);
        },
        SuperBondsInstruction::trade { .. }
        | SuperBondsInstruction::deposit_trader_pool { .. }
        | SuperBondsInstruction::withdraw_fund { .. } => {
            lemma_u64_le_bytes(p);
        },
        SuperBondsInstruction::updateParameter { .. }
        | SuperBondsInstruction::add_remove_liq { .. }
        | SuperBondsInstruction::stake { .. }
        | SuperBondsInstruction::unstake { .. }
        | SuperBondsInstruction::distribute_farming_reward { .. } => {
            lemma_u64_le_bytes(p.skip(1));
        },
        _ => {},
    }
    assert(cmd.encoding() =~= input.take(cmd.encoding().len() as int));
}

/// An input decodes to a command exactly when it begins with the instruction
/// of that command; all else is invalid instruction data.
pub proof fn lemma_unpack_inverts_encoding(input: Seq<u8>, cmd: SuperBondsInstruction)
    ensures
        SuperBondsInstruction::spec_unpack(input) == Ok::<SuperBondsInstruction, ProgramError>(cmd)
            <==> cmd.encoding().is_prefix_of(input),
        SuperBondsInstruction::spec_unpack(input) is Err ==> SuperBondsInstruction::spec_unpack(
            input,
        ) == Err::<SuperBondsInstruction, ProgramError>(ProgramError::InvalidInstructionData),
{
    if SuperBondsInstruction::spec_unpack(input) == Ok::<SuperBondsInstruction, ProgramError>(cmd) {
        lemma_unpack_is_encoded(input, cmd);
    }
    if cmd.encoding().is_prefix_of(input) {
        let trailing = input.skip(cmd.encoding().len() as int);
        assert(input =~= cmd.encoding() + trailing);
        lemma_unpack_trailing(cmd, trailing);
    }
}

/// No instruction begins another: a command whose instruction is the front of
/// the instruction of a second command is that second command. So no two
/// commands share an instruction, and the opcode alone tells the layout.
pub proof fn lemma_encoding_prefix_free(a: SuperBondsInstruction, b: SuperBondsInstruction)
    requires
        a.encoding().is_prefix_of(b.encoding()),
    ensures
        a == b,
{
    lemma_unpack_inverts_encoding(b.encoding(), a);
    lemma_unpack_encoding(b);
}

} // verus!
