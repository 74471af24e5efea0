//! The five operations and their binary encoding.
//!
//! An operation is encoded as one tag byte, its position in the list below,
//! followed by its fields in order: integers in little-endian order and
//! addresses as their 32 bytes. Nothing may follow the last field.
use vstd::prelude::*;
use vstd::bytes::{spec_u16_to_le_bytes, spec_u64_to_le_bytes};
use crate::address::{address_ext, Address};
use crate::codec::{
    read_back_u16, read_back_u64, read_u16, read_u64, spec_read_u16, spec_read_u64,
    write_back_u16, write_back_u64, write_u16, write_u64,
};
use crate::error::FlashLoanError;

verus! {

/// Tag of `InitPool`.
pub const TAG_INIT_POOL: u8 = 0;

/// Tag of `LiquidatePool`.
pub const TAG_LIQUIDATE_POOL: u8 = 1;

/// Tag of `DeLiquidatePool`.
pub const TAG_DELIQUIDATE_POOL: u8 = 2;

/// Tag of `Borrow`.
pub const TAG_BORROW: u8 = 3;

/// Tag of `Repay`.
pub const TAG_REPAY: u8 = 4;

/// Bytes in an encoded `InitPool`.
pub const INIT_POOL_LEN: usize = 45;

/// Bytes in an encoded `Borrow`.
pub const BORROW_LEN: usize = 43;

/// Bytes in an encoded `LiquidatePool`, `DeLiquidatePool` or `Repay`.
pub const AMOUNT_OP_LEN: usize = 10;

/// One step of a batch, addressed to the pool engine.
#[derive(Clone, Copy, Debug, PartialEq, Eq)]
pub enum FlashLoanInstruction {
    /// Creates a pool with its vault and its share mint.
    InitPool { initial_amount: u64, fees_bps: u16, bump: u8, mint: Address, lp_mint_bump: u8 },
    /// Deposits units of the asset for shares.
    LiquidatePool { pool_id: u8, token_amount: u64 },
    /// Redeems shares for units of the asset.
    DeLiquidatePool { pool_id: u8, lp_amount: u64 },
    /// Borrows from the vault; the next step must repay.
    Borrow { pool_id: u8, amount: u64, mint: Address, bump: u8 },
    /// Repays a loan with its fee.
    Repay { pool_id: u8, amount: u64 },
}

impl FlashLoanInstruction {
    /// The encoding of this operation.
    pub open spec fn spec_pack(self) -> Seq<u8> {
        match self {
            FlashLoanInstruction::InitPool { initial_amount, fees_bps, bump, mint, lp_mint_bump } => {
                seq![TAG_INIT_POOL] + spec_u64_to_le_bytes(initial_amount) + spec_u16_to_le_bytes(
                    fees_bps,
                ) + seq![bump] + mint@ + seq![lp_mint_bump]
            },
            FlashLoanInstruction::LiquidatePool { pool_id, token_amount } => {
                seq![TAG_LIQUIDATE_POOL, pool_id] + spec_u64_to_le_bytes(token_amount)
            },
            FlashLoanInstruction::DeLiquidatePool { pool_id, lp_amount } => {
                seq![TAG_DELIQUIDATE_POOL, pool_id] + spec_u64_to_le_bytes(lp_amount)
            },
            FlashLoanInstruction::Borrow { pool_id, amount, mint, bump } => {
                seq![TAG_BORROW, pool_id] + spec_u64_to_le_bytes(amount) + mint@ + seq![bump]
            },
            FlashLoanInstruction::Repay { pool_id, amount } => {
                seq![TAG_REPAY, pool_id] + spec_u64_to_le_bytes(amount)
            },
        }
    }

    /// Whether `data` encodes this operation.
    pub open spec fn encoded_as(self, data: Seq<u8>) -> bool {
        match self {
            FlashLoanInstruction::InitPool { initial_amount, fees_bps, bump, mint, lp_mint_bump } => {
                &&& data.len() == INIT_POOL_LEN
                &&& data[0] == TAG_INIT_POOL
                &&& initial_amount == spec_read_u64(data, 1)
                &&& fees_bps == spec_read_u16(data, 9)
                &&& bump == data[11]
                &&& mint@ == data.subrange(12, 44)
                &&& lp_mint_bump == data[44]
            },
            FlashLoanInstruction::LiquidatePool { pool_id, token_amount } => {
                &&& data.len() == AMOUNT_OP_LEN
                &&& data[0] == TAG_LIQUIDATE_POOL
                &&& pool_id == data[1]
                &&& token_amount == spec_read_u64(data, 2)
            },
            FlashLoanInstruction::DeLiquidatePool { pool_id, lp_amount } => {
                &&& data.len() == AMOUNT_OP_LEN
                &&& data[0] == TAG_DELIQUIDATE_POOL
                &&& pool_id == data[1]
                &&& lp_amount == spec_read_u64(data, 2)
            },
            FlashLoanInstruction::Borrow { pool_id, amount, mint, bump } => {
                &&& data.len() == BORROW_LEN
                &&& data[0] == TAG_BORROW
                &&& pool_id == data[1]
                &&& amount == spec_read_u64(data, 2)
                &&& mint@ == data.subrange(10, 42)
                &&& bump == data[42]
            },
            FlashLoanInstruction::Repay { pool_id, amount } => {
                &&& data.len() == AMOUNT_OP_LEN
                &&& data[0] == TAG_REPAY
                &&& pool_id == data[1]
                &&& amount == spec_read_u64(data, 2)
            },
        }
    }

    /// Whether `data` encodes one of the five operations: it starts with a
    /// known tag and has exactly the length of that operation.
    pub open spec fn is_encoding(data: Seq<u8>) -> bool {
        &&& data.len() > 0
        &&& if data[0] == TAG_INIT_POOL {
            data.len() == INIT_POOL_LEN
        } else if data[0] == TAG_BORROW {
            data.len() == BORROW_LEN
        } else {
            data[0] <= TAG_REPAY && data.len() == AMOUNT_OP_LEN
        }
    }

    /// Whether `data` encodes a repayment of `amount` to pool `pool_id`.
    pub open spec fn encodes_repay(data: Seq<u8>, pool_id: u8, amount: u64) -> bool {
        FlashLoanInstruction::Repay { pool_id, amount }.encoded_as(data)
    }

    /// Whether `data` encodes a loan of `amount` from pool `pool_id`, to be
    /// paid in the asset `mint`, under the salt `bump`.
    pub open spec fn encodes_borrow(data: Seq<u8>, pool_id: u8, amount: u64, mint: Address, bump: u8) -> bool {
        FlashLoanInstruction::Borrow { pool_id, amount, mint, bump }.encoded_as(data)
    }

    /// The operation that `data` encodes, where it encodes one.
    pub open spec fn spec_unpack(data: Seq<u8>) -> Option<FlashLoanInstruction> {
        if FlashLoanInstruction::is_encoding(data) {
            Some(choose|op: FlashLoanInstruction| op.encoded_as(data))
        } else {
            None
        }
    }

    /// Decodes an operation.
    ///
    /// Fails with `InvalidInstructionData` on an unknown tag, on missing
    /// bytes and on bytes after the last field.
    pub fn unpack(input: &[u8]) -> (decoded: Result<FlashLoanInstruction, FlashLoanError>)
        ensures
            decoded is Ok <==> FlashLoanInstruction::is_encoding(input@),
            decoded matches Ok(op) ==> op.encoded_as(input@) && FlashLoanInstruction::spec_unpack(
                input@,
            ) == Some(op),
            decoded matches Err(e) ==> e == FlashLoanError::InvalidInstructionData,
    {
        let decoded = FlashLoanInstruction::decode(input);
        proof {
            if let Ok(op) = decoded {
                let chosen = choose|other: FlashLoanInstruction| other.encoded_as(input@);
                op.encoding_is_unique(chosen, input@);
            }
        }
        decoded
    }

    /// Reads the tag and then the fields that belong to it.
    fn decode(input: &[u8]) -> (decoded: Result<FlashLoanInstruction, FlashLoanError>)
        ensures
            decoded is Ok <==> FlashLoanInstruction::is_encoding(input@),
            decoded matches Ok(op) ==> op.encoded_as(input@),
            decoded matches Err(e) ==> e == FlashLoanError::InvalidInstructionData,
    {
        if input.len() == 0 {
            return Err(FlashLoanError::InvalidInstructionData);
        }
        let tag = input[0];
        if tag == TAG_INIT_POOL {
            if input.len() != INIT_POOL_LEN {
                return Err(FlashLoanError::InvalidInstructionData);
            }
            Ok(
                FlashLoanInstruction::InitPool {
                    initial_amount: read_u64(input, 1),
                    fees_bps: read_u16(input, 9),
                    bump: input[11],
                    mint: Address::from_slice(input, 12),
                    lp_mint_bump: input[44],
                },
            )
        } else if tag == TAG_BORROW {
            if input.len() != BORROW_LEN {
                return Err(FlashLoanError::InvalidInstructionData);
            }
            Ok(
                FlashLoanInstruction::Borrow {
                    pool_id: input[1],
                    amount: read_u64(input, 2),
                    mint: Address::from_slice(input, 10),
                    bump: input[42],
                },
            )
        } else if tag <= TAG_REPAY {
            if input.len() != AMOUNT_OP_LEN {
                return Err(FlashLoanError::InvalidInstructionData);
            }
            let pool_id = input[1];
            let amount = read_u64(input, 2);
            if tag == TAG_LIQUIDATE_POOL {
                Ok(FlashLoanInstruction::LiquidatePool { pool_id, token_amount: amount })
            } else if tag == TAG_DELIQUIDATE_POOL {
                Ok(FlashLoanInstruction::DeLiquidatePool { pool_id, lp_amount: amount })
            } else {
                Ok(FlashLoanInstruction::Repay { pool_id, amount })
            }
        } else {
            Err(FlashLoanError::InvalidInstructionData)
        }
    }

    /// Encodes this operation.
    pub fn pack(&self) -> (bytes: Vec<u8>)
        ensures
            bytes@ == self.spec_pack(),
    {
        let mut bytes: Vec<u8> = Vec::new();
        match self {
            FlashLoanInstruction::InitPool { initial_amount, fees_bps, bump, mint, lp_mint_bump } => {
                bytes.push(TAG_INIT_POOL);
                write_u64(&mut bytes, *initial_amount);
                write_u16(&mut bytes, *fees_bps);
                bytes.push(*bump);
                mint.write_to(&mut bytes);
                bytes.push(*lp_mint_bump);
            },
            FlashLoanInstruction::LiquidatePool { pool_id, token_amount } => {
                bytes.push(TAG_LIQUIDATE_POOL);
                bytes.push(*pool_id);
                write_u64(&mut bytes, *token_amount);
            },
            FlashLoanInstruction::DeLiquidatePool { pool_id, lp_amount } => {
                bytes.push(TAG_DELIQUIDATE_POOL);
                bytes.push(*pool_id);
                write_u64(&mut bytes, *lp_amount);
            },
            FlashLoanInstruction::Borrow { pool_id, amount, mint, bump } => {
                bytes.push(TAG_BORROW);
                bytes.push(*pool_id);
                write_u64(&mut bytes, *amount);
                mint.write_to(&mut bytes);
                bytes.push(*bump);
            },
            FlashLoanInstruction::Repay { pool_id, amount } => {
                bytes.push(TAG_REPAY);
                bytes.push(*pool_id);
                write_u64(&mut bytes, *amount);
            },
        }
        assert(bytes@ =~= self.spec_pack());
        bytes
    }

    /// Every operation is decoded from its own encoding.
    pub proof fn unpack_of_pack(self)
        ensures
            FlashLoanInstruction::is_encoding(self.spec_pack()),
            self.encoded_as(self.spec_pack()),
    {
        let data = self.spec_pack();
        match self {
            FlashLoanInstruction::InitPool { initial_amount, fees_bps, bump, mint, lp_mint_bump } => {
                let head = seq![TAG_INIT_POOL];
                let amount = spec_u64_to_le_bytes(initial_amount);
                let fee = spec_u16_to_le_bytes(fees_bps);
                let tail = seq![bump] + mint@ + seq![lp_mint_bump];
                read_back_u64(head, initial_amount, fee + tail);
                read_back_u16(head + amount, fees_bps, tail);
                assert(data =~= head + amount + (fee + tail));
                assert(data =~= head + amount + fee + tail);
                assert(data.subrange(12, 44) =~= mint@);
            },
            FlashLoanInstruction::LiquidatePool { pool_id, token_amount } => {
                read_back_u64(seq![TAG_LIQUIDATE_POOL, pool_id], token_amount, Seq::empty());
                assert(data =~= seq![TAG_LIQUIDATE_POOL, pool_id] + spec_u64_to_le_bytes(token_amount)
                    + Seq::empty());
            },
            FlashLoanInstruction::DeLiquidatePool { pool_id, lp_amount } => {
                read_back_u64(seq![TAG_DELIQUIDATE_POOL, pool_id], lp_amount, Seq::empty());
                assert(data =~= seq![TAG_DELIQUIDATE_POOL, pool_id] + spec_u64_to_le_bytes(lp_amount)
                    + Seq::empty());
            },
            FlashLoanInstruction::Borrow { pool_id, amount, mint, bump } => {
                let tail = mint@ + seq![bump];
                read_back_u64(seq![TAG_BORROW, pool_id], amount, tail);
                assert(data =~= seq![TAG_BORROW, pool_id] + spec_u64_to_le_bytes(amount) + tail);
                assert(data.subrange(10, 42) =~= mint@);
            },
            FlashLoanInstruction::Repay { pool_id, amount } => {
                read_back_u64(seq![TAG_REPAY, pool_id], amount, Seq::empty());
                assert(data =~= seq![TAG_REPAY, pool_id] + spec_u64_to_le_bytes(amount)
                    + Seq::empty());
            },
        }
    }

    /// The encoding of the operation that was decoded from `data` is `data`.
    pub proof fn pack_of_unpack(self, data: Seq<u8>)
        requires
            self.encoded_as(data),
        ensures
            self.spec_pack() == data,
            FlashLoanInstruction::is_encoding(data),
    {
        match self {
            FlashLoanInstruction::InitPool { .. } => {
                write_back_u64(data, 1);
                write_back_u16(data, 9);
            },
            FlashLoanInstruction::Borrow { .. } => {
                write_back_u64(data, 2);
            },
            _ => {
                write_back_u64(data, 2);
            },
        }
        assert(self.spec_pack() =~= data);
    }

    /// Bytes that encode an operation decode to that operation.
    pub proof fn decodes_to_what_it_encodes(self, data: Seq<u8>)
        requires
            self.encoded_as(data),
        ensures
            FlashLoanInstruction::spec_unpack(data) == Some(self),
    {
        self.pack_of_unpack(data);
        let chosen = choose|op: FlashLoanInstruction| op.encoded_as(data);
        self.encoding_is_unique(chosen, data);
    }

    /// No byte string encodes two operations.
    pub proof fn encoding_is_unique(self, other: FlashLoanInstruction, data: Seq<u8>)
        requires
            self.encoded_as(data),
            other.encoded_as(data),
        ensures
            self == other,
    {
        match (self, other) {
            (
                FlashLoanInstruction::InitPool { mint: a, .. },
                FlashLoanInstruction::InitPool { mint: b, .. },
            ) => {
                address_ext(a, b);
            },
            (
                FlashLoanInstruction::Borrow { mint: a, .. },
                FlashLoanInstruction::Borrow { mint: b, .. },
            ) => {
                address_ext(a, b);
            },
            _ => {},
        }
    }
}

} // verus!
