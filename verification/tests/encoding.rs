use flash_loan::{Address, FlashLoanError, FlashLoanInstruction, Pool};

fn address(tag: u8) -> Address {
    let mut bytes = [tag; 32];
    for (i, b) in bytes.iter_mut().enumerate() {
        *b = b.wrapping_add(i as u8);
    }
    Address::new(bytes)
}

fn samples() -> Vec<FlashLoanInstruction> {
    vec![
        FlashLoanInstruction::InitPool {
            initial_amount: 1_000_000,
            fees_bps: 50,
            bump: 255,
            mint: address(9),
            lp_mint_bump: 254,
        },
        FlashLoanInstruction::InitPool {
            initial_amount: u64::MAX,
            fees_bps: u16::MAX,
            bump: 0,
            mint: address(0),
            lp_mint_bump: 0,
        },
        FlashLoanInstruction::LiquidatePool { pool_id: 0, token_amount: 1_000 },
        FlashLoanInstruction::LiquidatePool { pool_id: 255, token_amount: 0x0102_0304_0506_0708 },
        FlashLoanInstruction::DeLiquidatePool { pool_id: 0, lp_amount: 500 },
        FlashLoanInstruction::Borrow { pool_id: 0, amount: 1_000, mint: address(200), bump: 255 },
        FlashLoanInstruction::Borrow { pool_id: 3, amount: u64::MAX, mint: address(1), bump: 7 },
        FlashLoanInstruction::Repay { pool_id: 0, amount: 1_000 },
        FlashLoanInstruction::Repay { pool_id: 77, amount: 0 },
    ]
}

/// The encoding of the same operation by the serialization crate: the
/// variant's position, then the fields in order.
fn reference(op: &FlashLoanInstruction) -> Vec<u8> {
    match op {
        FlashLoanInstruction::InitPool { initial_amount, fees_bps, bump, mint, lp_mint_bump } => {
            borsh::to_vec(&(0u8, *initial_amount, *fees_bps, *bump, mint.bytes, *lp_mint_bump)).unwrap()
        }
        FlashLoanInstruction::LiquidatePool { pool_id, token_amount } => {
            borsh::to_vec(&(1u8, *pool_id, *token_amount)).unwrap()
        }
        FlashLoanInstruction::DeLiquidatePool { pool_id, lp_amount } => {
            borsh::to_vec(&(2u8, *pool_id, *lp_amount)).unwrap()
        }
        FlashLoanInstruction::Borrow { pool_id, amount, mint, bump } => {
            borsh::to_vec(&(3u8, *pool_id, *amount, mint.bytes, *bump)).unwrap()
        }
        FlashLoanInstruction::Repay { pool_id, amount } => {
            borsh::to_vec(&(4u8, *pool_id, *amount)).unwrap()
        }
    }
}

#[test]
fn operations_are_encoded_as_the_serialization_crate_encodes_them() {
    for op in samples() {
        assert_eq!(op.pack(), reference(&op));
    }
    let repay = FlashLoanInstruction::Repay { pool_id: 2, amount: 1_005 }.pack();
    assert_eq!(repay, vec![4, 2, 0xED, 0x03, 0, 0, 0, 0, 0, 0]);
}

#[test]
fn operations_are_decoded_from_their_encoding() {
    for op in samples() {
        assert_eq!(FlashLoanInstruction::unpack(&reference(&op)), Ok(op));
        assert_eq!(FlashLoanInstruction::unpack(&op.pack()), Ok(op));
    }
}

#[test]
fn operations_are_decoded_as_the_serialization_crate_decodes_them() {
    let data = FlashLoanInstruction::Borrow { pool_id: 3, amount: 123_456_789, mint: address(5), bump: 250 }.pack();
    let (tag, pool_id, amount, mint, bump): (u8, u8, u64, [u8; 32], u8) = borsh::from_slice(&data).unwrap();
    assert_eq!((tag, pool_id, amount, mint, bump), (3, 3, 123_456_789, address(5).bytes, 250));
    let data = FlashLoanInstruction::InitPool {
        initial_amount: 1_000_000,
        fees_bps: 50,
        bump: 255,
        mint: address(9),
        lp_mint_bump: 254,
    }
    .pack();
    let decoded: (u8, u64, u16, u8, [u8; 32], u8) = borsh::from_slice(&data).unwrap();
    assert_eq!(decoded, (0, 1_000_000, 50, 255, address(9).bytes, 254));
}

#[test]
fn malformed_operations_are_refused() {
    let refused = Err(FlashLoanError::InvalidInstructionData);
    assert_eq!(FlashLoanInstruction::unpack(&[]), refused);
    for tag in 5..=255u8 {
        assert_eq!(FlashLoanInstruction::unpack(&[tag; 10]), refused);
        assert_eq!(FlashLoanInstruction::unpack(&[tag; 43]), refused);
        assert_eq!(FlashLoanInstruction::unpack(&[tag; 45]), refused);
    }
    for op in samples() {
        let data = op.pack();
        let mut long = data.clone();
        long.push(0);
        assert_eq!(FlashLoanInstruction::unpack(&long), refused);
        for cut in 0..data.len() {
            assert_eq!(FlashLoanInstruction::unpack(&data[..cut]), refused);
        }
    }
}

fn pool() -> Pool {
    Pool {
        token_mint: address(1),
        lp_mint: address(2),
        vault: address(3),
        pool_id: 7,
        total_liquidity: 1_000_005,
        total_lp_supply: 1_000_000,
        fees_bps: 50,
        bump: 255,
        lp_mint_bump: 254,
    }
}

#[test]
fn pool_record_is_stored_field_by_field() {
    let p = pool();
    let data = p.pack();
    assert_eq!(data.len(), 117);
    assert_eq!(Pool::LEN, 117);
    let reference = borsh::to_vec(&(
        p.token_mint.bytes,
        p.lp_mint.bytes,
        p.vault.bytes,
        p.pool_id,
        p.total_liquidity,
        p.total_lp_supply,
        p.fees_bps,
        p.bump,
        p.lp_mint_bump,
    ))
    .unwrap();
    assert_eq!(data, reference);
    assert_eq!(Pool::unpack(&data), Ok(p));
    let empty = Pool { total_liquidity: 0, total_lp_supply: 0, ..p };
    assert_eq!(Pool::unpack(&empty.pack()), Ok(empty));
    let most = Pool { total_liquidity: u64::MAX, total_lp_supply: 1, fees_bps: 10_000, ..p };
    assert_eq!(Pool::unpack(&most.pack()), Ok(most));
}

#[test]
fn records_that_hold_no_consistent_pool_are_refused() {
    let refused = Err(FlashLoanError::InvalidAccountData);
    let data = pool().pack();
    assert_eq!(Pool::unpack(&[]), refused);
    assert_eq!(Pool::unpack(&data[..116]), refused);
    let mut long = data.clone();
    long.push(0);
    assert_eq!(Pool::unpack(&long), refused);
    assert_eq!(Pool::unpack(&[0u8; 128]), refused);
    // liquidity without shares, and shares without liquidity
    assert_eq!(Pool::unpack(&Pool { total_lp_supply: 0, ..pool() }.pack()), refused);
    assert_eq!(Pool::unpack(&Pool { total_liquidity: 0, ..pool() }.pack()), refused);
    // a fee above the whole
    assert_eq!(Pool::unpack(&Pool { fees_bps: 10_001, ..pool() }.pack()), refused);
    // an untouched record of the right length is an empty pool
    assert_eq!(Pool::unpack(&[0u8; 117]).map(|p| (p.total_liquidity, p.total_lp_supply)), Ok((0, 0)));
}

#[test]
fn addresses_are_read_from_and_written_to_bytes() {
    let mut data = vec![0xAAu8; 3];
    address(40).write_to(&mut data);
    data.push(0xBB);
    assert_eq!(data.len(), 36);
    assert_eq!(Address::from_slice(&data, 3), address(40));
    assert_eq!(address(40).to_vec(), data[3..35].to_vec());
    assert!(address(40).same_as(&Address::from_slice(&data, 3)));
    assert!(!address(40).same_as(&Address::from_slice(&data, 2)));
    let mut last = address(40);
    last.bytes[31] ^= 1;
    assert!(!address(40).same_as(&last));
}

#[test]
fn fields_are_little_endian() {
    let mut out = Vec::new();
    flash_loan::codec::write_u64(&mut out, 0x0102_0304_0506_0708);
    flash_loan::codec::write_u16(&mut out, 0x0A0B);
    assert_eq!(out, vec![8, 7, 6, 5, 4, 3, 2, 1, 0x0B, 0x0A]);
    assert_eq!(flash_loan::codec::read_u64(&out, 0), 0x0102_0304_0506_0708);
    assert_eq!(flash_loan::codec::read_u64(&out, 2), 0x0A0B_0102_0304_0506);
    assert_eq!(flash_loan::codec::read_u16(&out, 8), 0x0A0B);
    assert_eq!(flash_loan::codec::read_u16(&out, 0), 0x0708);
}
