use ledger_program::error::LedgerError;
use ledger_program::identity::Identity;
use ledger_program::instruction::{
    decode_instruction, encode_instruction, Command, CommandInstruction,
};
use ledger_program::record::{decode_record, encode_record, Data, RECORD_LEN};

fn owner() -> Identity {
    let mut bytes = [0u8; 32];
    let mut i = 0;
    while i < 32 {
        bytes[i] = (i as u8) + 1;
        i += 1;
    }
    Identity::new(bytes)
}

#[test]
fn record_layout_is_counter_then_balance_little_endian() {
    let bytes = encode_record(&Data { number: 0x0102_0304_0506_0708, balance: 258 });
    assert_eq!(
        bytes,
        vec![0x08, 0x07, 0x06, 0x05, 0x04, 0x03, 0x02, 0x01, 2, 1, 0, 0, 0, 0, 0, 0]
    );
    assert_eq!(bytes.len(), RECORD_LEN);
}

#[test]
fn record_decodes_from_its_layout() {
    let bytes = [1u8, 0, 0, 0, 0, 0, 0, 0, 0xff, 0xff, 0xff, 0xff, 0xff, 0xff, 0xff, 0xff];
    assert_eq!(decode_record(&bytes), Ok(Data { number: 1, balance: u64::MAX }));
}

#[test]
fn record_round_trips() {
    let records = [
        Data { number: 0, balance: 0 },
        Data { number: 0, balance: 100 },
        Data { number: u64::MAX, balance: u64::MAX },
        Data { number: 0x0123_4567_89ab_cdef, balance: 0xfedc_ba98_7654_3210 },
        Data { number: 1 << 63, balance: 255 },
        Data { number: 256, balance: 1 << 32 },
    ];
    for record in records.iter() {
        assert_eq!(decode_record(&encode_record(record)), Ok(*record));
    }
}

#[test]
fn stored_bytes_round_trip() {
    let mut bytes = [0u8; 16];
    let mut i = 0;
    while i < 16 {
        bytes[i] = 0xf0 ^ (i as u8).wrapping_mul(37);
        i += 1;
    }
    let record = decode_record(&bytes).unwrap();
    assert_eq!(encode_record(&record), bytes.to_vec());
}

#[test]
fn empty_slot_reads_as_the_zero_record() {
    assert_eq!(decode_record(&[]), Ok(Data { number: 0, balance: 0 }));
}

#[test]
fn zeroed_slot_reads_as_the_zero_record() {
    assert_eq!(decode_record(&[0u8; 16]), Ok(Data { number: 0, balance: 0 }));
}

#[test]
fn slot_of_another_length_is_not_a_record() {
    assert_eq!(decode_record(&[0u8; 1]), Err(LedgerError::MalformedRecord));
    assert_eq!(decode_record(&[0u8; 8]), Err(LedgerError::MalformedRecord));
    assert_eq!(decode_record(&[0u8; 15]), Err(LedgerError::MalformedRecord));
    assert_eq!(decode_record(&[0u8; 17]), Err(LedgerError::MalformedRecord));
    assert_eq!(decode_record(&[0u8; 32]), Err(LedgerError::MalformedRecord));
}

#[test]
fn record_bytes_are_those_of_the_reference_serializer() {
    let record = Data { number: 0x1122_3344_5566_7788, balance: 1_000_000_007 };
    let reference = bincode::serialize(&(record.number, record.balance)).unwrap();
    assert_eq!(encode_record(&record), reference);
    let (number, balance): (u64, u64) = bincode::deserialize(&encode_record(&record)).unwrap();
    assert_eq!(Data { number, balance }, record);
    assert_eq!(decode_record(&reference), Ok(record));
}

#[test]
fn deposit_layout_is_tag_amount_owner() {
    let bytes = encode_instruction(&CommandInstruction {
        command: Command::Deposit { amount: 100 },
        program_id: owner(),
    });
    let mut expected = vec![0u8, 0, 0, 0, 100, 0, 0, 0, 0, 0, 0, 0];
    expected.extend_from_slice(&owner().to_bytes());
    assert_eq!(bytes, expected);
    assert_eq!(bytes.len(), 44);
}

#[test]
fn withdraw_layout_is_tag_amount_owner() {
    let bytes = encode_instruction(&CommandInstruction {
        command: Command::Withdraw { amount: 0x0102 },
        program_id: owner(),
    });
    let mut expected = vec![1u8, 0, 0, 0, 2, 1, 0, 0, 0, 0, 0, 0];
    expected.extend_from_slice(&owner().to_bytes());
    assert_eq!(bytes, expected);
}

#[test]
fn check_balance_layout_is_tag_owner() {
    let bytes = encode_instruction(&CommandInstruction {
        command: Command::CheckBalance,
        program_id: owner(),
    });
    let mut expected = vec![2u8, 0, 0, 0];
    expected.extend_from_slice(&owner().to_bytes());
    assert_eq!(bytes, expected);
    assert_eq!(bytes.len(), 36);
}

#[test]
fn instruction_round_trips() {
    let commands = [
        Command::Deposit { amount: 1 },
        Command::Deposit { amount: u64::MAX },
        Command::Deposit { amount: 0 },
        Command::Withdraw { amount: 50 },
        Command::Withdraw { amount: 0x0123_4567_89ab_cdef },
        Command::CheckBalance,
    ];
    for command in commands.iter() {
        let instruction = CommandInstruction { command: *command, program_id: owner() };
        let decoded = decode_instruction(&encode_instruction(&instruction)).unwrap();
        assert_eq!(decoded, instruction);
        assert_eq!(decoded.command, *command);
        assert_eq!(decoded.program_id, owner());
    }
}

#[test]
fn instruction_bytes_round_trip() {
    let mut bytes = vec![1u8, 0, 0, 0, 9, 8, 7, 6, 5, 4, 3, 2];
    bytes.extend_from_slice(&[0xabu8; 32]);
    let decoded = decode_instruction(&bytes).unwrap();
    assert_eq!(decoded.command, Command::Withdraw { amount: 0x0203_0405_0607_0809 });
    assert_eq!(decoded.program_id, Identity::new([0xab; 32]));
    assert_eq!(encode_instruction(&decoded), bytes);
}

#[test]
fn unknown_tag_is_refused() {
    let mut bytes = vec![3u8, 0, 0, 0];
    bytes.extend_from_slice(&[0u8; 32]);
    assert_eq!(decode_instruction(&bytes), Err(LedgerError::MalformedInstruction));
    let mut wide = vec![0u8, 1, 0, 0, 1, 0, 0, 0, 0, 0, 0, 0];
    wide.extend_from_slice(&[0u8; 32]);
    assert_eq!(decode_instruction(&wide), Err(LedgerError::MalformedInstruction));
    let mut high = vec![2u8, 0, 0, 0x80];
    high.extend_from_slice(&[0u8; 32]);
    assert_eq!(decode_instruction(&high), Err(LedgerError::MalformedInstruction));
}

#[test]
fn truncated_instruction_is_refused() {
    let full = encode_instruction(&CommandInstruction {
        command: Command::Deposit { amount: 100 },
        program_id: owner(),
    });
    let mut len = 0;
    while len < full.len() {
        assert_eq!(decode_instruction(&full[..len]), Err(LedgerError::MalformedInstruction));
        len += 1;
    }
    let check = encode_instruction(&CommandInstruction {
        command: Command::CheckBalance,
        program_id: owner(),
    });
    assert_eq!(decode_instruction(&check[..35]), Err(LedgerError::MalformedInstruction));
    assert_eq!(decode_instruction(&[]), Err(LedgerError::MalformedInstruction));
}

#[test]
fn trailing_bytes_are_refused() {
    let mut deposit = encode_instruction(&CommandInstruction {
        command: Command::Deposit { amount: 100 },
        program_id: owner(),
    });
    deposit.push(0);
    assert_eq!(decode_instruction(&deposit), Err(LedgerError::MalformedInstruction));
    let mut check = encode_instruction(&CommandInstruction {
        command: Command::CheckBalance,
        program_id: owner(),
    });
    check.extend_from_slice(&[0u8; 8]);
    assert_eq!(check.len(), 44);
    assert_eq!(decode_instruction(&check), Err(LedgerError::MalformedInstruction));
}

#[test]
fn instruction_bytes_are_those_of_the_reference_serializer() {
    let id = owner();
    let deposit = bincode::serialize(&(0u32, 100u64, id.to_bytes())).unwrap();
    assert_eq!(
        encode_instruction(&CommandInstruction {
            command: Command::Deposit { amount: 100 },
            program_id: id,
        }),
        deposit
    );
    let withdraw = bincode::serialize(&(1u32, u64::MAX - 1, id.to_bytes())).unwrap();
    assert_eq!(
        decode_instruction(&withdraw),
        Ok(CommandInstruction { command: Command::Withdraw { amount: u64::MAX - 1 }, program_id: id })
    );
    let check = bincode::serialize(&(2u32, id.to_bytes())).unwrap();
    assert_eq!(
        decode_instruction(&check),
        Ok(CommandInstruction { command: Command::CheckBalance, program_id: id })
    );
    let (tag, claimed): (u32, [u8; 32]) = bincode::deserialize(&encode_instruction(
        &CommandInstruction { command: Command::CheckBalance, program_id: id },
    ))
    .unwrap();
    assert_eq!(tag, 2);
    assert_eq!(claimed, id.to_bytes());
}

#[test]
fn identity_keeps_its_bytes() {
    let id = owner();
    assert_eq!(id.to_bytes()[0], 1);
    assert_eq!(id.to_bytes()[31], 32);
    assert_eq!(Identity::new(id.to_bytes()), id);
    assert_ne!(Identity::new([0u8; 32]), id);
}
