use geyser_postgres_transaction::message::{
    DbCompiledInstruction, DbLoadedAddresses, DbLoadedMessageV0, DbTransactionMessage,
    DbTransactionMessageAddressTableLookup, DbTransactionMessageHeader, DbTransactionMessageV0,
};
use geyser_postgres_transaction::replica::{
    CompiledInstruction, LoadedAddresses, Message, MessageAddressTableLookup, MessageHeader,
    MessageV0, VersionedMessage,
};
use solana_sdk::pubkey::Pubkey;

fn header() -> MessageHeader {
    MessageHeader {
        num_required_signatures: 1,
        num_readonly_signed_accounts: 0,
        num_readonly_unsigned_accounts: 255,
    }
}

fn instruction() -> CompiledInstruction {
    CompiledInstruction {
        program_id_index: 200,
        accounts: vec![0, 255],
        data: vec![7, 8, 9],
    }
}

fn legacy() -> Message {
    Message {
        header: header(),
        account_keys: vec![[1; 32], [2; 32]],
        recent_blockhash: [3; 32],
        instructions: vec![instruction()],
    }
}

fn v0() -> MessageV0 {
    MessageV0 {
        header: header(),
        account_keys: vec![[1; 32], [2; 32]],
        recent_blockhash: [3; 32],
        instructions: vec![instruction()],
        address_table_lookups: vec![
            MessageAddressTableLookup {
                account_key: [4; 32],
                writable_indexes: vec![1, 200],
                readonly_indexes: vec![],
            },
            MessageAddressTableLookup {
                account_key: [5; 32],
                writable_indexes: vec![],
                readonly_indexes: vec![9],
            },
        ],
    }
}

#[test]
fn a_header_is_widened() {
    let record = DbTransactionMessageHeader::from(&header());
    assert_eq!(record.num_required_signatures, 1i16);
    assert_eq!(record.num_readonly_signed_accounts, 0i16);
    assert_eq!(record.num_readonly_unsigned_accounts, 255i16);
}

#[test]
fn an_instruction_keeps_its_data_and_widens_its_indexes() {
    let record = DbCompiledInstruction::from(&instruction());
    assert_eq!(record.program_id_index, 200i16);
    assert_eq!(record.accounts, vec![0i16, 255]);
    assert_eq!(record.data, vec![7u8, 8, 9]);
}

#[test]
fn a_lookup_widens_its_indexes() {
    let record = DbTransactionMessageAddressTableLookup::from(&v0().address_table_lookups[0]);
    assert_eq!(record.account_key, vec![4u8; 32]);
    assert_eq!(record.writable_indexes, vec![1i16, 200]);
    assert_eq!(record.readonly_indexes, Vec::<i16>::new());
}

#[test]
fn a_legacy_message_is_stored_whole() {
    let record = DbTransactionMessage::from(&legacy());
    assert_eq!(record.header.num_readonly_unsigned_accounts, 255);
    assert_eq!(record.account_keys, vec![vec![1u8; 32], vec![2; 32]]);
    assert_eq!(record.recent_blockhash, vec![3u8; 32]);
    assert_eq!(record.instructions.len(), 1);
    assert_eq!(record.instructions[0].accounts, vec![0i16, 255]);
}

#[test]
fn a_version_0_message_is_stored_whole() {
    let record = DbTransactionMessageV0::from(&v0());
    assert_eq!(record.account_keys, vec![vec![1u8; 32], vec![2; 32]]);
    assert_eq!(record.recent_blockhash, vec![3u8; 32]);
    assert_eq!(record.instructions[0].program_id_index, 200);
    assert_eq!(record.address_table_lookups.len(), 2);
    assert_eq!(record.address_table_lookups[1].readonly_indexes, vec![9i16]);
}

#[test]
fn loaded_addresses_follow_the_lookups() {
    let record = DbLoadedMessageV0::from(&v0());
    assert_eq!(record.loaded_addresses.writable, vec![vec![1u8, 200], vec![]]);
    assert_eq!(record.loaded_addresses.readonly, vec![vec![], vec![9u8]]);
    let lookups = &record.message.address_table_lookups;
    for (indexes, lookup) in record.loaded_addresses.writable.iter().zip(lookups) {
        let widened: Vec<i16> = indexes.iter().map(|index| i16::from(*index)).collect();
        assert_eq!(widened, lookup.writable_indexes);
    }
}

#[test]
fn loaded_addresses_are_stored_byte_for_byte() {
    let record = DbLoadedAddresses::from(&LoadedAddresses {
        writable: vec![[6; 32]],
        readonly: vec![[7; 32], [8; 32]],
    });
    assert_eq!(record.writable, vec![vec![6u8; 32]]);
    assert_eq!(record.readonly, vec![vec![7u8; 32], vec![8; 32]]);
}

#[test]
fn the_hash_of_a_legacy_message_is_that_of_its_wire_format() {
    let mut wire = vec![1u8, 0, 255];
    wire.push(2);
    wire.extend([1u8; 32]);
    wire.extend([2u8; 32]);
    wire.extend([3u8; 32]);
    wire.push(1);
    wire.extend([200u8, 2, 0, 255, 3, 7, 8, 9]);
    let expected = solana_message::VersionedMessage::hash_raw_message(&wire);
    let message = VersionedMessage::Legacy(legacy());
    assert!(message.fits());
    assert_eq!(message.hash(), expected.to_bytes().to_vec());
}

#[test]
fn the_hash_of_a_version_0_message_is_that_of_its_wire_format() {
    let mut wire = vec![0x80u8, 1, 0, 255];
    wire.push(2);
    wire.extend([1u8; 32]);
    wire.extend([2u8; 32]);
    wire.extend([3u8; 32]);
    wire.push(1);
    wire.extend([200u8, 2, 0, 255, 3, 7, 8, 9]);
    wire.push(2);
    wire.extend([4u8; 32]);
    wire.extend([2u8, 1, 200, 0]);
    wire.extend([5u8; 32]);
    wire.extend([0u8, 1, 9]);
    let expected = solana_message::VersionedMessage::hash_raw_message(&wire);
    let message = VersionedMessage::V0(v0());
    assert!(message.fits());
    assert_eq!(message.hash(), expected.to_bytes().to_vec());
    assert_ne!(message.hash(), VersionedMessage::Legacy(legacy()).hash());
}

#[test]
fn the_hash_is_the_one_of_the_solana_message() {
    let expected = solana_message::VersionedMessage::V0(solana_message::v0::Message {
        header: solana_message::MessageHeader {
            num_required_signatures: 1,
            num_readonly_signed_accounts: 0,
            num_readonly_unsigned_accounts: 255,
        },
        account_keys: vec![Pubkey::from([1; 32]), Pubkey::from([2; 32])],
        recent_blockhash: [3; 32].into(),
        instructions: vec![solana_message::compiled_instruction::CompiledInstruction {
            program_id_index: 200,
            accounts: vec![0, 255],
            data: vec![7, 8, 9],
        }],
        address_table_lookups: vec![
            solana_message::v0::MessageAddressTableLookup {
                account_key: Pubkey::from([4; 32]),
                writable_indexes: vec![1, 200],
                readonly_indexes: vec![],
            },
            solana_message::v0::MessageAddressTableLookup {
                account_key: Pubkey::from([5; 32]),
                writable_indexes: vec![],
                readonly_indexes: vec![9],
            },
        ],
    })
    .hash();
    assert_eq!(VersionedMessage::V0(v0()).hash(), expected.to_bytes().to_vec());
}

#[test]
fn the_longest_lists_fit_and_longer_ones_do_not() {
    let mut message = legacy();
    message.instructions[0].data = vec![0; 65535];
    let message = VersionedMessage::Legacy(message);
    assert!(message.fits());
    assert_eq!(message.hash().len(), 32);

    let mut message = legacy();
    message.instructions[0].data = vec![0; 65536];
    assert!(!VersionedMessage::Legacy(message).fits());
    let mut message = legacy();
    message.instructions[0].accounts = vec![0; 65536];
    assert!(!VersionedMessage::Legacy(message).fits());
    let mut message = legacy();
    message.account_keys = vec![[0; 32]; 65536];
    assert!(!VersionedMessage::Legacy(message).fits());
    let mut message = v0();
    message.address_table_lookups[1].readonly_indexes = vec![0; 65536];
    assert!(!VersionedMessage::V0(message).fits());
    let mut message = v0();
    message.address_table_lookups[1].writable_indexes = vec![0; 65536];
    assert!(!VersionedMessage::V0(message).fits());
}
