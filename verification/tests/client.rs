use geyser_postgres_transaction::client::{
    build_transaction_info_upsert_statement, log_transaction_impl, report_persistence,
    report_preparation, report_queueing, ConfigText, GeyserPluginError,
    GeyserPluginPostgresError, LogTransactionRequest, ParallelPostgresClient,
    TransactionParameter, TRANSACTION_UPSERT,
};
use geyser_postgres_transaction::replica::{
    CompiledInstruction, Message, MessageAddressTableLookup, MessageHeader, MessageV0,
    ReplicaTransactionInfoV3, TransactionError, TransactionStatusMeta, VersionedMessage,
    VersionedTransaction,
};
use geyser_postgres_transaction::transaction::{
    build_db_transaction, build_db_transaction_with_hash,
};

fn header() -> MessageHeader {
    MessageHeader {
        num_required_signatures: 1,
        num_readonly_signed_accounts: 0,
        num_readonly_unsigned_accounts: 1,
    }
}

fn legacy() -> VersionedMessage {
    VersionedMessage::Legacy(Message {
        header: header(),
        account_keys: vec![[1; 32], [2; 32]],
        recent_blockhash: [3; 32],
        instructions: vec![CompiledInstruction {
            program_id_index: 1,
            accounts: vec![0],
            data: vec![7, 8],
        }],
    })
}

fn v0() -> VersionedMessage {
    VersionedMessage::V0(MessageV0 {
        header: header(),
        account_keys: vec![[1; 32]],
        recent_blockhash: [3; 32],
        instructions: vec![],
        address_table_lookups: vec![MessageAddressTableLookup {
            account_key: [4; 32],
            writable_indexes: vec![5],
            readonly_indexes: vec![6, 7],
        }],
    })
}

fn info(message: VersionedMessage, status: Result<(), TransactionError>) -> ReplicaTransactionInfoV3 {
    ReplicaTransactionInfoV3 {
        signature: [9; 64],
        is_vote: true,
        transaction: VersionedTransaction {
            signatures: vec![[9; 64], [10; 64]],
            message,
        },
        transaction_status_meta: TransactionStatusMeta {
            status,
            fee: 5000,
            pre_balances: vec![1],
            post_balances: vec![2],
            inner_instructions: None,
            log_messages: None,
            pre_token_balances: None,
            post_token_balances: None,
            rewards: None,
        },
        index: 17,
    }
}

fn config() -> ConfigText {
    ConfigText {
        host: "Some(\"localhost\")".to_string(),
        user: "None".to_string(),
        config: "Config { .. }".to_string(),
    }
}

#[test]
fn a_legacy_transaction_is_stored() {
    let row = build_db_transaction(100, &info(legacy(), Ok(())), 3);
    assert_eq!(row.signature, vec![9u8; 64]);
    assert!(row.is_vote);
    assert_eq!(row.slot, 100);
    assert_eq!(row.message_type, 0);
    assert_eq!(row.legacy_message.unwrap().account_keys.len(), 2);
    assert!(row.v0_loaded_message.is_none());
    assert_eq!(row.signatures, vec![vec![9u8; 64], vec![10; 64]]);
    assert_eq!(row.message_hash, legacy().hash());
    assert_eq!(row.meta.fee, 5000);
    assert_eq!(row.write_version, 3);
    assert_eq!(row.index, 17);
}

#[test]
fn a_version_0_transaction_is_stored() {
    let row = build_db_transaction(u64::MAX, &info(v0(), Ok(())), u64::MAX);
    assert_eq!(row.slot, -1);
    assert_eq!(row.write_version, -1);
    assert_eq!(row.message_type, 1);
    assert!(row.legacy_message.is_none());
    let loaded = row.v0_loaded_message.unwrap();
    assert_eq!(loaded.loaded_addresses.readonly, vec![vec![6u8, 7]]);
    assert_eq!(row.message_hash, v0().hash());
}

#[test]
fn a_given_hash_is_stored() {
    let row = build_db_transaction_with_hash(1, &info(v0(), Ok(())), 2, vec![1, 2, 3]);
    assert_eq!(row.message_hash, vec![1u8, 2, 3]);
    assert_eq!(row.message_type, 1);
}

#[test]
fn transactions_without_a_stored_form_are_told_apart() {
    assert!(info(legacy(), Ok(())).can_be_stored());
    assert!(info(legacy(), Err(TransactionError::AccountInUse)).can_be_stored());
    assert!(!info(legacy(), Err(TransactionError::CommitCancelled)).can_be_stored());
    assert!(!info(v0(), Err(TransactionError::ProgramCacheHitMaxLimit)).can_be_stored());
    let message = VersionedMessage::Legacy(Message {
        header: header(),
        account_keys: vec![],
        recent_blockhash: [3; 32],
        instructions: vec![CompiledInstruction {
            program_id_index: 1,
            accounts: vec![],
            data: vec![0; 65536],
        }],
    });
    assert!(!info(message, Ok(())).can_be_stored());
}

#[test]
fn the_statement_names_a_parameter_for_each_column() {
    assert_eq!(
        TRANSACTION_UPSERT,
        "INSERT INTO transaction AS txn (signature, is_vote, slot, message_type, legacy_message, v0_loaded_message, signatures, message_hash, meta, write_version, index, updated_on) VALUES ($1, $2, $3, $4, $5, $6, $7, $8, $9, $10, $11, $12) ON CONFLICT (slot, signature) DO UPDATE SET is_vote=excluded.is_vote, message_type=excluded.message_type, legacy_message=excluded.legacy_message, v0_loaded_message=excluded.v0_loaded_message, signatures=excluded.signatures, message_hash=excluded.message_hash, meta=excluded.meta, write_version=excluded.write_version, index=excluded.index,\n        updated_on=excluded.updated_on"
    );
    let open = TRANSACTION_UPSERT.find('(').unwrap();
    let close = TRANSACTION_UPSERT.find(')').unwrap();
    let columns: Vec<&str> = TRANSACTION_UPSERT[open + 1..close].split(", ").collect();
    let request = LogTransactionRequest {
        transaction_info: build_db_transaction(100, &info(legacy(), Ok(())), 3),
    };
    let row = &request.transaction_info;
    let values = request.parameters("now");
    assert_eq!(columns.len(), values.len());
    for (i, (column, value)) in columns.iter().zip(&values).enumerate() {
        assert!(TRANSACTION_UPSERT.contains(&format!("${}", i + 1)));
        let matches = match (*column, value) {
            ("signature", TransactionParameter::Bytes(value)) => **value == row.signature,
            ("is_vote", TransactionParameter::Bool(value)) => **value == row.is_vote,
            ("slot", TransactionParameter::BigInt(value)) => **value == row.slot,
            ("message_type", TransactionParameter::SmallInt(value)) => **value == row.message_type,
            ("legacy_message", TransactionParameter::LegacyMessage(value)) => value.is_some(),
            ("v0_loaded_message", TransactionParameter::V0LoadedMessage(value)) => value.is_none(),
            ("signatures", TransactionParameter::ByteStrings(value)) => **value == row.signatures,
            ("message_hash", TransactionParameter::Bytes(value)) => **value == row.message_hash,
            ("meta", TransactionParameter::Meta(value)) => value.fee == 5000,
            ("write_version", TransactionParameter::BigInt(value)) => **value == row.write_version,
            ("index", TransactionParameter::BigInt(value)) => **value == row.index,
            ("updated_on", TransactionParameter::Timestamp(value)) => *value == "now",
            _ => false,
        };
        assert!(matches, "{}", column);
    }
}

#[test]
fn the_statement_is_prepared() {
    let mut seen = String::new();
    let result = build_transaction_info_upsert_statement(
        |statement: &str| {
            seen = statement.to_string();
            Ok(7)
        },
        &config(),
    );
    assert_eq!(result, Ok(7));
    assert_eq!(seen, TRANSACTION_UPSERT);
}

#[test]
fn a_statement_that_cannot_be_prepared_is_a_schema_error() {
    let expected = GeyserPluginError::Custom(GeyserPluginPostgresError::DataSchemaError {
        msg: "Error in preparing for the transaction update PostgreSQL database: (no table) host: Some(\"localhost\") user: None config: Config { .. }".to_string(),
    });
    let result: Result<u8, GeyserPluginError> = build_transaction_info_upsert_statement(
        |_statement: &str| Err("no table".to_string()),
        &config(),
    );
    assert_eq!(result, Err(expected));
    let reported: Result<u8, GeyserPluginError> = report_preparation(Ok(3), &config());
    assert_eq!(reported, Ok(3));
}

#[test]
fn a_row_is_written_with_all_its_values() {
    let request = LogTransactionRequest {
        transaction_info: build_db_transaction(100, &info(legacy(), Ok(())), 3),
    };
    let mut count = 0;
    let result = log_transaction_impl(request, 1u8, |values: Vec<TransactionParameter<u8>>| {
        count = values.len();
        Ok(())
    });
    assert_eq!(result, Ok(()));
    assert_eq!(count, 12);
}

#[test]
fn a_row_that_cannot_be_written_is_reported() {
    let request = LogTransactionRequest {
        transaction_info: build_db_transaction(100, &info(legacy(), Ok(())), 3),
    };
    let result = log_transaction_impl(request, 1u8, |_values: Vec<TransactionParameter<u8>>| {
        Err("Closed".to_string())
    });
    let expected = GeyserPluginError::AccountsUpdateError {
        msg: "Failed to persist the update of transaction info to the PostgreSQL database. Error: Closed".to_string(),
    };
    assert_eq!(result, Err(expected));
    assert_eq!(report_persistence(Ok(())), Ok(()));
}

#[test]
fn logged_transactions_get_growing_write_versions() {
    let mut client = ParallelPostgresClient {
        transaction_write_version: 0,
    };
    let mut versions: Vec<i64> = Vec::new();
    for slot in [5u64, 5, 6] {
        let result = client.log_transaction_info(
            &info(v0(), Ok(())),
            slot,
            |request: LogTransactionRequest| {
                assert_eq!(request.transaction_info.slot, slot as i64);
                versions.push(request.transaction_info.write_version);
                Ok(())
            },
        );
        assert_eq!(result, Ok(()));
    }
    assert_eq!(versions, vec![1, 2, 3]);
    assert_eq!(client.transaction_write_version, 3);
}

#[test]
fn a_row_that_cannot_be_queued_uses_up_its_write_version() {
    let mut client = ParallelPostgresClient {
        transaction_write_version: 41,
    };
    let result = client.log_transaction_info(
        &info(legacy(), Err(TransactionError::AccountInUse)),
        1,
        |_request: LogTransactionRequest| Err("SendError".to_string()),
    );
    let expected = GeyserPluginError::SlotStatusUpdateError {
        msg: "Failed to update the transaction, error: SendError".to_string(),
    };
    assert_eq!(result, Err(expected));
    assert_eq!(client.transaction_write_version, 42);
    assert_eq!(report_queueing(Ok(())), Ok(()));
}

#[test]
fn write_versions_start_again_after_the_largest() {
    let mut client = ParallelPostgresClient {
        transaction_write_version: u64::MAX,
    };
    let result = client.log_transaction_info(
        &info(legacy(), Ok(())),
        1,
        |request: LogTransactionRequest| {
            assert_eq!(request.transaction_info.write_version, 0);
            Ok(())
        },
    );
    assert_eq!(result, Ok(()));
    assert_eq!(client.transaction_write_version, 0);
}

#[test]
fn a_request_holds_the_row() {
    let request = ParallelPostgresClient::build_transaction_request(8, &info(legacy(), Ok(())), 9);
    assert_eq!(request.transaction_info.slot, 8);
    assert_eq!(request.transaction_info.write_version, 9);
}
