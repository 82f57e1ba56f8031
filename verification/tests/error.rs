use geyser_postgres_transaction::error::{
    get_transaction_error, instruction_error_detail, DbTransactionError, DbTransactionErrorCode,
};
use geyser_postgres_transaction::replica::TransactionError;
use solana_sdk::instruction::InstructionError;

#[test]
fn every_error_is_stored_under_the_code_of_its_name() {
    let cases = vec![
        (TransactionError::AccountInUse, DbTransactionErrorCode::AccountInUse),
        (TransactionError::AccountLoadedTwice, DbTransactionErrorCode::AccountLoadedTwice),
        (TransactionError::AccountNotFound, DbTransactionErrorCode::AccountNotFound),
        (TransactionError::ProgramAccountNotFound, DbTransactionErrorCode::ProgramAccountNotFound),
        (TransactionError::InsufficientFundsForFee, DbTransactionErrorCode::InsufficientFundsForFee),
        (TransactionError::InvalidAccountForFee, DbTransactionErrorCode::InvalidAccountForFee),
        (TransactionError::AlreadyProcessed, DbTransactionErrorCode::AlreadyProcessed),
        (TransactionError::BlockhashNotFound, DbTransactionErrorCode::BlockhashNotFound),
        (
            TransactionError::InstructionError(3, InstructionError::CallDepth),
            DbTransactionErrorCode::InstructionError,
        ),
        (TransactionError::CallChainTooDeep, DbTransactionErrorCode::CallChainTooDeep),
        (TransactionError::MissingSignatureForFee, DbTransactionErrorCode::MissingSignatureForFee),
        (TransactionError::InvalidAccountIndex, DbTransactionErrorCode::InvalidAccountIndex),
        (TransactionError::SignatureFailure, DbTransactionErrorCode::SignatureFailure),
        (
            TransactionError::InvalidProgramForExecution,
            DbTransactionErrorCode::InvalidProgramForExecution,
        ),
        (TransactionError::SanitizeFailure, DbTransactionErrorCode::SanitizeFailure),
        (TransactionError::ClusterMaintenance, DbTransactionErrorCode::ClusterMaintenance),
        (
            TransactionError::AccountBorrowOutstanding,
            DbTransactionErrorCode::AccountBorrowOutstanding,
        ),
        (
            TransactionError::WouldExceedMaxBlockCostLimit,
            DbTransactionErrorCode::WouldExceedMaxBlockCostLimit,
        ),
        (TransactionError::UnsupportedVersion, DbTransactionErrorCode::UnsupportedVersion),
        (TransactionError::InvalidWritableAccount, DbTransactionErrorCode::InvalidWritableAccount),
        (
            TransactionError::WouldExceedMaxAccountCostLimit,
            DbTransactionErrorCode::WouldExceedMaxAccountCostLimit,
        ),
        (
            TransactionError::WouldExceedAccountDataBlockLimit,
            DbTransactionErrorCode::WouldExceedAccountDataBlockLimit,
        ),
        (TransactionError::TooManyAccountLocks, DbTransactionErrorCode::TooManyAccountLocks),
        (
            TransactionError::AddressLookupTableNotFound,
            DbTransactionErrorCode::AddressLookupTableNotFound,
        ),
        (
            TransactionError::InvalidAddressLookupTableOwner,
            DbTransactionErrorCode::InvalidAddressLookupTableOwner,
        ),
        (
            TransactionError::InvalidAddressLookupTableData,
            DbTransactionErrorCode::InvalidAddressLookupTableData,
        ),
        (
            TransactionError::InvalidAddressLookupTableIndex,
            DbTransactionErrorCode::InvalidAddressLookupTableIndex,
        ),
        (
            TransactionError::InvalidRentPayingAccount,
            DbTransactionErrorCode::InvalidRentPayingAccount,
        ),
        (
            TransactionError::WouldExceedMaxVoteCostLimit,
            DbTransactionErrorCode::WouldExceedMaxVoteCostLimit,
        ),
        (
            TransactionError::WouldExceedAccountDataTotalLimit,
            DbTransactionErrorCode::WouldExceedAccountDataTotalLimit,
        ),
        (TransactionError::DuplicateInstruction(9), DbTransactionErrorCode::DuplicateInstruction),
        (
            TransactionError::InsufficientFundsForRent { account_index: 1 },
            DbTransactionErrorCode::InsufficientFundsForRent,
        ),
        (
            TransactionError::MaxLoadedAccountsDataSizeExceeded,
            DbTransactionErrorCode::MaxLoadedAccountsDataSizeExceeded,
        ),
        (
            TransactionError::InvalidLoadedAccountsDataSizeLimit,
            DbTransactionErrorCode::InvalidLoadedAccountsDataSizeLimit,
        ),
        (TransactionError::ResanitizationNeeded, DbTransactionErrorCode::ResanitizationNeeded),
        (
            TransactionError::ProgramExecutionTemporarilyRestricted { account_index: 2 },
            DbTransactionErrorCode::ProgramExecutionTemporarilyRestricted,
        ),
        (TransactionError::UnbalancedTransaction, DbTransactionErrorCode::UnbalancedTransaction),
    ];
    assert_eq!(cases.len(), 37);
    for (error, code) in &cases {
        assert_eq!(error.code(), Some(*code));
        assert_eq!(DbTransactionErrorCode::from(error), *code);
    }
    for (i, (_, a)) in cases.iter().enumerate() {
        for (_, b) in &cases[i + 1..] {
            assert_ne!(a, b);
        }
        assert_ne!(*a, DbTransactionErrorCode::WouldExceedMaxAccountDataCostLimit);
    }
}

#[test]
fn two_errors_have_no_code() {
    assert_eq!(TransactionError::ProgramCacheHitMaxLimit.code(), None);
    assert_eq!(TransactionError::CommitCancelled.code(), None);
}

#[test]
fn a_success_has_no_error() {
    assert_eq!(get_transaction_error(&Ok(())), None);
}

#[test]
fn an_ordinary_failure_has_no_detail() {
    assert_eq!(
        get_transaction_error(&Err(TransactionError::DuplicateInstruction(4))),
        Some(DbTransactionError {
            error_code: DbTransactionErrorCode::DuplicateInstruction,
            error_detail: None,
        })
    );
}

#[test]
fn a_failed_instruction_is_described() {
    let cases = vec![
        (
            0u8,
            InstructionError::Custom(1),
            "InstructionError: idx (0), error: (custom program error: 0x1)",
        ),
        (
            42,
            InstructionError::GenericError,
            "InstructionError: idx (42), error: (generic instruction error)",
        ),
        (
            255,
            InstructionError::Custom(u32::MAX),
            "InstructionError: idx (255), error: (custom program error: 0xffffffff)",
        ),
        (
            100,
            InstructionError::AccountBorrowFailed,
            "InstructionError: idx (100), error: (instruction tries to borrow reference for an \
             account which is already borrowed)",
        ),
    ];
    for (idx, error, detail) in cases {
        assert_eq!(
            get_transaction_error(&Err(TransactionError::InstructionError(idx, error))),
            Some(DbTransactionError {
                error_code: DbTransactionErrorCode::InstructionError,
                error_detail: Some(detail.to_string()),
            })
        );
    }
}

#[test]
fn details_of_instruction_errors_are_short_and_ascii() {
    let errors = vec![
        InstructionError::AccountBorrowFailed,
        InstructionError::AccountDataSizeChanged,
        InstructionError::MaxAccountsDataAllocationsExceeded,
        InstructionError::PrivilegeEscalation,
        InstructionError::Custom(u32::MAX),
    ];
    for error in errors {
        let text = error.to_string();
        assert!(text.is_ascii());
        assert!(text.len() <= 100);
    }
}

#[test]
fn a_message_of_the_full_length_is_kept() {
    // 23 bytes before the index, 11 after it, and the closing parenthesis
    let error = "e".repeat(256 - 23 - 1 - 11 - 1);
    let detail = instruction_error_detail(7, &error);
    assert_eq!(detail.len(), 256);
    assert_eq!(detail, format!("InstructionError: idx (7), error: ({})", error));
}

#[test]
fn of_a_longer_message_the_tail_is_stored() {
    let error = format!("{}tail", "e".repeat(256 - 23 - 1 - 11));
    let detail = instruction_error_detail(7, &error);
    assert_eq!(detail, "tail)");
}

#[test]
fn a_message_is_cut_by_bytes() {
    // two bytes for each character, starting at an odd offset would split one
    let error = format!("e{}", "\u{e9}".repeat(120));
    let message = format!("InstructionError: idx (7), error: ({})", error);
    assert!(message.is_char_boundary(256));
    let detail = instruction_error_detail(7, &error);
    assert_eq!(detail.as_bytes(), &message.as_bytes()[256..]);
    assert_eq!(format!("{}{}", &message[..256], detail), message);
}
