//! The error column of a stored transaction.
use crate::number::{decimal, digit};
use crate::replica::TransactionError;
use solana_sdk::instruction::InstructionError;
use vstd::prelude::*;
use vstd::utf8::{
    decode_utf8, encode_utf8, encode_utf8_decode_utf8, is_ascii_chars, is_ascii_chars_encode_utf8,
    is_char_boundary,
};

verus! {

/// The number of bytes that an error detail can have without being cut.
pub const MAX_TRANSACTION_STATUS_LEN: usize = 256;

/// The error codes that the database knows.
#[derive(Clone, Copy, Debug, PartialEq, Eq, Structural)]
pub enum DbTransactionErrorCode {
    AccountInUse,
    AccountLoadedTwice,
    AccountNotFound,
    ProgramAccountNotFound,
    InsufficientFundsForFee,
    InvalidAccountForFee,
    AlreadyProcessed,
    BlockhashNotFound,
    InstructionError,
    CallChainTooDeep,
    MissingSignatureForFee,
    InvalidAccountIndex,
    SignatureFailure,
    InvalidProgramForExecution,
    SanitizeFailure,
    ClusterMaintenance,
    AccountBorrowOutstanding,
    WouldExceedMaxAccountCostLimit,
    WouldExceedMaxBlockCostLimit,
    UnsupportedVersion,
    InvalidWritableAccount,
    WouldExceedMaxAccountDataCostLimit,
    TooManyAccountLocks,
    AddressLookupTableNotFound,
    InvalidAddressLookupTableOwner,
    InvalidAddressLookupTableData,
    InvalidAddressLookupTableIndex,
    InvalidRentPayingAccount,
    WouldExceedMaxVoteCostLimit,
    WouldExceedAccountDataBlockLimit,
    WouldExceedAccountDataTotalLimit,
    DuplicateInstruction,
    InsufficientFundsForRent,
    MaxLoadedAccountsDataSizeExceeded,
    InvalidLoadedAccountsDataSizeLimit,
    ResanitizationNeeded,
    UnbalancedTransaction,
    ProgramExecutionTemporarilyRestricted,
}

/// The code under which an error is stored: the one of its name. `None` for the errors that the
/// database has no code for.
pub open spec fn error_code(err: TransactionError) -> Option<DbTransactionErrorCode> {
    match err {
        TransactionError::AccountInUse => Some(DbTransactionErrorCode::AccountInUse),
        TransactionError::AccountLoadedTwice => Some(DbTransactionErrorCode::AccountLoadedTwice),
        TransactionError::AccountNotFound => Some(DbTransactionErrorCode::AccountNotFound),
        TransactionError::ProgramAccountNotFound => Some(
            DbTransactionErrorCode::ProgramAccountNotFound,
        ),
        TransactionError::InsufficientFundsForFee => Some(
            DbTransactionErrorCode::InsufficientFundsForFee,
        ),
        TransactionError::InvalidAccountForFee => Some(
            DbTransactionErrorCode::InvalidAccountForFee,
        ),
        TransactionError::AlreadyProcessed => Some(DbTransactionErrorCode::AlreadyProcessed),
        TransactionError::BlockhashNotFound => Some(DbTransactionErrorCode::BlockhashNotFound),
        TransactionError::InstructionError(_, _) => Some(DbTransactionErrorCode::InstructionError),
        TransactionError::CallChainTooDeep => Some(DbTransactionErrorCode::CallChainTooDeep),
        TransactionError::MissingSignatureForFee => Some(
            DbTransactionErrorCode::MissingSignatureForFee,
        ),
        TransactionError::InvalidAccountIndex => Some(DbTransactionErrorCode::InvalidAccountIndex),
        TransactionError::SignatureFailure => Some(DbTransactionErrorCode::SignatureFailure),
        TransactionError::InvalidProgramForExecution => Some(
            DbTransactionErrorCode::InvalidProgramForExecution,
        ),
        TransactionError::SanitizeFailure => Some(DbTransactionErrorCode::SanitizeFailure),
        TransactionError::ClusterMaintenance => Some(DbTransactionErrorCode::ClusterMaintenance),
        TransactionError::AccountBorrowOutstanding => Some(
            DbTransactionErrorCode::AccountBorrowOutstanding,
        ),
        TransactionError::WouldExceedMaxBlockCostLimit => Some(
            DbTransactionErrorCode::WouldExceedMaxBlockCostLimit,
        ),
        TransactionError::UnsupportedVersion => Some(DbTransactionErrorCode::UnsupportedVersion),
        TransactionError::InvalidWritableAccount => Some(
            DbTransactionErrorCode::InvalidWritableAccount,
        ),
        TransactionError::WouldExceedMaxAccountCostLimit => Some(
            DbTransactionErrorCode::WouldExceedMaxAccountCostLimit,
        ),
        TransactionError::WouldExceedAccountDataBlockLimit => Some(
            DbTransactionErrorCode::WouldExceedAccountDataBlockLimit,
        ),
        TransactionError::TooManyAccountLocks => Some(DbTransactionErrorCode::TooManyAccountLocks),
        TransactionError::AddressLookupTableNotFound => Some(
            DbTransactionErrorCode::AddressLookupTableNotFound,
        ),
        TransactionError::InvalidAddressLookupTableOwner => Some(
            DbTransactionErrorCode::InvalidAddressLookupTableOwner,
        ),
        TransactionError::InvalidAddressLookupTableData => Some(
            DbTransactionErrorCode::InvalidAddressLookupTableData,
        ),
        TransactionError::InvalidAddressLookupTableIndex => Some(
            DbTransactionErrorCode::InvalidAddressLookupTableIndex,
        ),
        TransactionError::InvalidRentPayingAccount => Some(
            DbTransactionErrorCode::InvalidRentPayingAccount,
        ),
        TransactionError::WouldExceedMaxVoteCostLimit => Some(
            DbTransactionErrorCode::WouldExceedMaxVoteCostLimit,
        ),
        TransactionError::WouldExceedAccountDataTotalLimit => Some(
            DbTransactionErrorCode::WouldExceedAccountDataTotalLimit,
        ),
        TransactionError::DuplicateInstruction(_) => Some(
            DbTransactionErrorCode::DuplicateInstruction,
        ),
        TransactionError::InsufficientFundsForRent { .. } => Some(
            DbTransactionErrorCode::InsufficientFundsForRent,
        ),
        TransactionError::MaxLoadedAccountsDataSizeExceeded => Some(
            DbTransactionErrorCode::MaxLoadedAccountsDataSizeExceeded,
        ),
        TransactionError::InvalidLoadedAccountsDataSizeLimit => Some(
            DbTransactionErrorCode::InvalidLoadedAccountsDataSizeLimit,
        ),
        TransactionError::ResanitizationNeeded => Some(
            DbTransactionErrorCode::ResanitizationNeeded,
        ),
        TransactionError::ProgramExecutionTemporarilyRestricted { .. } => Some(
            DbTransactionErrorCode::ProgramExecutionTemporarilyRestricted,
        ),
        TransactionError::UnbalancedTransaction => Some(
            DbTransactionErrorCode::UnbalancedTransaction,
        ),
        TransactionError::ProgramCacheHitMaxLimit => None,
        TransactionError::CommitCancelled => None,
    }
}

impl TransactionError {
    /// The code under which this error is stored, if the database has one for it.
    pub fn code(&self) -> (code: Option<DbTransactionErrorCode>)
        ensures
            code == error_code(*self),
    {
        let code = match self {
            TransactionError::AccountInUse => DbTransactionErrorCode::AccountInUse,
            TransactionError::AccountLoadedTwice => DbTransactionErrorCode::AccountLoadedTwice,
            TransactionError::AccountNotFound => DbTransactionErrorCode::AccountNotFound,
            TransactionError::ProgramAccountNotFound => {
                DbTransactionErrorCode::ProgramAccountNotFound
            },
            TransactionError::InsufficientFundsForFee => {
                DbTransactionErrorCode::InsufficientFundsForFee
            },
            TransactionError::InvalidAccountForFee => DbTransactionErrorCode::InvalidAccountForFee,
            TransactionError::AlreadyProcessed => DbTransactionErrorCode::AlreadyProcessed,
            TransactionError::BlockhashNotFound => DbTransactionErrorCode::BlockhashNotFound,
            TransactionError::InstructionError(_, _) => DbTransactionErrorCode::InstructionError,
            TransactionError::CallChainTooDeep => DbTransactionErrorCode::CallChainTooDeep,
            TransactionError::MissingSignatureForFee => {
                DbTransactionErrorCode::MissingSignatureForFee
            },
            TransactionError::InvalidAccountIndex => DbTransactionErrorCode::InvalidAccountIndex,
            TransactionError::SignatureFailure => DbTransactionErrorCode::SignatureFailure,
            TransactionError::InvalidProgramForExecution => {
                DbTransactionErrorCode::InvalidProgramForExecution
            },
            TransactionError::SanitizeFailure => DbTransactionErrorCode::SanitizeFailure,
            TransactionError::ClusterMaintenance => DbTransactionErrorCode::ClusterMaintenance,
            TransactionError::AccountBorrowOutstanding => {
                DbTransactionErrorCode::AccountBorrowOutstanding
            },
            TransactionError::WouldExceedMaxBlockCostLimit => {
                DbTransactionErrorCode::WouldExceedMaxBlockCostLimit
            },
            TransactionError::UnsupportedVersion => DbTransactionErrorCode::UnsupportedVersion,
            TransactionError::InvalidWritableAccount => {
                DbTransactionErrorCode::InvalidWritableAccount
            },
            TransactionError::WouldExceedMaxAccountCostLimit => {
                DbTransactionErrorCode::WouldExceedMaxAccountCostLimit
            },
            TransactionError::WouldExceedAccountDataBlockLimit => {
                DbTransactionErrorCode::WouldExceedAccountDataBlockLimit
            },
            TransactionError::TooManyAccountLocks => DbTransactionErrorCode::TooManyAccountLocks,
            TransactionError::AddressLookupTableNotFound => {
                DbTransactionErrorCode::AddressLookupTableNotFound
            },
            TransactionError::InvalidAddressLookupTableOwner => {
                DbTransactionErrorCode::InvalidAddressLookupTableOwner
            },
            TransactionError::InvalidAddressLookupTableData => {
                DbTransactionErrorCode::InvalidAddressLookupTableData
            },
            TransactionError::InvalidAddressLookupTableIndex => {
                DbTransactionErrorCode::InvalidAddressLookupTableIndex
            },
            TransactionError::InvalidRentPayingAccount => {
                DbTransactionErrorCode::InvalidRentPayingAccount
            },
            TransactionError::WouldExceedMaxVoteCostLimit => {
                DbTransactionErrorCode::WouldExceedMaxVoteCostLimit
            },
            TransactionError::WouldExceedAccountDataTotalLimit => {
                DbTransactionErrorCode::WouldExceedAccountDataTotalLimit
            },
            TransactionError::DuplicateInstruction(_) => {
                DbTransactionErrorCode::DuplicateInstruction
            },
            TransactionError::InsufficientFundsForRent { .. } => {
                DbTransactionErrorCode::InsufficientFundsForRent
            },
            TransactionError::MaxLoadedAccountsDataSizeExceeded => {
                DbTransactionErrorCode::MaxLoadedAccountsDataSizeExceeded
            },
            TransactionError::InvalidLoadedAccountsDataSizeLimit => {
                DbTransactionErrorCode::InvalidLoadedAccountsDataSizeLimit
            },
            TransactionError::ResanitizationNeeded => DbTransactionErrorCode::ResanitizationNeeded,
            TransactionError::ProgramExecutionTemporarilyRestricted { .. } => {
                DbTransactionErrorCode::ProgramExecutionTemporarilyRestricted
            },
            TransactionError::UnbalancedTransaction => {
                DbTransactionErrorCode::UnbalancedTransaction
            },
            TransactionError::ProgramCacheHitMaxLimit => return None,
            TransactionError::CommitCancelled => return None,
        };
        Some(code)
    }
}

impl DbTransactionErrorCode {
    /// The code under which `err` is stored, for an error that the database has a code for.
    pub fn from(err: &TransactionError) -> (code: Self)
        requires
            error_code(*err) is Some,
        ensures
            Some(code) == error_code(*err),
    {
        err.code().unwrap()
    }
}

/// Why a stored transaction failed.
#[derive(Clone, Debug, PartialEq, Eq)]
pub struct DbTransactionError {
    pub error_code: DbTransactionErrorCode,
    pub error_detail: Option<String>,
}

/// What a [`DbTransactionError`] holds.
#[verifier::ext_equal]
pub struct DbTransactionErrorView {
    pub error_code: DbTransactionErrorCode,
    pub error_detail: Option<Seq<char>>,
}

impl View for DbTransactionError {
    type V = DbTransactionErrorView;

    open spec fn view(&self) -> DbTransactionErrorView {
        DbTransactionErrorView {
            error_code: self.error_code,
            error_detail: self.error_detail.deep_view(),
        }
    }
}

impl DeepView for DbTransactionError {
    type V = DbTransactionErrorView;

    open spec fn deep_view(&self) -> DbTransactionErrorView {
        self@
    }
}

/// The message for the instruction at `idx` that failed with the error that reads `error`.
pub open spec fn instruction_error_message(idx: u8, error: Seq<char>) -> Seq<char> {
    "InstructionError: idx ("@ + decimal(idx as nat) + "), error: ("@ + error + ")"@
}

/// Whether a message can be stored: it is short enough, or it can be cut between two characters.
pub open spec fn storable(message: Seq<char>) -> bool {
    ||| encode_utf8(message).len() <= MAX_TRANSACTION_STATUS_LEN
    ||| is_char_boundary(encode_utf8(message), MAX_TRANSACTION_STATUS_LEN as int)
}

/// The part of a message that is stored: all of one that is short enough; of a longer one what
/// follows the first [`MAX_TRANSACTION_STATUS_LEN`] bytes.
pub open spec fn stored_detail(message: Seq<char>) -> Seq<char> {
    if encode_utf8(message).len() <= MAX_TRANSACTION_STATUS_LEN {
        message
    } else {
        decode_utf8(encode_utf8(message).skip(MAX_TRANSACTION_STATUS_LEN as int))
    }
}

/// How the outcome of a transaction is stored.
pub open spec fn stored_error(result: Result<(), TransactionError>) -> Option<
    DbTransactionErrorView,
> {
    match result {
        Ok(_) => None,
        Err(error) => Some(
            DbTransactionErrorView {
                error_code: error_code(error).unwrap(),
                error_detail: match error {
                    TransactionError::InstructionError(idx, error) => Some(
                        stored_detail(instruction_error_message(idx, instruction_error_text(error))),
                    ),
                    _ => None,
                },
            },
        ),
    }
}

/// Whether an outcome can be stored: a failure needs a code.
pub open spec fn has_stored_error(result: Result<(), TransactionError>) -> bool {
    result matches Err(error) ==> error_code(error) is Some
}

/// Whether the detail of a stored error, where there is one, has at most
/// [`MAX_TRANSACTION_STATUS_LEN`] bytes.
pub open spec fn detail_fits(error: Option<DbTransactionErrorView>) -> bool {
    match error {
        Some(DbTransactionErrorView { error_detail: Some(detail), .. }) => encode_utf8(detail).len()
            <= MAX_TRANSACTION_STATUS_LEN,
        _ => true,
    }
}

/// What `InstructionError` of the Solana SDK displays as.
pub uninterp spec fn instruction_error_text(error: InstructionError) -> Seq<char>;

/// Renders an instruction error with the `Display` of `InstructionError` of the Solana SDK.
///
/// Trusted: the text depends on the error alone. It is one of the fixed texts that the SDK has for
/// its errors, or a fixed text followed by a hexadecimal `u32`; all of them are ASCII, and none has
/// more than 100 characters.
#[verifier::external_body]
fn render_instruction_error(error: &InstructionError) -> (text: String)
    ensures
        text@ == instruction_error_text(*error),
        is_ascii_chars(text@),
        text@.len() <= 100,
{
    error.to_string()
}

/// The decimal notation of a `u8` is ASCII and has at most three digits.
proof fn lemma_decimal_short(n: u8)
    ensures
        is_ascii_chars(decimal(n as nat)),
        decimal(n as nat).len() <= 3,
{
    reveal_with_fuel(decimal, 3);
}

/// The message for an error that reads as an ASCII text of at most 100 characters is short enough
/// to be stored whole.
proof fn lemma_message_short(idx: u8, error: Seq<char>)
    requires
        is_ascii_chars(error),
        error.len() <= 100,
    ensures
        encode_utf8(instruction_error_message(idx, error)).len() <= MAX_TRANSACTION_STATUS_LEN,
{
    reveal_strlit("InstructionError: idx (");
    reveal_strlit("), error: (");
    reveal_strlit(")");
    lemma_decimal_short(idx);
    let message = instruction_error_message(idx, error);
    assert(is_ascii_chars("InstructionError: idx ("@));
    assert(is_ascii_chars("), error: ("@));
    assert(is_ascii_chars(message));
    is_ascii_chars_encode_utf8(message);
}

/// The decimal digit for `n`.
fn digit_text(n: u8) -> (text: &'static str)
    requires
        n < 10,
    ensures
        text@ == seq![digit(n as nat)],
{
    proof {
        reveal_strlit("0");
        reveal_strlit("1");
        reveal_strlit("2");
        reveal_strlit("3");
        reveal_strlit("4");
        reveal_strlit("5");
        reveal_strlit("6");
        reveal_strlit("7");
        reveal_strlit("8");
        reveal_strlit("9");
    }
    match n {
        0 => "0",
        1 => "1",
        2 => "2",
        3 => "3",
        4 => "4",
        5 => "5",
        6 => "6",
        7 => "7",
        8 => "8",
        _ => "9",
    }
}

/// `n` in decimal notation.
fn decimal_text(n: u8) -> (text: String)
    ensures
        text@ == decimal(n as nat),
    decreases n,
{
    if n < 10 {
        digit_text(n).to_owned()
    } else {
        let mut text = decimal_text(n / 10);
        text.append(digit_text(n % 10));
        text
    }
}

/// The error detail for the instruction at `idx` that failed with the error that reads `error`.
pub fn instruction_error_detail(idx: u8, error: &str) -> (detail: String)
    requires
        storable(instruction_error_message(idx, error@)),
    ensures
        detail@ == stored_detail(instruction_error_message(idx, error@)),
{
    let mut message = "InstructionError: idx (".to_owned();
    message.append(decimal_text(idx).as_str());
    message.append("), error: (");
    message.append(error);
    message.append(")");
    let text = message.as_str();
    if text.as_bytes().len() > MAX_TRANSACTION_STATUS_LEN {
        let (_, tail) = text.split_at(MAX_TRANSACTION_STATUS_LEN);
        proof {
            encode_utf8_decode_utf8(tail@);
            assert(encode_utf8(tail@) =~= encode_utf8(text@).skip(
                MAX_TRANSACTION_STATUS_LEN as int,
            ));
        }
        tail.to_owned()
    } else {
        message
    }
}

/// How the outcome of a transaction is stored: a success without an error, a failure under its
/// code, and the failure of an instruction with a detail that says which one failed and why.
pub fn get_transaction_error(result: &Result<(), TransactionError>) -> (error: Option<
    DbTransactionError,
>)
    requires
        has_stored_error(*result),
    ensures
        error.deep_view() == stored_error(*result),
        detail_fits(error.deep_view()),
        *result matches Err(TransactionError::InstructionError(idx, instruction_error))
            ==> error.deep_view()->0.error_detail == Some(
            instruction_error_message(idx, instruction_error_text(instruction_error)),
        ),
{
    match result {
        Ok(_) => None,
        Err(error) => {
            let error_code = DbTransactionErrorCode::from(error);
            let error_detail = match error {
                TransactionError::InstructionError(idx, instruction_error) => {
                    let text = render_instruction_error(instruction_error);
                    proof {
                        lemma_message_short(*idx, text@);
                    }
                    Some(instruction_error_detail(*idx, text.as_str()))
                },
                _ => None,
            };
            Some(DbTransactionError { error_code, error_detail })
        },
    }
}

} // verus!
