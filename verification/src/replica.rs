//! A transaction as the validator reports it to the plugin.
//!
//! Keys, hashes and signatures are plain byte arrays here. A text or a list stands in its view as a
//! sequence, so that two values with the same contents have the same view.
use solana_sdk::instruction::InstructionError;
use vstd::prelude::*;

verus! {

/// The instruction errors of the Solana runtime, which are carried along and only ever rendered.
#[verifier::external_type_specification]
#[verifier::external_body]
pub struct ExInstructionError(solana_sdk::instruction::InstructionError);

/// How many of a message's account keys sign and how many are read-only.
#[derive(Clone, Copy, Debug, PartialEq, Eq)]
pub struct MessageHeader {
    pub num_required_signatures: u8,
    pub num_readonly_signed_accounts: u8,
    pub num_readonly_unsigned_accounts: u8,
}

/// An instruction whose accounts are indexes into the keys of its message.
#[derive(Debug)]
pub struct CompiledInstruction {
    pub program_id_index: u8,
    pub accounts: Vec<u8>,
    pub data: Vec<u8>,
}

/// What a [`CompiledInstruction`] holds.
#[verifier::ext_equal]
pub struct CompiledInstructionView {
    pub program_id_index: u8,
    pub accounts: Seq<u8>,
    pub data: Seq<u8>,
}

impl View for CompiledInstruction {
    type V = CompiledInstructionView;

    open spec fn view(&self) -> CompiledInstructionView {
        CompiledInstructionView {
            program_id_index: self.program_id_index,
            accounts: self.accounts@,
            data: self.data@,
        }
    }
}

impl DeepView for CompiledInstruction {
    type V = CompiledInstructionView;

    open spec fn deep_view(&self) -> CompiledInstructionView {
        self@
    }
}

/// The entries that a message takes from one address lookup table.
#[derive(Debug)]
pub struct MessageAddressTableLookup {
    pub account_key: [u8; 32],
    pub writable_indexes: Vec<u8>,
    pub readonly_indexes: Vec<u8>,
}

/// What a [`MessageAddressTableLookup`] holds.
#[verifier::ext_equal]
pub struct MessageAddressTableLookupView {
    pub account_key: Seq<u8>,
    pub writable_indexes: Seq<u8>,
    pub readonly_indexes: Seq<u8>,
}

impl View for MessageAddressTableLookup {
    type V = MessageAddressTableLookupView;

    open spec fn view(&self) -> MessageAddressTableLookupView {
        MessageAddressTableLookupView {
            account_key: self.account_key@,
            writable_indexes: self.writable_indexes@,
            readonly_indexes: self.readonly_indexes@,
        }
    }
}

impl DeepView for MessageAddressTableLookup {
    type V = MessageAddressTableLookupView;

    open spec fn deep_view(&self) -> MessageAddressTableLookupView {
        self@
    }
}

/// The addresses that the lookups of a message resolve to.
#[derive(Debug)]
pub struct LoadedAddresses {
    pub writable: Vec<[u8; 32]>,
    pub readonly: Vec<[u8; 32]>,
}

/// What a [`LoadedAddresses`] holds.
#[verifier::ext_equal]
pub struct LoadedAddressesView {
    pub writable: Seq<Seq<u8>>,
    pub readonly: Seq<Seq<u8>>,
}

impl View for LoadedAddresses {
    type V = LoadedAddressesView;

    open spec fn view(&self) -> LoadedAddressesView {
        LoadedAddressesView {
            writable: self.writable.deep_view(),
            readonly: self.readonly.deep_view(),
        }
    }
}

/// A legacy message.
#[derive(Debug)]
pub struct Message {
    pub header: MessageHeader,
    pub account_keys: Vec<[u8; 32]>,
    pub recent_blockhash: [u8; 32],
    pub instructions: Vec<CompiledInstruction>,
}

/// What a [`Message`] holds.
#[verifier::ext_equal]
pub struct MessageView {
    pub header: MessageHeader,
    pub account_keys: Seq<Seq<u8>>,
    pub recent_blockhash: Seq<u8>,
    pub instructions: Seq<CompiledInstructionView>,
}

impl View for Message {
    type V = MessageView;

    open spec fn view(&self) -> MessageView {
        MessageView {
            header: self.header,
            account_keys: self.account_keys.deep_view(),
            recent_blockhash: self.recent_blockhash@,
            instructions: self.instructions.deep_view(),
        }
    }
}

/// A version 0 message, which can take accounts from address lookup tables.
#[derive(Debug)]
pub struct MessageV0 {
    pub header: MessageHeader,
    pub account_keys: Vec<[u8; 32]>,
    pub recent_blockhash: [u8; 32],
    pub instructions: Vec<CompiledInstruction>,
    pub address_table_lookups: Vec<MessageAddressTableLookup>,
}

/// What a [`MessageV0`] holds.
#[verifier::ext_equal]
pub struct MessageV0View {
    pub header: MessageHeader,
    pub account_keys: Seq<Seq<u8>>,
    pub recent_blockhash: Seq<u8>,
    pub instructions: Seq<CompiledInstructionView>,
    pub address_table_lookups: Seq<MessageAddressTableLookupView>,
}

impl View for MessageV0 {
    type V = MessageV0View;

    open spec fn view(&self) -> MessageV0View {
        MessageV0View {
            header: self.header,
            account_keys: self.account_keys.deep_view(),
            recent_blockhash: self.recent_blockhash@,
            instructions: self.instructions.deep_view(),
            address_table_lookups: self.address_table_lookups.deep_view(),
        }
    }
}

/// A message of either kind.
#[derive(Debug)]
pub enum VersionedMessage {
    Legacy(Message),
    V0(MessageV0),
}

/// What a [`VersionedMessage`] holds.
#[verifier::ext_equal]
pub enum VersionedMessageView {
    Legacy(MessageView),
    V0(MessageV0View),
}

impl View for VersionedMessage {
    type V = VersionedMessageView;

    open spec fn view(&self) -> VersionedMessageView {
        match self {
            VersionedMessage::Legacy(message) => VersionedMessageView::Legacy(message@),
            VersionedMessage::V0(message) => VersionedMessageView::V0(message@),
        }
    }
}

/// A message with its signatures.
#[derive(Debug)]
pub struct VersionedTransaction {
    pub signatures: Vec<[u8; 64]>,
    pub message: VersionedMessage,
}

/// What a [`VersionedTransaction`] holds.
#[verifier::ext_equal]
pub struct VersionedTransactionView {
    pub signatures: Seq<Seq<u8>>,
    pub message: VersionedMessageView,
}

impl View for VersionedTransaction {
    type V = VersionedTransactionView;

    open spec fn view(&self) -> VersionedTransactionView {
        VersionedTransactionView {
            signatures: self.signatures.deep_view(),
            message: self.message@,
        }
    }
}

/// An instruction that a program invoked.
#[derive(Debug)]
pub struct InnerInstruction {
    pub instruction: CompiledInstruction,
}

impl View for InnerInstruction {
    type V = CompiledInstructionView;

    open spec fn view(&self) -> CompiledInstructionView {
        self.instruction@
    }
}

impl DeepView for InnerInstruction {
    type V = CompiledInstructionView;

    open spec fn deep_view(&self) -> CompiledInstructionView {
        self@
    }
}

/// The instructions that were invoked while the instruction at `index` ran.
#[derive(Debug)]
pub struct InnerInstructions {
    pub index: u8,
    pub instructions: Vec<InnerInstruction>,
}

/// What an [`InnerInstructions`] holds.
#[verifier::ext_equal]
pub struct InnerInstructionsView {
    pub index: u8,
    pub instructions: Seq<CompiledInstructionView>,
}

impl View for InnerInstructions {
    type V = InnerInstructionsView;

    open spec fn view(&self) -> InnerInstructionsView {
        InnerInstructionsView { index: self.index, instructions: self.instructions.deep_view() }
    }
}

impl DeepView for InnerInstructions {
    type V = InnerInstructionsView;

    open spec fn deep_view(&self) -> InnerInstructionsView {
        self@
    }
}

/// What a reward was paid for.
#[derive(Clone, Copy, Debug, PartialEq, Eq)]
pub enum RewardType {
    Fee,
    Rent,
    Staking,
    Voting,
}

/// A reward that was credited to an account.
#[derive(Debug)]
pub struct Reward {
    pub pubkey: String,
    pub lamports: i64,
    pub post_balance: u64,
    pub reward_type: Option<RewardType>,
    pub commission: Option<u8>,
}

/// What a [`Reward`] holds.
#[verifier::ext_equal]
pub struct RewardView {
    pub pubkey: Seq<char>,
    pub lamports: i64,
    pub post_balance: u64,
    pub reward_type: Option<RewardType>,
    pub commission: Option<u8>,
}

impl View for Reward {
    type V = RewardView;

    open spec fn view(&self) -> RewardView {
        RewardView {
            pubkey: self.pubkey@,
            lamports: self.lamports,
            post_balance: self.post_balance,
            reward_type: self.reward_type,
            commission: self.commission,
        }
    }
}

impl DeepView for Reward {
    type V = RewardView;

    open spec fn deep_view(&self) -> RewardView {
        self@
    }
}

/// A token amount. `ui_amount` is the double-precision amount by its IEEE 754 bits.
#[derive(Clone, Copy, Debug)]
pub struct UiTokenAmount {
    pub ui_amount: Option<u64>,
}

/// How much of a token an account of the transaction held.
#[derive(Debug)]
pub struct TransactionTokenBalance {
    pub account_index: u8,
    pub mint: String,
    pub ui_token_amount: UiTokenAmount,
    pub owner: String,
}

/// What a [`TransactionTokenBalance`] holds.
#[verifier::ext_equal]
pub struct TransactionTokenBalanceView {
    pub account_index: u8,
    pub mint: Seq<char>,
    pub ui_token_amount: UiTokenAmount,
    pub owner: Seq<char>,
}

impl View for TransactionTokenBalance {
    type V = TransactionTokenBalanceView;

    open spec fn view(&self) -> TransactionTokenBalanceView {
        TransactionTokenBalanceView {
            account_index: self.account_index,
            mint: self.mint@,
            ui_token_amount: self.ui_token_amount,
            owner: self.owner@,
        }
    }
}

impl DeepView for TransactionTokenBalance {
    type V = TransactionTokenBalanceView;

    open spec fn deep_view(&self) -> TransactionTokenBalanceView {
        self@
    }
}

/// Why a transaction failed.
#[derive(Debug, PartialEq, Eq)]
pub enum TransactionError {
    AccountInUse,
    AccountLoadedTwice,
    AccountNotFound,
    ProgramAccountNotFound,
    InsufficientFundsForFee,
    InvalidAccountForFee,
    AlreadyProcessed,
    BlockhashNotFound,
    /// The instruction at this index failed with this error.
    InstructionError(u8, InstructionError),
    CallChainTooDeep,
    MissingSignatureForFee,
    InvalidAccountIndex,
    SignatureFailure,
    InvalidProgramForExecution,
    SanitizeFailure,
    ClusterMaintenance,
    AccountBorrowOutstanding,
    WouldExceedMaxBlockCostLimit,
    UnsupportedVersion,
    InvalidWritableAccount,
    WouldExceedMaxAccountCostLimit,
    WouldExceedAccountDataBlockLimit,
    TooManyAccountLocks,
    AddressLookupTableNotFound,
    InvalidAddressLookupTableOwner,
    InvalidAddressLookupTableData,
    InvalidAddressLookupTableIndex,
    InvalidRentPayingAccount,
    WouldExceedMaxVoteCostLimit,
    WouldExceedAccountDataTotalLimit,
    DuplicateInstruction(u8),
    InsufficientFundsForRent { account_index: u8 },
    MaxLoadedAccountsDataSizeExceeded,
    InvalidLoadedAccountsDataSizeLimit,
    ResanitizationNeeded,
    ProgramExecutionTemporarilyRestricted { account_index: u8 },
    UnbalancedTransaction,
    ProgramCacheHitMaxLimit,
    CommitCancelled,
}

/// What executing a transaction did.
#[derive(Debug)]
pub struct TransactionStatusMeta {
    pub status: Result<(), TransactionError>,
    pub fee: u64,
    pub pre_balances: Vec<u64>,
    pub post_balances: Vec<u64>,
    pub inner_instructions: Option<Vec<InnerInstructions>>,
    pub log_messages: Option<Vec<String>>,
    pub pre_token_balances: Option<Vec<TransactionTokenBalance>>,
    pub post_token_balances: Option<Vec<TransactionTokenBalance>>,
    pub rewards: Option<Vec<Reward>>,
}

/// What a [`TransactionStatusMeta`] holds.
#[verifier::ext_equal]
pub struct TransactionStatusMetaView {
    pub status: Result<(), TransactionError>,
    pub fee: u64,
    pub pre_balances: Seq<u64>,
    pub post_balances: Seq<u64>,
    pub inner_instructions: Option<Seq<InnerInstructionsView>>,
    pub log_messages: Option<Seq<Seq<char>>>,
    pub pre_token_balances: Option<Seq<TransactionTokenBalanceView>>,
    pub post_token_balances: Option<Seq<TransactionTokenBalanceView>>,
    pub rewards: Option<Seq<RewardView>>,
}

impl View for TransactionStatusMeta {
    type V = TransactionStatusMetaView;

    open spec fn view(&self) -> TransactionStatusMetaView {
        TransactionStatusMetaView {
            status: self.status,
            fee: self.fee,
            pre_balances: self.pre_balances@,
            post_balances: self.post_balances@,
            inner_instructions: self.inner_instructions.deep_view(),
            log_messages: self.log_messages.deep_view(),
            pre_token_balances: self.pre_token_balances.deep_view(),
            post_token_balances: self.post_token_balances.deep_view(),
            rewards: self.rewards.deep_view(),
        }
    }
}

/// A processed transaction, with its place among the transactions of its block.
#[derive(Debug)]
pub struct ReplicaTransactionInfoV3 {
    pub signature: [u8; 64],
    pub is_vote: bool,
    pub transaction: VersionedTransaction,
    pub transaction_status_meta: TransactionStatusMeta,
    pub index: usize,
}

/// What a [`ReplicaTransactionInfoV3`] holds.
#[verifier::ext_equal]
pub struct ReplicaTransactionInfoV3View {
    pub signature: Seq<u8>,
    pub is_vote: bool,
    pub transaction: VersionedTransactionView,
    pub transaction_status_meta: TransactionStatusMetaView,
    pub index: usize,
}

impl View for ReplicaTransactionInfoV3 {
    type V = ReplicaTransactionInfoV3View;

    open spec fn view(&self) -> ReplicaTransactionInfoV3View {
        ReplicaTransactionInfoV3View {
            signature: self.signature@,
            is_vote: self.is_vote,
            transaction: self.transaction@,
            transaction_status_meta: self.transaction_status_meta@,
            index: self.index,
        }
    }
}

} // verus!
