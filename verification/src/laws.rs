//! What holds of the stored rows as a whole.
use crate::client::next_write_version;
use crate::error::{
    error_code, has_stored_error, storable, stored_detail, stored_error, DbTransactionErrorCode,
    MAX_TRANSACTION_STATUS_LEN,
};
use crate::message::{
    stored_header, stored_instruction, stored_instructions, stored_loaded_message, stored_lookup,
    stored_lookups, stored_message, stored_message_v0,
};
use crate::meta::{
    stored_inner, stored_inners, stored_meta, stored_reward, stored_rewards, stored_token_balance,
    stored_token_balances,
};
use crate::number::{bigint, bigints, smallints};
use crate::replica::{
    CompiledInstructionView, InnerInstructionsView, MessageAddressTableLookupView, MessageHeader,
    MessageV0View, MessageView, ReplicaTransactionInfoV3View, RewardView, TransactionError,
    TransactionStatusMetaView, TransactionTokenBalanceView, VersionedMessageView,
};
use crate::transaction::{can_be_stored, stored_transaction};
use vstd::prelude::*;
use vstd::utf8::{decode_utf8_encode_utf8, encode_utf8, encode_utf8_valid_utf8, valid_utf8_split};

verus! {

/// Storing as a `BIGINT` loses nothing: different values are stored differently.
pub proof fn law_bigint_keeps_value(a: u64, b: u64)
    requires
        bigint(a) == bigint(b),
    ensures
        a == b,
{
}

/// Storing as a `BIGINT` keeps the order of the values that a `BIGINT` has.
pub proof fn law_bigint_keeps_order(a: u64, b: u64)
    requires
        a <= i64::MAX,
        b <= i64::MAX,
    ensures
        a < b <==> bigint(a) < bigint(b),
        bigint(a) == a,
{
}

/// Lists of values that are stored alike are the same.
pub proof fn law_bigints_keep_values(a: Seq<u64>, b: Seq<u64>)
    requires
        bigints(a) == bigints(b),
    ensures
        a == b,
{
    assert(bigints(a).len() == a.len() && bigints(b).len() == b.len());
    assert forall|i: int| 0 <= i < a.len() implies a[i] == b[i] by {
        assert(bigints(a)[i] == bigint(a[i]));
        assert(bigints(b)[i] == bigint(b[i]));
    }
    assert(a =~= b);
}

/// Lists of bytes that are stored alike are the same.
pub proof fn law_smallints_keep_values(a: Seq<u8>, b: Seq<u8>)
    requires
        smallints(a) == smallints(b),
    ensures
        a == b,
{
    assert(smallints(a).len() == a.len() && smallints(b).len() == b.len());
    assert forall|i: int| 0 <= i < a.len() implies a[i] == b[i] by {
        assert(smallints(a)[i] == a[i] as i16);
        assert(smallints(b)[i] == b[i] as i16);
    }
    assert(a =~= b);
}

/// Instructions that are stored alike are the same.
pub proof fn law_instruction_kept(a: CompiledInstructionView, b: CompiledInstructionView)
    requires
        stored_instruction(a) == stored_instruction(b),
    ensures
        a == b,
{
    law_smallints_keep_values(a.accounts, b.accounts);
}

/// Lists of instructions that are stored alike are the same.
pub proof fn law_instructions_kept(
    a: Seq<CompiledInstructionView>,
    b: Seq<CompiledInstructionView>,
)
    requires
        stored_instructions(a) == stored_instructions(b),
    ensures
        a == b,
{
    assert(stored_instructions(a).len() == a.len() && stored_instructions(b).len() == b.len());
    assert forall|i: int| 0 <= i < a.len() implies a[i] == b[i] by {
        assert(stored_instructions(a)[i] == stored_instructions(b)[i]);
        law_instruction_kept(a[i], b[i]);
    }
    assert(a =~= b);
}

/// Address table lookups that are stored alike are the same.
pub proof fn law_lookups_kept(
    a: Seq<MessageAddressTableLookupView>,
    b: Seq<MessageAddressTableLookupView>,
)
    requires
        stored_lookups(a) == stored_lookups(b),
    ensures
        a == b,
{
    assert(stored_lookups(a).len() == a.len() && stored_lookups(b).len() == b.len());
    assert forall|i: int| 0 <= i < a.len() implies a[i] == b[i] by {
        assert(stored_lookups(a)[i] == stored_lookups(b)[i]);
        assert(stored_lookup(a[i]) == stored_lookup(b[i]));
        law_smallints_keep_values(a[i].writable_indexes, b[i].writable_indexes);
        law_smallints_keep_values(a[i].readonly_indexes, b[i].readonly_indexes);
    }
    assert(a =~= b);
}

/// Message headers that are stored alike are the same.
pub proof fn law_header_kept(a: MessageHeader, b: MessageHeader)
    requires
        stored_header(a) == stored_header(b),
    ensures
        a == b,
{
}

/// A stored legacy message gives the message back: messages that are stored alike are the same.
pub proof fn law_message_kept(a: MessageView, b: MessageView)
    requires
        stored_message(a) == stored_message(b),
    ensures
        a == b,
{
    law_header_kept(a.header, b.header);
    law_instructions_kept(a.instructions, b.instructions);
}

/// A stored version 0 message gives the message back: messages that are stored alike are the same.
pub proof fn law_message_v0_kept(a: MessageV0View, b: MessageV0View)
    requires
        stored_message_v0(a) == stored_message_v0(b),
    ensures
        a == b,
{
    law_header_kept(a.header, b.header);
    law_instructions_kept(a.instructions, b.instructions);
    law_lookups_kept(a.address_table_lookups, b.address_table_lookups);
}

/// The loaded addresses of a stored version 0 message have one entry for each of its lookups, in
/// their order, and the entry lists the indexes that the lookup lists.
pub proof fn law_loaded_addresses_follow_lookups(message: MessageV0View, i: int)
    requires
        0 <= i < message.address_table_lookups.len(),
    ensures
        ({
            let record = stored_loaded_message(message);
            let lookups = record.message.address_table_lookups;
            &&& record.loaded_addresses.writable.len() == lookups.len()
            &&& record.loaded_addresses.readonly.len() == lookups.len()
            &&& smallints(record.loaded_addresses.writable[i]) == lookups[i].writable_indexes
            &&& smallints(record.loaded_addresses.readonly[i]) == lookups[i].readonly_indexes
        }),
{
}

/// Every row has exactly one of the two message columns, and its message type says which.
pub proof fn law_one_message_column(
    slot: u64,
    info: ReplicaTransactionInfoV3View,
    write_version: u64,
)
    ensures
        ({
            let row = stored_transaction(slot, info, write_version);
            &&& row.message_type == 0 || row.message_type == 1
            &&& row.message_type == 0 <==> row.legacy_message is Some
            &&& row.message_type == 1 <==> row.v0_loaded_message is Some
        }),
{
}

/// Messages that are stored alike are the same.
pub proof fn law_message_columns_determine_message(
    slot_a: u64,
    a: ReplicaTransactionInfoV3View,
    write_version_a: u64,
    slot_b: u64,
    b: ReplicaTransactionInfoV3View,
    write_version_b: u64,
)
    requires
        ({
            let row_a = stored_transaction(slot_a, a, write_version_a);
            let row_b = stored_transaction(slot_b, b, write_version_b);
            &&& row_a.legacy_message == row_b.legacy_message
            &&& row_a.v0_loaded_message == row_b.v0_loaded_message
        }),
    ensures
        a.transaction.message == b.transaction.message,
        ({
            let row_a = stored_transaction(slot_a, a, write_version_a);
            let row_b = stored_transaction(slot_b, b, write_version_b);
            &&& row_a.message_type == row_b.message_type
            &&& row_a.message_hash == row_b.message_hash
        }),
{
    match (a.transaction.message, b.transaction.message) {
        (VersionedMessageView::Legacy(x), VersionedMessageView::Legacy(y)) => {
            law_message_kept(x, y);
        },
        (VersionedMessageView::V0(x), VersionedMessageView::V0(y)) => {
            assert(stored_loaded_message(x).message == stored_loaded_message(y).message);
            law_message_v0_kept(x, y);
        },
        _ => {},
    }
}

/// Inner instructions that are stored alike are the same.
pub proof fn law_inners_kept(a: Seq<InnerInstructionsView>, b: Seq<InnerInstructionsView>)
    requires
        stored_inners(a) == stored_inners(b),
    ensures
        a == b,
{
    assert(stored_inners(a).len() == a.len() && stored_inners(b).len() == b.len());
    assert forall|i: int| 0 <= i < a.len() implies a[i] == b[i] by {
        assert(stored_inners(a)[i] == stored_inners(b)[i]);
        assert(stored_inner(a[i]) == stored_inner(b[i]));
        law_instructions_kept(a[i].instructions, b[i].instructions);
    }
    assert(a =~= b);
}

/// Token balances that are stored alike are the same.
pub proof fn law_token_balances_kept(
    a: Seq<TransactionTokenBalanceView>,
    b: Seq<TransactionTokenBalanceView>,
)
    requires
        stored_token_balances(a) == stored_token_balances(b),
    ensures
        a == b,
{
    assert(stored_token_balances(a).len() == a.len() && stored_token_balances(b).len() == b.len());
    assert forall|i: int| 0 <= i < a.len() implies a[i] == b[i] by {
        assert(stored_token_balances(a)[i] == stored_token_balances(b)[i]);
        assert(stored_token_balance(a[i]) == stored_token_balance(b[i]));
    }
    assert(a =~= b);
}

/// Rewards that are stored alike are the same.
pub proof fn law_rewards_kept(a: Seq<RewardView>, b: Seq<RewardView>)
    requires
        stored_rewards(a) == stored_rewards(b),
    ensures
        a == b,
{
    assert(stored_rewards(a).len() == a.len() && stored_rewards(b).len() == b.len());
    assert forall|i: int| 0 <= i < a.len() implies a[i] == b[i] by {
        assert(stored_rewards(a)[i] == stored_rewards(b)[i]);
        assert(stored_reward(a[i]) == stored_reward(b[i]));
        law_bigint_keeps_value(a[i].post_balance, b[i].post_balance);
    }
    assert(a =~= b);
}

/// Errors that are stored under the same code are the same error but for what it carries.
pub proof fn law_codes_tell_errors_apart(a: TransactionError, b: TransactionError)
    requires
        error_code(a) is Some,
        error_code(a) == error_code(b),
    ensures
        ({
            ||| a == b
            ||| a is InstructionError && b is InstructionError
            ||| a is DuplicateInstruction && b is DuplicateInstruction
            ||| a is InsufficientFundsForRent && b is InsufficientFundsForRent
            ||| a is ProgramExecutionTemporarilyRestricted
                && b is ProgramExecutionTemporarilyRestricted
        }),
{
}

/// The database has a code for every error but two.
pub proof fn law_errors_without_code(error: TransactionError)
    ensures
        error_code(error) is None <==> (error is ProgramCacheHitMaxLimit
            || error is CommitCancelled),
{
}

/// There is one code that no error is stored under.
pub proof fn law_unused_code(error: TransactionError)
    ensures
        error_code(error) != Some(DbTransactionErrorCode::WouldExceedMaxAccountDataCostLimit),
{
}

/// An error is stored if and only if the transaction failed, and with a detail if and only if it
/// was an instruction that failed.
pub proof fn law_error_tells_failure(result: Result<(), TransactionError>)
    requires
        has_stored_error(result),
    ensures
        stored_error(result) is Some <==> result is Err,
        result matches Err(error) ==> Some(stored_error(result)->0.error_code) == error_code(error),
        result matches Err(error) ==> (stored_error(result)->0.error_detail is Some <==> error
            is InstructionError),
{
}

/// A message of at most [`MAX_TRANSACTION_STATUS_LEN`] bytes is stored whole. Of a longer one the
/// stored part is what follows those bytes.
pub proof fn law_detail_is_message_or_its_tail(message: Seq<char>)
    requires
        storable(message),
    ensures
        encode_utf8(message).len() <= MAX_TRANSACTION_STATUS_LEN ==> stored_detail(message)
            == message,
        encode_utf8(message).len() > MAX_TRANSACTION_STATUS_LEN ==> encode_utf8(message).take(
            MAX_TRANSACTION_STATUS_LEN as int,
        ) + encode_utf8(stored_detail(message)) == encode_utf8(message),
{
    let bytes = encode_utf8(message);
    if bytes.len() > MAX_TRANSACTION_STATUS_LEN {
        let at = MAX_TRANSACTION_STATUS_LEN as int;
        encode_utf8_valid_utf8(message);
        valid_utf8_split(bytes, at);
        assert(bytes.skip(at) =~= bytes.subrange(at, bytes.len() as int));
        decode_utf8_encode_utf8(bytes.skip(at));
        assert(bytes.take(at) + bytes.skip(at) =~= bytes);
    }
}

/// A row gives back what was logged: transactions that are stored alike in all columns agree in
/// everything but in what their errors carry.
pub proof fn law_row_determines_transaction(
    slot_a: u64,
    a: ReplicaTransactionInfoV3View,
    write_version_a: u64,
    slot_b: u64,
    b: ReplicaTransactionInfoV3View,
    write_version_b: u64,
)
    requires
        can_be_stored(a),
        can_be_stored(b),
        stored_transaction(slot_a, a, write_version_a) == stored_transaction(
            slot_b,
            b,
            write_version_b,
        ),
    ensures
        slot_a == slot_b,
        write_version_a == write_version_b,
        a.signature == b.signature,
        a.is_vote == b.is_vote,
        a.transaction == b.transaction,
        a.index == b.index,
        a.transaction_status_meta == (TransactionStatusMetaView {
            status: a.transaction_status_meta.status,
            ..b.transaction_status_meta
        }),
        match (a.transaction_status_meta.status, b.transaction_status_meta.status) {
            (Ok(_), Ok(_)) => true,
            (Err(x), Err(y)) => error_code(x) == error_code(y),
            _ => false,
        },
{
    law_bigint_keeps_value(slot_a, slot_b);
    law_bigint_keeps_value(write_version_a, write_version_b);
    law_bigint_keeps_value(a.index as u64, b.index as u64);
    law_message_columns_determine_message(slot_a, a, write_version_a, slot_b, b, write_version_b);
    let x = a.transaction_status_meta;
    let y = b.transaction_status_meta;
    assert(stored_meta(x) == stored_meta(y));
    law_bigint_keeps_value(x.fee, y.fee);
    law_bigints_keep_values(x.pre_balances, y.pre_balances);
    law_bigints_keep_values(x.post_balances, y.post_balances);
    match (x.inner_instructions, y.inner_instructions) {
        (Some(s), Some(t)) => {
            law_inners_kept(s, t);
        },
        _ => {},
    }
    match (x.pre_token_balances, y.pre_token_balances) {
        (Some(s), Some(t)) => {
            law_token_balances_kept(s, t);
        },
        _ => {},
    }
    match (x.post_token_balances, y.post_token_balances) {
        (Some(s), Some(t)) => {
            law_token_balances_kept(s, t);
        },
        _ => {},
    }
    match (x.rewards, y.rewards) {
        (Some(s), Some(t)) => {
            law_rewards_kept(s, t);
        },
        _ => {},
    }
}

/// The write version of the transaction that is logged as the `n`th after `version` was current.
pub open spec fn write_version_after(version: u64, n: nat) -> u64
    decreases n,
{
    if n == 0 {
        version
    } else {
        next_write_version(write_version_after(version, (n - 1) as nat))
    }
}

/// Write versions count the transactions that were logged.
pub proof fn law_write_versions_count(version: u64, n: nat)
    requires
        version + n <= u64::MAX,
    ensures
        write_version_after(version, n) == version + n,
    decreases n,
{
    if n > 0 {
        law_write_versions_count(version, (n - 1) as nat);
    }
}

/// Write versions tell the order of transactions: of two that one client logged, the one that was
/// logged first has the smaller write version in its row, as long as the count is one that a
/// `BIGINT` can hold.
pub proof fn law_write_versions_order_rows(
    version: u64,
    m: nat,
    slot_m: u64,
    info_m: ReplicaTransactionInfoV3View,
    n: nat,
    slot_n: u64,
    info_n: ReplicaTransactionInfoV3View,
)
    requires
        version + m <= i64::MAX,
        version + n <= i64::MAX,
    ensures
        m < n <==> stored_transaction(
            slot_m,
            info_m,
            write_version_after(version, m),
        ).write_version < stored_transaction(
            slot_n,
            info_n,
            write_version_after(version, n),
        ).write_version,
{
    law_write_versions_count(version, m);
    law_write_versions_count(version, n);
}

} // verus!
