//! What each operation returns, field by field.
//!
//! Every law here speaks of a call by its arguments and its result: `call_ensures(f, args,
//! result)` holds of what `f` returns. What it says of the result is put in terms of the fields
//! of the values themselves.
use crate::client::{
    build_transaction_info_upsert_statement, log_transaction_impl, next_write_version, parameters,
    report_persistence, report_preparation, report_queueing, reports_persistence, ConfigText,
    GeyserPluginError, GeyserPluginPostgresError, LogTransactionRequest, ParallelPostgresClient,
    TransactionParameter, TRANSACTION_UPSERT,
};
use crate::error::{
    error_code, get_transaction_error, instruction_error_detail, instruction_error_text,
    DbTransactionError, DbTransactionErrorCode,
};
use crate::hash::{instruction_fits, instructions_fit, lookup_fits, lookups_fit, message_hash};
use crate::message::{
    stored_instruction, stored_instructions, stored_lookup, stored_lookups, DbCompiledInstruction,
    DbLoadedAddresses, DbLoadedMessageV0, DbTransactionMessage,
    DbTransactionMessageAddressTableLookup, DbTransactionMessageHeader, DbTransactionMessageV0,
};
use crate::meta::{
    get_reward_type, stored_inner, stored_inners, stored_reward, stored_rewards,
    stored_token_balance, stored_token_balances, DbInnerInstructions, DbReward, DbRewardType,
    DbTransactionStatusMeta, DbTransactionTokenBalance,
};
use crate::number::{
    bigint, bigints, decimal, smallints, to_bigint, to_bigints, to_byte_strings, to_smallints,
};
use crate::replica::{
    CompiledInstruction, InnerInstructions, LoadedAddresses, Message, MessageAddressTableLookup,
    MessageHeader, MessageV0, ReplicaTransactionInfoV3, Reward, RewardType, TransactionError,
    TransactionStatusMeta, TransactionTokenBalance, VersionedMessage,
};
use crate::transaction::{
    build_db_transaction, build_db_transaction_with_hash, can_be_stored, DbTransaction,
};
use vstd::prelude::*;
use vstd::utf8::{decode_utf8, encode_utf8, is_char_boundary};

verus! {

/// Lists of bytes that are stored alike agree entry by entry.
proof fn lemma_smallints(record: Seq<i16>, xs: Seq<u8>)
    requires
        record == smallints(xs),
    ensures
        record.len() == xs.len(),
        forall|k: int| 0 <= k < xs.len() ==> #[trigger] record[k] == xs[k],
{
}

/// A list of byte strings with the contents of another agrees with it entry by entry.
proof fn lemma_byte_strings<const N: usize>(record: Vec<Vec<u8>>, xs: Vec<[u8; N]>)
    requires
        record.deep_view() == xs.deep_view(),
    ensures
        record@.len() == xs@.len(),
        forall|i: int| 0 <= i < xs@.len() ==> (#[trigger] record@[i])@ == xs@[i]@,
{
    assert(record.deep_view().len() == record@.len());
    assert(xs.deep_view().len() == xs@.len());
    assert forall|i: int| 0 <= i < xs@.len() implies (#[trigger] record@[i])@ == xs@[i]@ by {
        assert(record.deep_view()[i] == xs.deep_view()[i]);
        assert(record@[i].deep_view() =~= record@[i]@);
        assert(xs@[i].deep_view() =~= xs@[i]@);
    }
}

/// A stored instruction agrees with the instruction field by field.
proof fn lemma_instruction(record: DbCompiledInstruction, instruction: CompiledInstruction)
    requires
        record@ == stored_instruction(instruction@),
    ensures
        record.program_id_index == instruction.program_id_index,
        record.accounts@.len() == instruction.accounts@.len(),
        (forall|k: int| 0 <= k < instruction.accounts@.len()
            ==> #[trigger] record.accounts@[k] == instruction.accounts@[k]),
        record.data@ == instruction.data@,
{
    lemma_smallints(record.accounts@, instruction.accounts@);
}

/// Stored instructions agree with the instructions one by one.
proof fn lemma_instructions(
    records: Vec<DbCompiledInstruction>,
    instructions: Vec<CompiledInstruction>,
)
    requires
        records.deep_view() == stored_instructions(instructions.deep_view()),
    ensures
        records@.len() == instructions@.len(),
        forall|i: int|
            #![trigger records@[i]]
            0 <= i < instructions@.len() ==> {
                &&& records@[i].program_id_index == instructions@[i].program_id_index
                &&& records@[i].accounts@.len() == instructions@[i].accounts@.len()
                &&& (forall|k: int| 0 <= k < instructions@[i].accounts@.len()
                    ==> #[trigger] records@[i].accounts@[k] == instructions@[i].accounts@[k])
                &&& records@[i].data@ == instructions@[i].data@
            },
{
    assert(records.deep_view().len() == instructions.deep_view().len());
    assert forall|i: int| #![trigger records@[i]] 0 <= i < instructions@.len() implies {
        &&& records@[i].program_id_index == instructions@[i].program_id_index
        &&& records@[i].accounts@.len() == instructions@[i].accounts@.len()
        &&& (forall|k: int| 0 <= k < instructions@[i].accounts@.len()
            ==> #[trigger] records@[i].accounts@[k] == instructions@[i].accounts@[k])
        &&& records@[i].data@ == instructions@[i].data@
    } by {
        assert(records.deep_view()[i] == records@[i]@);
        assert(instructions.deep_view()[i] == instructions@[i]@);
        lemma_instruction(records@[i], instructions@[i]);
    }
}

/// A stored lookup agrees with the lookup field by field.
proof fn lemma_lookup(
    record: DbTransactionMessageAddressTableLookup,
    lookup: MessageAddressTableLookup,
)
    requires
        record@ == stored_lookup(lookup@),
    ensures
        record.account_key@ == lookup.account_key@,
        record.writable_indexes@.len() == lookup.writable_indexes@.len(),
        (forall|k: int| 0 <= k < lookup.writable_indexes@.len()
            ==> #[trigger] record.writable_indexes@[k] == lookup.writable_indexes@[k]),
        record.readonly_indexes@.len() == lookup.readonly_indexes@.len(),
        (forall|k: int| 0 <= k < lookup.readonly_indexes@.len()
            ==> #[trigger] record.readonly_indexes@[k] == lookup.readonly_indexes@[k]),
{
    lemma_smallints(record.writable_indexes@, lookup.writable_indexes@);
    lemma_smallints(record.readonly_indexes@, lookup.readonly_indexes@);
}

/// Stored lookups agree with the lookups one by one.
proof fn lemma_lookups(
    records: Vec<DbTransactionMessageAddressTableLookup>,
    lookups: Vec<MessageAddressTableLookup>,
)
    requires
        records.deep_view() == stored_lookups(lookups.deep_view()),
    ensures
        records@.len() == lookups@.len(),
        forall|i: int|
            #![trigger records@[i]]
            0 <= i < lookups@.len() ==> {
                &&& records@[i].account_key@ == lookups@[i].account_key@
                &&& records@[i].writable_indexes@.len() == lookups@[i].writable_indexes@.len()
                &&& (forall|k: int| 0 <= k < lookups@[i].writable_indexes@.len()
                    ==> #[trigger] records@[i].writable_indexes@[k]
                        == lookups@[i].writable_indexes@[k])
                &&& records@[i].readonly_indexes@.len() == lookups@[i].readonly_indexes@.len()
                &&& (forall|k: int| 0 <= k < lookups@[i].readonly_indexes@.len()
                    ==> #[trigger] records@[i].readonly_indexes@[k]
                        == lookups@[i].readonly_indexes@[k])
            },
{
    assert(records.deep_view().len() == lookups.deep_view().len());
    assert forall|i: int| #![trigger records@[i]] 0 <= i < lookups@.len() implies {
        &&& records@[i].account_key@ == lookups@[i].account_key@
        &&& records@[i].writable_indexes@.len() == lookups@[i].writable_indexes@.len()
        &&& (forall|k: int| 0 <= k < lookups@[i].writable_indexes@.len()
            ==> #[trigger] records@[i].writable_indexes@[k] == lookups@[i].writable_indexes@[k])
        &&& records@[i].readonly_indexes@.len() == lookups@[i].readonly_indexes@.len()
        &&& (forall|k: int| 0 <= k < lookups@[i].readonly_indexes@.len()
            ==> #[trigger] records@[i].readonly_indexes@[k] == lookups@[i].readonly_indexes@[k])
    } by {
        assert(records.deep_view()[i] == records@[i]@);
        assert(lookups.deep_view()[i] == lookups@[i]@);
        lemma_lookup(records@[i], lookups@[i]);
    }
}

/// `to_bigint` keeps a value that a `BIGINT` has, and takes two to the 64th from a larger one.
pub proof fn law_to_bigint(x: u64, r: i64)
    requires
        call_ensures(to_bigint, (x,), r),
    ensures
        x <= 0x7fff_ffff_ffff_ffff ==> r == x,
        x > 0x7fff_ffff_ffff_ffff ==> r == x - 0x1_0000_0000_0000_0000,
{
}

/// `to_bigints` does to each entry of a list what `to_bigint` does.
pub proof fn law_to_bigints(xs: &Vec<u64>, r: Vec<i64>)
    requires
        call_ensures(to_bigints, (xs,), r),
    ensures
        r@.len() == xs@.len(),
        forall|i: int|
            #![trigger r@[i]]
            0 <= i < xs@.len() ==> {
                &&& xs@[i] <= 0x7fff_ffff_ffff_ffff ==> r@[i] == xs@[i]
                &&& xs@[i] > 0x7fff_ffff_ffff_ffff ==> r@[i] == xs@[i] - 0x1_0000_0000_0000_0000
            },
{
    lemma_bigints(r@, xs@);
}

/// Lists of values that are stored alike agree entry by entry.
proof fn lemma_bigints(record: Seq<i64>, xs: Seq<u64>)
    requires
        record == bigints(xs),
    ensures
        record.len() == xs.len(),
        forall|i: int|
            #![trigger record[i]]
            0 <= i < xs.len() ==> {
                &&& xs[i] <= 0x7fff_ffff_ffff_ffff ==> record[i] == xs[i]
                &&& xs[i] > 0x7fff_ffff_ffff_ffff ==> record[i] == xs[i] - 0x1_0000_0000_0000_0000
            },
{
    assert forall|i: int| #![trigger record[i]] 0 <= i < xs.len() implies record[i]
        == bigint(xs[i]) by {
    }
}

/// `to_smallints` keeps the number and the value of the entries.
pub proof fn law_to_smallints(xs: &Vec<u8>, r: Vec<i16>)
    requires
        call_ensures(to_smallints, (xs,), r),
    ensures
        r@.len() == xs@.len(),
        (forall|k: int| 0 <= k < xs@.len() ==> #[trigger] r@[k] == xs@[k]),
{
    lemma_smallints(r@, xs@);
}

/// `to_byte_strings` keeps the number and the bytes of the entries.
pub proof fn law_to_byte_strings<const N: usize>(xs: &Vec<[u8; N]>, r: Vec<Vec<u8>>)
    requires
        call_ensures(to_byte_strings::<N>, (xs,), r),
    ensures
        r@.len() == xs@.len(),
        forall|i: int| 0 <= i < xs@.len() ==> (#[trigger] r@[i])@ == xs@[i]@,
{
    lemma_byte_strings(r, *xs);
}

/// A stored instruction has the program index, the accounts and the data of the instruction.
pub proof fn law_instruction_fields(
    instruction: &CompiledInstruction,
    record: DbCompiledInstruction,
)
    requires
        call_ensures(
            <DbCompiledInstruction as From<&CompiledInstruction>>::from,
            (instruction,),
            record,
        ),
    ensures
        record.program_id_index == instruction.program_id_index,
        record.accounts@.len() == instruction.accounts@.len(),
        (forall|k: int| 0 <= k < instruction.accounts@.len()
            ==> #[trigger] record.accounts@[k] == instruction.accounts@[k]),
        record.data@ == instruction.data@,
{
    lemma_instruction(record, *instruction);
}

/// Each count of a stored header is the count of the same name.
pub proof fn law_header_fields(header: &MessageHeader, record: DbTransactionMessageHeader)
    requires
        call_ensures(<DbTransactionMessageHeader as From<&MessageHeader>>::from, (header,), record),
    ensures
        record.num_required_signatures == header.num_required_signatures,
        record.num_readonly_signed_accounts == header.num_readonly_signed_accounts,
        record.num_readonly_unsigned_accounts == header.num_readonly_unsigned_accounts,
{
}

/// A stored legacy message has the counts, the keys, the blockhash and the instructions of the
/// message, each list in its order.
pub proof fn law_legacy_message_fields(message: &Message, record: DbTransactionMessage)
    requires
        call_ensures(<DbTransactionMessage as From<&Message>>::from, (message,), record),
    ensures
        record.header.num_required_signatures == message.header.num_required_signatures,
        record.header.num_readonly_signed_accounts == message.header.num_readonly_signed_accounts,
        record.header.num_readonly_unsigned_accounts
            == message.header.num_readonly_unsigned_accounts,
        record.account_keys@.len() == message.account_keys@.len(),
        forall|i: int| 0 <= i < message.account_keys@.len()
            ==> (#[trigger] record.account_keys@[i])@ == message.account_keys@[i]@,
        record.recent_blockhash@ == message.recent_blockhash@,
        record.instructions@.len() == message.instructions@.len(),
        forall|i: int|
            #![trigger record.instructions@[i]]
            0 <= i < message.instructions@.len() ==> {
                &&& record.instructions@[i].program_id_index
                    == message.instructions@[i].program_id_index
                &&& record.instructions@[i].accounts@.len()
                    == message.instructions@[i].accounts@.len()
                &&& (forall|k: int| 0 <= k < message.instructions@[i].accounts@.len()
                    ==> #[trigger] record.instructions@[i].accounts@[k]
                        == message.instructions@[i].accounts@[k])
                &&& record.instructions@[i].data@ == message.instructions@[i].data@
            },
{
    lemma_byte_strings(record.account_keys, message.account_keys);
    lemma_instructions(record.instructions, message.instructions);
}

/// A stored lookup has the table and the indexes of the lookup.
pub proof fn law_lookup_fields(
    lookup: &MessageAddressTableLookup,
    record: DbTransactionMessageAddressTableLookup,
)
    requires
        call_ensures(
            <DbTransactionMessageAddressTableLookup as From<&MessageAddressTableLookup>>::from,
            (lookup,),
            record,
        ),
    ensures
        record.account_key@ == lookup.account_key@,
        record.writable_indexes@.len() == lookup.writable_indexes@.len(),
        (forall|k: int| 0 <= k < lookup.writable_indexes@.len()
            ==> #[trigger] record.writable_indexes@[k] == lookup.writable_indexes@[k]),
        record.readonly_indexes@.len() == lookup.readonly_indexes@.len(),
        (forall|k: int| 0 <= k < lookup.readonly_indexes@.len()
            ==> #[trigger] record.readonly_indexes@[k] == lookup.readonly_indexes@[k]),
{
    lemma_lookup(record, *lookup);
}

/// A stored version 0 message has the counts, the keys, the blockhash, the instructions and the
/// lookups of the message, each list in its order.
pub proof fn law_message_v0_fields(message: &MessageV0, record: DbTransactionMessageV0)
    requires
        call_ensures(<DbTransactionMessageV0 as From<&MessageV0>>::from, (message,), record),
    ensures
        record.header.num_required_signatures == message.header.num_required_signatures,
        record.header.num_readonly_signed_accounts == message.header.num_readonly_signed_accounts,
        record.header.num_readonly_unsigned_accounts
            == message.header.num_readonly_unsigned_accounts,
        record.account_keys@.len() == message.account_keys@.len(),
        forall|i: int| 0 <= i < message.account_keys@.len()
            ==> (#[trigger] record.account_keys@[i])@ == message.account_keys@[i]@,
        record.recent_blockhash@ == message.recent_blockhash@,
        record.instructions@.len() == message.instructions@.len(),
        forall|i: int|
            #![trigger record.instructions@[i]]
            0 <= i < message.instructions@.len() ==> {
                &&& record.instructions@[i].program_id_index
                    == message.instructions@[i].program_id_index
                &&& record.instructions@[i].accounts@.len()
                    == message.instructions@[i].accounts@.len()
                &&& (forall|k: int| 0 <= k < message.instructions@[i].accounts@.len()
                    ==> #[trigger] record.instructions@[i].accounts@[k]
                        == message.instructions@[i].accounts@[k])
                &&& record.instructions@[i].data@ == message.instructions@[i].data@
            },
        record.address_table_lookups@.len() == message.address_table_lookups@.len(),
        forall|i: int|
            #![trigger record.address_table_lookups@[i]]
            0 <= i < message.address_table_lookups@.len() ==> {
                &&& record.address_table_lookups@[i].account_key@
                    == message.address_table_lookups@[i].account_key@
                &&& record.address_table_lookups@[i].writable_indexes@.len()
                    == message.address_table_lookups@[i].writable_indexes@.len()
                &&& (forall|k: int|
                    0 <= k < message.address_table_lookups@[i].writable_indexes@.len()
                        ==> #[trigger] record.address_table_lookups@[i].writable_indexes@[k]
                        == message.address_table_lookups@[i].writable_indexes@[k])
                &&& record.address_table_lookups@[i].readonly_indexes@.len()
                    == message.address_table_lookups@[i].readonly_indexes@.len()
                &&& (forall|k: int|
                    0 <= k < message.address_table_lookups@[i].readonly_indexes@.len()
                        ==> #[trigger] record.address_table_lookups@[i].readonly_indexes@[k]
                        == message.address_table_lookups@[i].readonly_indexes@[k])
            },
{
    lemma_byte_strings(record.account_keys, message.account_keys);
    lemma_instructions(record.instructions, message.instructions);
    lemma_lookups(record.address_table_lookups, message.address_table_lookups);
}

/// Stored loaded addresses are the addresses, writable and read-only ones each in their order.
pub proof fn law_loaded_addresses_fields(addresses: &LoadedAddresses, record: DbLoadedAddresses)
    requires
        call_ensures(<DbLoadedAddresses as From<&LoadedAddresses>>::from, (addresses,), record),
    ensures
        record.writable@.len() == addresses.writable@.len(),
        forall|i: int| 0 <= i < addresses.writable@.len()
            ==> (#[trigger] record.writable@[i])@ == addresses.writable@[i]@,
        record.readonly@.len() == addresses.readonly@.len(),
        forall|i: int| 0 <= i < addresses.readonly@.len()
            ==> (#[trigger] record.readonly@[i])@ == addresses.readonly@[i]@,
{
    lemma_byte_strings(record.writable, addresses.writable);
    lemma_byte_strings(record.readonly, addresses.readonly);
}

/// A stored version 0 message with its loaded addresses has all that the message has, and for each
/// lookup an entry with its writable and one with its read-only indexes.
pub proof fn law_loaded_message_fields(message: &MessageV0, record: DbLoadedMessageV0)
    requires
        call_ensures(<DbLoadedMessageV0 as From<&MessageV0>>::from, (message,), record),
    ensures
        record.message.header.num_required_signatures == message.header.num_required_signatures,
        record.message.header.num_readonly_signed_accounts
            == message.header.num_readonly_signed_accounts,
        record.message.header.num_readonly_unsigned_accounts
            == message.header.num_readonly_unsigned_accounts,
        record.message.account_keys@.len() == message.account_keys@.len(),
        forall|i: int| 0 <= i < message.account_keys@.len()
            ==> (#[trigger] record.message.account_keys@[i])@ == message.account_keys@[i]@,
        record.message.recent_blockhash@ == message.recent_blockhash@,
        record.message.instructions@.len() == message.instructions@.len(),
        forall|i: int|
            #![trigger record.message.instructions@[i]]
            0 <= i < message.instructions@.len() ==> {
                &&& record.message.instructions@[i].program_id_index
                    == message.instructions@[i].program_id_index
                &&& record.message.instructions@[i].accounts@.len()
                    == message.instructions@[i].accounts@.len()
                &&& (forall|k: int| 0 <= k < message.instructions@[i].accounts@.len()
                    ==> #[trigger] record.message.instructions@[i].accounts@[k]
                        == message.instructions@[i].accounts@[k])
                &&& record.message.instructions@[i].data@ == message.instructions@[i].data@
            },
        record.message.address_table_lookups@.len() == message.address_table_lookups@.len(),
        forall|i: int|
            #![trigger record.message.address_table_lookups@[i]]
            0 <= i < message.address_table_lookups@.len() ==> {
                &&& record.message.address_table_lookups@[i].account_key@
                    == message.address_table_lookups@[i].account_key@
                &&& record.message.address_table_lookups@[i].writable_indexes@.len()
                    == message.address_table_lookups@[i].writable_indexes@.len()
                &&& (forall|k: int|
                    0 <= k < message.address_table_lookups@[i].writable_indexes@.len()
                        ==> #[trigger] record.message.address_table_lookups@[i].writable_indexes@[k]
                        == message.address_table_lookups@[i].writable_indexes@[k])
                &&& record.message.address_table_lookups@[i].readonly_indexes@.len()
                    == message.address_table_lookups@[i].readonly_indexes@.len()
                &&& (forall|k: int|
                    0 <= k < message.address_table_lookups@[i].readonly_indexes@.len()
                        ==> #[trigger] record.message.address_table_lookups@[i].readonly_indexes@[k]
                        == message.address_table_lookups@[i].readonly_indexes@[k])
            },
        record.loaded_addresses.writable@.len() == message.address_table_lookups@.len(),
        forall|i: int|
            0 <= i < message.address_table_lookups@.len()
                ==> (#[trigger] record.loaded_addresses.writable@[i])@
                == message.address_table_lookups@[i].writable_indexes@,
        record.loaded_addresses.readonly@.len() == message.address_table_lookups@.len(),
        forall|i: int|
            0 <= i < message.address_table_lookups@.len()
                ==> (#[trigger] record.loaded_addresses.readonly@[i])@
                == message.address_table_lookups@[i].readonly_indexes@,
{
    lemma_byte_strings(record.message.account_keys, message.account_keys);
    lemma_instructions(record.message.instructions, message.instructions);
    lemma_lookups(record.message.address_table_lookups, message.address_table_lookups);
    let lookups = message.address_table_lookups;
    let loaded = record.loaded_addresses;
    assert(loaded.writable.deep_view().len() == lookups@.len());
    assert(loaded.readonly.deep_view().len() == lookups@.len());
    assert forall|i: int| 0 <= i < lookups@.len() implies (#[trigger] loaded.writable@[i])@
        == lookups@[i].writable_indexes@ by {
        assert(loaded.writable.deep_view()[i] == loaded.writable@[i].deep_view());
        assert(loaded.writable@[i].deep_view() =~= loaded.writable@[i]@);
        assert(lookups.deep_view()[i] == lookups@[i]@);
    }
    assert forall|i: int| 0 <= i < lookups@.len() implies (#[trigger] loaded.readonly@[i])@
        == lookups@[i].readonly_indexes@ by {
        assert(loaded.readonly.deep_view()[i] == loaded.readonly@[i].deep_view());
        assert(loaded.readonly@[i].deep_view() =~= loaded.readonly@[i]@);
        assert(lookups.deep_view()[i] == lookups@[i]@);
    }
}

/// Stored inner instructions agree with the inner instructions field by field.
proof fn lemma_inner(record: DbInnerInstructions, inner: InnerInstructions)
    requires
        record@ == stored_inner(inner@),
    ensures
        record.index == inner.index,
        record.instructions@.len() == inner.instructions@.len(),
        (forall|k: int|
            #![trigger record.instructions@[k]]
            0 <= k < inner.instructions@.len() ==> {
                &&& record.instructions@[k].program_id_index
                    == inner.instructions@[k].instruction.program_id_index
                &&& record.instructions@[k].accounts@.len()
                    == inner.instructions@[k].instruction.accounts@.len()
                &&& (forall|n: int| 0 <= n < inner.instructions@[k].instruction.accounts@.len()
                    ==> #[trigger] record.instructions@[k].accounts@[n]
                        == inner.instructions@[k].instruction.accounts@[n])
                &&& record.instructions@[k].data@ == inner.instructions@[k].instruction.data@
            }),
{
    let records = record.instructions;
    let instructions = inner.instructions;
    assert(records.deep_view().len() == instructions.deep_view().len());
    assert forall|k: int|
        #![trigger records@[k]]
        0 <= k < instructions@.len() implies {
        &&& records@[k].program_id_index == instructions@[k].instruction.program_id_index
        &&& records@[k].accounts@.len() == instructions@[k].instruction.accounts@.len()
        &&& (forall|n: int| 0 <= n < instructions@[k].instruction.accounts@.len()
            ==> #[trigger] records@[k].accounts@[n] == instructions@[k].instruction.accounts@[n])
        &&& records@[k].data@ == instructions@[k].instruction.data@
    } by {
        assert(records.deep_view()[k] == records@[k]@);
        assert(instructions.deep_view()[k] == instructions@[k]@);
        lemma_instruction(records@[k], instructions@[k].instruction);
    }
}

/// Stored inner instructions agree with the inner instructions one by one.
proof fn lemma_inners(records: Vec<DbInnerInstructions>, inners: Vec<InnerInstructions>)
    requires
        records.deep_view() == stored_inners(inners.deep_view()),
    ensures
        records@.len() == inners@.len(),
        forall|i: int|
            #![trigger records@[i]]
            0 <= i < inners@.len() ==> {
                &&& records@[i].index == inners@[i].index
                &&& records@[i].instructions@.len() == inners@[i].instructions@.len()
                &&& (forall|k: int|
                    #![trigger records@[i].instructions@[k]]
                    0 <= k < inners@[i].instructions@.len() ==> {
                        &&& records@[i].instructions@[k].program_id_index
                            == inners@[i].instructions@[k].instruction.program_id_index
                        &&& records@[i].instructions@[k].accounts@.len()
                            == inners@[i].instructions@[k].instruction.accounts@.len()
                        &&& (forall|n: int|
                            0 <= n < inners@[i].instructions@[k].instruction.accounts@.len()
                                ==> #[trigger] records@[i].instructions@[k].accounts@[n]
                                == inners@[i].instructions@[k].instruction.accounts@[n])
                        &&& records@[i].instructions@[k].data@
                            == inners@[i].instructions@[k].instruction.data@
                    })
            },
{
    assert(records.deep_view().len() == inners.deep_view().len());
    assert forall|i: int| #![trigger records@[i]] 0 <= i < inners@.len() implies {
        &&& records@[i].index == inners@[i].index
        &&& records@[i].instructions@.len() == inners@[i].instructions@.len()
        &&& (forall|k: int|
            #![trigger records@[i].instructions@[k]]
            0 <= k < inners@[i].instructions@.len() ==> {
                &&& records@[i].instructions@[k].program_id_index
                    == inners@[i].instructions@[k].instruction.program_id_index
                &&& records@[i].instructions@[k].accounts@.len()
                    == inners@[i].instructions@[k].instruction.accounts@.len()
                &&& (forall|n: int|
                    0 <= n < inners@[i].instructions@[k].instruction.accounts@.len()
                        ==> #[trigger] records@[i].instructions@[k].accounts@[n]
                        == inners@[i].instructions@[k].instruction.accounts@[n])
                &&& records@[i].instructions@[k].data@
                    == inners@[i].instructions@[k].instruction.data@
            })
    } by {
        assert(records.deep_view()[i] == records@[i]@);
        assert(inners.deep_view()[i] == inners@[i]@);
        lemma_inner(records@[i], inners@[i]);
    }
}

/// A stored reward agrees with the reward field by field.
proof fn lemma_reward(record: DbReward, reward: Reward)
    requires
        record@ == stored_reward(reward@),
    ensures
        record.pubkey@ == reward.pubkey@,
        record.lamports == reward.lamports,
        reward.post_balance <= 0x7fff_ffff_ffff_ffff ==> record.post_balance == reward.post_balance,
        reward.post_balance > 0x7fff_ffff_ffff_ffff
            ==> record.post_balance == reward.post_balance - 0x1_0000_0000_0000_0000,
        (reward.reward_type is None <==> record.reward_type is None),
        (reward.reward_type == Some(RewardType::Fee)
            <==> record.reward_type == Some(DbRewardType::Fee)),
        (reward.reward_type == Some(RewardType::Rent)
            <==> record.reward_type == Some(DbRewardType::Rent)),
        (reward.reward_type == Some(RewardType::Staking)
            <==> record.reward_type == Some(DbRewardType::Staking)),
        (reward.reward_type == Some(RewardType::Voting)
            <==> record.reward_type == Some(DbRewardType::Voting)),
        (reward.commission is None <==> record.commission is None),
        (reward.commission is Some ==> record.commission->0 == reward.commission->0),
{
}

/// Stored rewards agree with the rewards one by one.
proof fn lemma_rewards(records: Vec<DbReward>, rewards: Vec<Reward>)
    requires
        records.deep_view() == stored_rewards(rewards.deep_view()),
    ensures
        records@.len() == rewards@.len(),
        forall|i: int|
            #![trigger records@[i]]
            0 <= i < rewards@.len() ==> {
                &&& records@[i].pubkey@ == rewards@[i].pubkey@
                &&& records@[i].lamports == rewards@[i].lamports
                &&& rewards@[i].post_balance <= 0x7fff_ffff_ffff_ffff
                    ==> records@[i].post_balance == rewards@[i].post_balance
                &&& rewards@[i].post_balance > 0x7fff_ffff_ffff_ffff
                    ==> records@[i].post_balance
                        == rewards@[i].post_balance - 0x1_0000_0000_0000_0000
                &&& (rewards@[i].reward_type is None <==> records@[i].reward_type is None)
                &&& (rewards@[i].reward_type == Some(RewardType::Fee)
                    <==> records@[i].reward_type == Some(DbRewardType::Fee))
                &&& (rewards@[i].reward_type == Some(RewardType::Rent)
                    <==> records@[i].reward_type == Some(DbRewardType::Rent))
                &&& (rewards@[i].reward_type == Some(RewardType::Staking)
                    <==> records@[i].reward_type == Some(DbRewardType::Staking))
                &&& (rewards@[i].reward_type == Some(RewardType::Voting)
                    <==> records@[i].reward_type == Some(DbRewardType::Voting))
                &&& (rewards@[i].commission is None <==> records@[i].commission is None)
                &&& (rewards@[i].commission is Some
                    ==> records@[i].commission->0 == rewards@[i].commission->0)
            },
{
    assert(records.deep_view().len() == rewards.deep_view().len());
    assert forall|i: int| #![trigger records@[i]] 0 <= i < rewards@.len() implies {
        &&& records@[i].pubkey@ == rewards@[i].pubkey@
        &&& records@[i].lamports == rewards@[i].lamports
        &&& rewards@[i].post_balance <= 0x7fff_ffff_ffff_ffff
            ==> records@[i].post_balance == rewards@[i].post_balance
        &&& rewards@[i].post_balance > 0x7fff_ffff_ffff_ffff
            ==> records@[i].post_balance == rewards@[i].post_balance - 0x1_0000_0000_0000_0000
        &&& (rewards@[i].reward_type is None <==> records@[i].reward_type is None)
        &&& (rewards@[i].reward_type == Some(RewardType::Fee)
            <==> records@[i].reward_type == Some(DbRewardType::Fee))
        &&& (rewards@[i].reward_type == Some(RewardType::Rent)
            <==> records@[i].reward_type == Some(DbRewardType::Rent))
        &&& (rewards@[i].reward_type == Some(RewardType::Staking)
            <==> records@[i].reward_type == Some(DbRewardType::Staking))
        &&& (rewards@[i].reward_type == Some(RewardType::Voting)
            <==> records@[i].reward_type == Some(DbRewardType::Voting))
        &&& (rewards@[i].commission is None <==> records@[i].commission is None)
        &&& (rewards@[i].commission is Some
            ==> records@[i].commission->0 == rewards@[i].commission->0)
    } by {
        assert(records.deep_view()[i] == records@[i]@);
        assert(rewards.deep_view()[i] == rewards@[i]@);
        lemma_reward(records@[i], rewards@[i]);
    }
}

/// A stored token balance agrees with the balance field by field.
proof fn lemma_token_balance(record: DbTransactionTokenBalance, balance: TransactionTokenBalance)
    requires
        record@ == stored_token_balance(balance@),
    ensures
        record.account_index == balance.account_index,
        record.mint@ == balance.mint@,
        record.ui_token_amount == balance.ui_token_amount.ui_amount,
        record.owner@ == balance.owner@,
{
}

/// Stored token balances agree with the balances one by one.
proof fn lemma_token_balances(
    records: Vec<DbTransactionTokenBalance>,
    balances: Vec<TransactionTokenBalance>,
)
    requires
        records.deep_view() == stored_token_balances(balances.deep_view()),
    ensures
        records@.len() == balances@.len(),
        forall|i: int|
            #![trigger records@[i]]
            0 <= i < balances@.len() ==> {
                &&& records@[i].account_index == balances@[i].account_index
                &&& records@[i].mint@ == balances@[i].mint@
                &&& records@[i].ui_token_amount == balances@[i].ui_token_amount.ui_amount
                &&& records@[i].owner@ == balances@[i].owner@
            },
{
    assert(records.deep_view().len() == balances.deep_view().len());
    assert forall|i: int| #![trigger records@[i]] 0 <= i < balances@.len() implies {
        &&& records@[i].account_index == balances@[i].account_index
        &&& records@[i].mint@ == balances@[i].mint@
        &&& records@[i].ui_token_amount == balances@[i].ui_token_amount.ui_amount
        &&& records@[i].owner@ == balances@[i].owner@
    } by {
        assert(records.deep_view()[i] == records@[i]@);
        assert(balances.deep_view()[i] == balances@[i]@);
        lemma_token_balance(records@[i], balances@[i]);
    }
}

/// Stored inner instructions have the index and the instructions of the inner instructions, in
/// their order.
pub proof fn law_inner_instructions_fields(inner: &InnerInstructions, record: DbInnerInstructions)
    requires
        call_ensures(<DbInnerInstructions as From<&InnerInstructions>>::from, (inner,), record),
    ensures
        record.index == inner.index,
        record.instructions@.len() == inner.instructions@.len(),
        (forall|k: int|
            #![trigger record.instructions@[k]]
            0 <= k < inner.instructions@.len() ==> {
                &&& record.instructions@[k].program_id_index
                    == inner.instructions@[k].instruction.program_id_index
                &&& record.instructions@[k].accounts@.len()
                    == inner.instructions@[k].instruction.accounts@.len()
                &&& (forall|n: int| 0 <= n < inner.instructions@[k].instruction.accounts@.len()
                    ==> #[trigger] record.instructions@[k].accounts@[n]
                        == inner.instructions@[k].instruction.accounts@[n])
                &&& record.instructions@[k].data@ == inner.instructions@[k].instruction.data@
            }),
{
    lemma_inner(record, *inner);
}

/// A reward type is stored under its own name.
pub proof fn law_reward_type_kept(reward_type: &RewardType, record: DbRewardType)
    requires
        call_ensures(<DbRewardType as From<&RewardType>>::from, (reward_type,), record),
    ensures
        reward_type is Fee <==> record is Fee,
        reward_type is Rent <==> record is Rent,
        reward_type is Staking <==> record is Staking,
        reward_type is Voting <==> record is Voting,
{
}

/// A reward type is stored under its own name where there is one.
pub proof fn law_get_reward_type(reward: &Option<RewardType>, record: Option<DbRewardType>)
    requires
        call_ensures(get_reward_type, (reward,), record),
    ensures
        *reward is None <==> record is None,
        *reward == Some(RewardType::Fee) <==> record == Some(DbRewardType::Fee),
        *reward == Some(RewardType::Rent) <==> record == Some(DbRewardType::Rent),
        *reward == Some(RewardType::Staking) <==> record == Some(DbRewardType::Staking),
        *reward == Some(RewardType::Voting) <==> record == Some(DbRewardType::Voting),
{
}

/// A stored reward has the key, the amount, the balance, the type and the commission of the reward.
pub proof fn law_reward_fields(reward: &Reward, record: DbReward)
    requires
        call_ensures(<DbReward as From<&Reward>>::from, (reward,), record),
    ensures
        record.pubkey@ == reward.pubkey@,
        record.lamports == reward.lamports,
        reward.post_balance <= 0x7fff_ffff_ffff_ffff ==> record.post_balance == reward.post_balance,
        reward.post_balance > 0x7fff_ffff_ffff_ffff
            ==> record.post_balance == reward.post_balance - 0x1_0000_0000_0000_0000,
        (reward.reward_type is None <==> record.reward_type is None),
        (reward.reward_type == Some(RewardType::Fee)
            <==> record.reward_type == Some(DbRewardType::Fee)),
        (reward.reward_type == Some(RewardType::Rent)
            <==> record.reward_type == Some(DbRewardType::Rent)),
        (reward.reward_type == Some(RewardType::Staking)
            <==> record.reward_type == Some(DbRewardType::Staking)),
        (reward.reward_type == Some(RewardType::Voting)
            <==> record.reward_type == Some(DbRewardType::Voting)),
        (reward.commission is None <==> record.commission is None),
        (reward.commission is Some ==> record.commission->0 == reward.commission->0),
{
    lemma_reward(record, *reward);
}

/// A stored token balance has the account index, the mint, the amount and the owner of the balance.
pub proof fn law_token_balance_fields(
    balance: &TransactionTokenBalance,
    record: DbTransactionTokenBalance,
)
    requires
        call_ensures(
            <DbTransactionTokenBalance as From<&TransactionTokenBalance>>::from,
            (balance,),
            record,
        ),
    ensures
        record.account_index == balance.account_index,
        record.mint@ == balance.mint@,
        record.ui_token_amount == balance.ui_token_amount.ui_amount,
        record.owner@ == balance.owner@,
{
    lemma_token_balance(record, *balance);
}

/// The stored effects have the fee and the balances of the accounts, in their order.
pub proof fn law_meta_balances(meta: &TransactionStatusMeta, record: DbTransactionStatusMeta)
    requires
        call_ensures(DbTransactionStatusMeta::from, (meta,), record),
    ensures
        meta.fee <= 0x7fff_ffff_ffff_ffff ==> record.fee == meta.fee,
        meta.fee > 0x7fff_ffff_ffff_ffff ==> record.fee == meta.fee - 0x1_0000_0000_0000_0000,
        record.pre_balances@.len() == meta.pre_balances@.len(),
        forall|i: int|
            #![trigger record.pre_balances@[i]]
            0 <= i < meta.pre_balances@.len() ==> {
                &&& meta.pre_balances@[i] <= 0x7fff_ffff_ffff_ffff
                    ==> record.pre_balances@[i] == meta.pre_balances@[i]
                &&& meta.pre_balances@[i] > 0x7fff_ffff_ffff_ffff
                    ==> record.pre_balances@[i] == meta.pre_balances@[i] - 0x1_0000_0000_0000_0000
            },
        record.post_balances@.len() == meta.post_balances@.len(),
        forall|i: int|
            #![trigger record.post_balances@[i]]
            0 <= i < meta.post_balances@.len() ==> {
                &&& meta.post_balances@[i] <= 0x7fff_ffff_ffff_ffff
                    ==> record.post_balances@[i] == meta.post_balances@[i]
                &&& meta.post_balances@[i] > 0x7fff_ffff_ffff_ffff
                    ==> record.post_balances@[i] == meta.post_balances@[i] - 0x1_0000_0000_0000_0000
            },
{
    lemma_bigints(record.pre_balances@, meta.pre_balances@);
    lemma_bigints(record.post_balances@, meta.post_balances@);
}

/// The stored effects have the token balances from before and from after, each list in its order
/// and each balance with its own account index, mint, amount and owner.
pub proof fn law_meta_token_balances(meta: &TransactionStatusMeta, record: DbTransactionStatusMeta)
    requires
        call_ensures(DbTransactionStatusMeta::from, (meta,), record),
    ensures
        meta.pre_token_balances is Some <==> record.pre_token_balances is Some,
        meta.pre_token_balances is Some
            ==> record.pre_token_balances->0@.len() == meta.pre_token_balances->0@.len(),
        meta.pre_token_balances is Some ==> forall|i: int|
            #![trigger record.pre_token_balances->0@[i]]
            0 <= i < meta.pre_token_balances->0@.len() ==> {
                &&& record.pre_token_balances->0@[i].account_index
                    == meta.pre_token_balances->0@[i].account_index
                &&& record.pre_token_balances->0@[i].mint@ == meta.pre_token_balances->0@[i].mint@
                &&& record.pre_token_balances->0@[i].ui_token_amount
                    == meta.pre_token_balances->0@[i].ui_token_amount.ui_amount
                &&& record.pre_token_balances->0@[i].owner@ == meta.pre_token_balances->0@[i].owner@
            },
        meta.post_token_balances is Some <==> record.post_token_balances is Some,
        meta.post_token_balances is Some
            ==> record.post_token_balances->0@.len() == meta.post_token_balances->0@.len(),
        meta.post_token_balances is Some ==> forall|i: int|
            #![trigger record.post_token_balances->0@[i]]
            0 <= i < meta.post_token_balances->0@.len() ==> {
                &&& record.post_token_balances->0@[i].account_index
                    == meta.post_token_balances->0@[i].account_index
                &&& record.post_token_balances->0@[i].mint@ == meta.post_token_balances->0@[i].mint@
                &&& record.post_token_balances->0@[i].ui_token_amount
                    == meta.post_token_balances->0@[i].ui_token_amount.ui_amount
                &&& record.post_token_balances->0@[i].owner@
                    == meta.post_token_balances->0@[i].owner@
            },
{
    if meta.pre_token_balances is Some {
        lemma_token_balances(record.pre_token_balances->0, meta.pre_token_balances->0);
    }
    if meta.post_token_balances is Some {
        lemma_token_balances(record.post_token_balances->0, meta.post_token_balances->0);
    }
}

/// The stored effects have the rewards, in their order.
pub proof fn law_meta_rewards(meta: &TransactionStatusMeta, record: DbTransactionStatusMeta)
    requires
        call_ensures(DbTransactionStatusMeta::from, (meta,), record),
    ensures
        meta.rewards is Some <==> record.rewards is Some,
        meta.rewards is Some ==> record.rewards->0@.len() == meta.rewards->0@.len(),
        meta.rewards is Some ==> forall|i: int|
            #![trigger record.rewards->0@[i]]
            0 <= i < meta.rewards->0@.len() ==> {
                &&& record.rewards->0@[i].pubkey@ == meta.rewards->0@[i].pubkey@
                &&& record.rewards->0@[i].lamports == meta.rewards->0@[i].lamports
                &&& meta.rewards->0@[i].post_balance <= 0x7fff_ffff_ffff_ffff
                    ==> record.rewards->0@[i].post_balance == meta.rewards->0@[i].post_balance
                &&& meta.rewards->0@[i].post_balance > 0x7fff_ffff_ffff_ffff
                    ==> record.rewards->0@[i].post_balance
                        == meta.rewards->0@[i].post_balance - 0x1_0000_0000_0000_0000
                &&& (meta.rewards->0@[i].reward_type is None
                    <==> record.rewards->0@[i].reward_type is None)
                &&& (meta.rewards->0@[i].reward_type == Some(RewardType::Fee)
                    <==> record.rewards->0@[i].reward_type == Some(DbRewardType::Fee))
                &&& (meta.rewards->0@[i].reward_type == Some(RewardType::Rent)
                    <==> record.rewards->0@[i].reward_type == Some(DbRewardType::Rent))
                &&& (meta.rewards->0@[i].reward_type == Some(RewardType::Staking)
                    <==> record.rewards->0@[i].reward_type == Some(DbRewardType::Staking))
                &&& (meta.rewards->0@[i].reward_type == Some(RewardType::Voting)
                    <==> record.rewards->0@[i].reward_type == Some(DbRewardType::Voting))
                &&& (meta.rewards->0@[i].commission is None
                    <==> record.rewards->0@[i].commission is None)
                &&& (meta.rewards->0@[i].commission is Some
                    ==> record.rewards->0@[i].commission->0 == meta.rewards->0@[i].commission->0)
            },
{
    if meta.rewards is Some {
        lemma_rewards(record.rewards->0, meta.rewards->0);
    }
}

/// The stored effects have the inner instructions, in their order.
pub proof fn law_meta_inner_instructions(
    meta: &TransactionStatusMeta,
    record: DbTransactionStatusMeta,
)
    requires
        call_ensures(DbTransactionStatusMeta::from, (meta,), record),
    ensures
        meta.inner_instructions is Some <==> record.inner_instructions is Some,
        meta.inner_instructions is Some
            ==> record.inner_instructions->0@.len() == meta.inner_instructions->0@.len(),
        meta.inner_instructions is Some ==> forall|i: int|
            #![trigger record.inner_instructions->0@[i]]
            0 <= i < meta.inner_instructions->0@.len() ==> {
                &&& record.inner_instructions->0@[i].index == meta.inner_instructions->0@[i].index
                &&& record.inner_instructions->0@[i].instructions@.len()
                    == meta.inner_instructions->0@[i].instructions@.len()
                &&& (forall|k: int|
                    #![trigger record.inner_instructions->0@[i].instructions@[k]]
                    0 <= k < meta.inner_instructions->0@[i].instructions@.len() ==> {
                        &&& record.inner_instructions->0@[i].instructions@[k].program_id_index
                            == meta.inner_instructions->0@[i].instructions@[k].instruction.program_id_index
                        &&& record.inner_instructions->0@[i].instructions@[k].accounts@.len()
                            == meta.inner_instructions->0@[i].instructions@[k].instruction.accounts@.len()
                        &&& (forall|n: int|
                            0 <= n < meta.inner_instructions->0@[i].instructions@[k].instruction.accounts@.len()
                                ==> #[trigger] record.inner_instructions->0@[i].instructions@[k].accounts@[n]
                                == meta.inner_instructions->0@[i].instructions@[k].instruction.accounts@[n])
                        &&& record.inner_instructions->0@[i].instructions@[k].data@
                            == meta.inner_instructions->0@[i].instructions@[k].instruction.data@
                    })
            },
{
    if meta.inner_instructions is Some {
        lemma_inners(record.inner_instructions->0, meta.inner_instructions->0);
    }
}

/// The stored effects have the log messages, in their order.
pub proof fn law_meta_log_messages(meta: &TransactionStatusMeta, record: DbTransactionStatusMeta)
    requires
        call_ensures(DbTransactionStatusMeta::from, (meta,), record),
    ensures
        meta.log_messages is Some <==> record.log_messages is Some,
        meta.log_messages is Some ==> record.log_messages->0@.len() == meta.log_messages->0@.len(),
        meta.log_messages is Some ==> forall|i: int|
            0 <= i < meta.log_messages->0@.len() ==> (#[trigger] record.log_messages->0@[i])@
                == meta.log_messages->0@[i]@,
{
    if meta.log_messages is Some {
        let texts = meta.log_messages->0;
        let copies = record.log_messages->0;
        assert(copies.deep_view().len() == texts.deep_view().len());
        assert forall|i: int| 0 <= i < texts@.len() implies (#[trigger] copies@[i])@
            == texts@[i]@ by {
            assert(copies.deep_view()[i] == texts.deep_view()[i]);
        }
    }
}

/// The code of an error is the one of its name. Two errors have none.
pub proof fn law_code_of_name(error: &TransactionError, code: Option<DbTransactionErrorCode>)
    requires
        call_ensures(TransactionError::code, (error,), code),
    ensures
        error is AccountInUse <==> code == Some(DbTransactionErrorCode::AccountInUse),
        error is AccountLoadedTwice <==> code == Some(DbTransactionErrorCode::AccountLoadedTwice),
        error is AccountNotFound <==> code == Some(DbTransactionErrorCode::AccountNotFound),
        error is ProgramAccountNotFound
            <==> code == Some(DbTransactionErrorCode::ProgramAccountNotFound),
        error is InsufficientFundsForFee
            <==> code == Some(DbTransactionErrorCode::InsufficientFundsForFee),
        error is InvalidAccountForFee
            <==> code == Some(DbTransactionErrorCode::InvalidAccountForFee),
        error is AlreadyProcessed <==> code == Some(DbTransactionErrorCode::AlreadyProcessed),
        error is BlockhashNotFound <==> code == Some(DbTransactionErrorCode::BlockhashNotFound),
        error is InstructionError <==> code == Some(DbTransactionErrorCode::InstructionError),
        error is CallChainTooDeep <==> code == Some(DbTransactionErrorCode::CallChainTooDeep),
        error is MissingSignatureForFee
            <==> code == Some(DbTransactionErrorCode::MissingSignatureForFee),
        error is InvalidAccountIndex <==> code == Some(DbTransactionErrorCode::InvalidAccountIndex),
        error is SignatureFailure <==> code == Some(DbTransactionErrorCode::SignatureFailure),
        error is InvalidProgramForExecution
            <==> code == Some(DbTransactionErrorCode::InvalidProgramForExecution),
        error is SanitizeFailure <==> code == Some(DbTransactionErrorCode::SanitizeFailure),
        error is ClusterMaintenance <==> code == Some(DbTransactionErrorCode::ClusterMaintenance),
        error is AccountBorrowOutstanding
            <==> code == Some(DbTransactionErrorCode::AccountBorrowOutstanding),
        error is WouldExceedMaxAccountCostLimit
            <==> code == Some(DbTransactionErrorCode::WouldExceedMaxAccountCostLimit),
        error is WouldExceedMaxBlockCostLimit
            <==> code == Some(DbTransactionErrorCode::WouldExceedMaxBlockCostLimit),
        error is UnsupportedVersion <==> code == Some(DbTransactionErrorCode::UnsupportedVersion),
        error is InvalidWritableAccount
            <==> code == Some(DbTransactionErrorCode::InvalidWritableAccount),
        error is TooManyAccountLocks <==> code == Some(DbTransactionErrorCode::TooManyAccountLocks),
        error is AddressLookupTableNotFound
            <==> code == Some(DbTransactionErrorCode::AddressLookupTableNotFound),
        error is InvalidAddressLookupTableOwner
            <==> code == Some(DbTransactionErrorCode::InvalidAddressLookupTableOwner),
        error is InvalidAddressLookupTableData
            <==> code == Some(DbTransactionErrorCode::InvalidAddressLookupTableData),
        error is InvalidAddressLookupTableIndex
            <==> code == Some(DbTransactionErrorCode::InvalidAddressLookupTableIndex),
        error is InvalidRentPayingAccount
            <==> code == Some(DbTransactionErrorCode::InvalidRentPayingAccount),
        error is WouldExceedMaxVoteCostLimit
            <==> code == Some(DbTransactionErrorCode::WouldExceedMaxVoteCostLimit),
        error is WouldExceedAccountDataBlockLimit
            <==> code == Some(DbTransactionErrorCode::WouldExceedAccountDataBlockLimit),
        error is WouldExceedAccountDataTotalLimit
            <==> code == Some(DbTransactionErrorCode::WouldExceedAccountDataTotalLimit),
        error is DuplicateInstruction
            <==> code == Some(DbTransactionErrorCode::DuplicateInstruction),
        error is InsufficientFundsForRent
            <==> code == Some(DbTransactionErrorCode::InsufficientFundsForRent),
        error is MaxLoadedAccountsDataSizeExceeded
            <==> code == Some(DbTransactionErrorCode::MaxLoadedAccountsDataSizeExceeded),
        error is InvalidLoadedAccountsDataSizeLimit
            <==> code == Some(DbTransactionErrorCode::InvalidLoadedAccountsDataSizeLimit),
        error is ResanitizationNeeded
            <==> code == Some(DbTransactionErrorCode::ResanitizationNeeded),
        error is UnbalancedTransaction
            <==> code == Some(DbTransactionErrorCode::UnbalancedTransaction),
        error is ProgramExecutionTemporarilyRestricted
            <==> code == Some(DbTransactionErrorCode::ProgramExecutionTemporarilyRestricted),
        code is None <==> (error is ProgramCacheHitMaxLimit || error is CommitCancelled),
{
}

/// An error is stored under the code of its name.
pub proof fn law_stored_code_of_name(error: &TransactionError, code: DbTransactionErrorCode)
    requires
        call_ensures(DbTransactionErrorCode::from, (error,), code),
    ensures
        error is AccountInUse <==> code is AccountInUse,
        error is AccountLoadedTwice <==> code is AccountLoadedTwice,
        error is AccountNotFound <==> code is AccountNotFound,
        error is ProgramAccountNotFound <==> code is ProgramAccountNotFound,
        error is InsufficientFundsForFee <==> code is InsufficientFundsForFee,
        error is InvalidAccountForFee <==> code is InvalidAccountForFee,
        error is AlreadyProcessed <==> code is AlreadyProcessed,
        error is BlockhashNotFound <==> code is BlockhashNotFound,
        error is InstructionError <==> code is InstructionError,
        error is CallChainTooDeep <==> code is CallChainTooDeep,
        error is MissingSignatureForFee <==> code is MissingSignatureForFee,
        error is InvalidAccountIndex <==> code is InvalidAccountIndex,
        error is SignatureFailure <==> code is SignatureFailure,
        error is InvalidProgramForExecution <==> code is InvalidProgramForExecution,
        error is SanitizeFailure <==> code is SanitizeFailure,
        error is ClusterMaintenance <==> code is ClusterMaintenance,
        error is AccountBorrowOutstanding <==> code is AccountBorrowOutstanding,
        error is WouldExceedMaxAccountCostLimit <==> code is WouldExceedMaxAccountCostLimit,
        error is WouldExceedMaxBlockCostLimit <==> code is WouldExceedMaxBlockCostLimit,
        error is UnsupportedVersion <==> code is UnsupportedVersion,
        error is InvalidWritableAccount <==> code is InvalidWritableAccount,
        error is TooManyAccountLocks <==> code is TooManyAccountLocks,
        error is AddressLookupTableNotFound <==> code is AddressLookupTableNotFound,
        error is InvalidAddressLookupTableOwner <==> code is InvalidAddressLookupTableOwner,
        error is InvalidAddressLookupTableData <==> code is InvalidAddressLookupTableData,
        error is InvalidAddressLookupTableIndex <==> code is InvalidAddressLookupTableIndex,
        error is InvalidRentPayingAccount <==> code is InvalidRentPayingAccount,
        error is WouldExceedMaxVoteCostLimit <==> code is WouldExceedMaxVoteCostLimit,
        error is WouldExceedAccountDataBlockLimit <==> code is WouldExceedAccountDataBlockLimit,
        error is WouldExceedAccountDataTotalLimit <==> code is WouldExceedAccountDataTotalLimit,
        error is DuplicateInstruction <==> code is DuplicateInstruction,
        error is InsufficientFundsForRent <==> code is InsufficientFundsForRent,
        error is MaxLoadedAccountsDataSizeExceeded <==> code is MaxLoadedAccountsDataSizeExceeded,
        error is InvalidLoadedAccountsDataSizeLimit <==> code is InvalidLoadedAccountsDataSizeLimit,
        error is ResanitizationNeeded <==> code is ResanitizationNeeded,
        error is UnbalancedTransaction <==> code is UnbalancedTransaction,
        error is ProgramExecutionTemporarilyRestricted
            <==> code is ProgramExecutionTemporarilyRestricted,
{
}

/// The decimal notation of a `u8` has its digits.
proof fn lemma_digits(idx: u8)
    ensures
        ({
            let digits = decimal(idx as nat);
            &&& 1 <= digits.len() <= 3
            &&& forall|i: int| 0 <= i < digits.len() ==> '0' <= #[trigger] digits[i] <= '9'
            &&& digits.len() == 1 ==> idx == digits[0] as int - '0' as int
            &&& digits.len() == 2 ==> idx == 10 * (digits[0] as int - '0' as int)
                + (digits[1] as int - '0' as int)
            &&& digits.len() == 3 ==> idx == 100 * (digits[0] as int - '0' as int)
                + 10 * (digits[1] as int - '0' as int) + (digits[2] as int - '0' as int)
            &&& digits.len() > 1 ==> digits[0] != '0'
        }),
{
    reveal_with_fuel(decimal, 3);
}

/// The detail for a failed instruction is a message that names its index, in decimal without
/// leading zeros, and the error; or, if the message has more than 256 bytes, what follows the
/// first 256.
pub proof fn law_instruction_error_detail(idx: u8, error: &str, detail: String) -> (digits: Seq<
    char,
>)
    requires
        call_ensures(instruction_error_detail, (idx, error), detail),
    ensures
        ({
            &&& 1 <= digits.len() <= 3
            &&& forall|i: int| 0 <= i < digits.len() ==> '0' <= #[trigger] digits[i] <= '9'
            &&& digits.len() == 1 ==> idx == digits[0] as int - '0' as int
            &&& digits.len() == 2 ==> idx == 10 * (digits[0] as int - '0' as int)
                + (digits[1] as int - '0' as int)
            &&& digits.len() == 3 ==> idx == 100 * (digits[0] as int - '0' as int)
                + 10 * (digits[1] as int - '0' as int) + (digits[2] as int - '0' as int)
            &&& digits.len() > 1 ==> digits[0] != '0'
        }),
        ({
            let message = "InstructionError: idx ("@ + digits + "), error: ("@ + error@ + ")"@;
            &&& encode_utf8(message).len() <= 256 ==> detail@ == message
            &&& encode_utf8(message).len() > 256 ==> detail@ == decode_utf8(
                encode_utf8(message).skip(256),
            )
        }),
{
    lemma_digits(idx);
    decimal(idx as nat)
}

/// An outcome is stored as an error exactly if it is a failure, under the code of the failure's
/// name. Only the failure of an instruction has a detail.
pub proof fn law_stored_error_fields(
    result: &Result<(), TransactionError>,
    error: Option<DbTransactionError>,
)
    requires
        call_ensures(get_transaction_error, (result,), error),
        *result matches Err(reason) ==> !(reason is ProgramCacheHitMaxLimit)
            && !(reason is CommitCancelled),
    ensures
        result is Ok <==> error is None,
        result is Err ==> (result->Err_0 is AccountInUse <==> error->0.error_code is AccountInUse),
        result is Err
            ==> (result->Err_0 is AccountLoadedTwice
                <==> error->0.error_code is AccountLoadedTwice),
        result is Err
            ==> (result->Err_0 is AccountNotFound <==> error->0.error_code is AccountNotFound),
        result is Err
            ==> (result->Err_0 is ProgramAccountNotFound
                <==> error->0.error_code is ProgramAccountNotFound),
        result is Err
            ==> (result->Err_0 is InsufficientFundsForFee
                <==> error->0.error_code is InsufficientFundsForFee),
        result is Err
            ==> (result->Err_0 is InvalidAccountForFee
                <==> error->0.error_code is InvalidAccountForFee),
        result is Err
            ==> (result->Err_0 is AlreadyProcessed <==> error->0.error_code is AlreadyProcessed),
        result is Err
            ==> (result->Err_0 is BlockhashNotFound <==> error->0.error_code is BlockhashNotFound),
        result is Err
            ==> (result->Err_0 is InstructionError <==> error->0.error_code is InstructionError),
        result is Err
            ==> (result->Err_0 is CallChainTooDeep <==> error->0.error_code is CallChainTooDeep),
        result is Err
            ==> (result->Err_0 is MissingSignatureForFee
                <==> error->0.error_code is MissingSignatureForFee),
        result is Err
            ==> (result->Err_0 is InvalidAccountIndex
                <==> error->0.error_code is InvalidAccountIndex),
        result is Err
            ==> (result->Err_0 is SignatureFailure <==> error->0.error_code is SignatureFailure),
        result is Err
            ==> (result->Err_0 is InvalidProgramForExecution
                <==> error->0.error_code is InvalidProgramForExecution),
        result is Err
            ==> (result->Err_0 is SanitizeFailure <==> error->0.error_code is SanitizeFailure),
        result is Err
            ==> (result->Err_0 is ClusterMaintenance
                <==> error->0.error_code is ClusterMaintenance),
        result is Err
            ==> (result->Err_0 is AccountBorrowOutstanding
                <==> error->0.error_code is AccountBorrowOutstanding),
        result is Err
            ==> (result->Err_0 is WouldExceedMaxAccountCostLimit
                <==> error->0.error_code is WouldExceedMaxAccountCostLimit),
        result is Err
            ==> (result->Err_0 is WouldExceedMaxBlockCostLimit
                <==> error->0.error_code is WouldExceedMaxBlockCostLimit),
        result is Err
            ==> (result->Err_0 is UnsupportedVersion
                <==> error->0.error_code is UnsupportedVersion),
        result is Err
            ==> (result->Err_0 is InvalidWritableAccount
                <==> error->0.error_code is InvalidWritableAccount),
        result is Err
            ==> (result->Err_0 is TooManyAccountLocks
                <==> error->0.error_code is TooManyAccountLocks),
        result is Err
            ==> (result->Err_0 is AddressLookupTableNotFound
                <==> error->0.error_code is AddressLookupTableNotFound),
        result is Err
            ==> (result->Err_0 is InvalidAddressLookupTableOwner
                <==> error->0.error_code is InvalidAddressLookupTableOwner),
        result is Err
            ==> (result->Err_0 is InvalidAddressLookupTableData
                <==> error->0.error_code is InvalidAddressLookupTableData),
        result is Err
            ==> (result->Err_0 is InvalidAddressLookupTableIndex
                <==> error->0.error_code is InvalidAddressLookupTableIndex),
        result is Err
            ==> (result->Err_0 is InvalidRentPayingAccount
                <==> error->0.error_code is InvalidRentPayingAccount),
        result is Err
            ==> (result->Err_0 is WouldExceedMaxVoteCostLimit
                <==> error->0.error_code is WouldExceedMaxVoteCostLimit),
        result is Err
            ==> (result->Err_0 is WouldExceedAccountDataBlockLimit
                <==> error->0.error_code is WouldExceedAccountDataBlockLimit),
        result is Err
            ==> (result->Err_0 is WouldExceedAccountDataTotalLimit
                <==> error->0.error_code is WouldExceedAccountDataTotalLimit),
        result is Err
            ==> (result->Err_0 is DuplicateInstruction
                <==> error->0.error_code is DuplicateInstruction),
        result is Err
            ==> (result->Err_0 is InsufficientFundsForRent
                <==> error->0.error_code is InsufficientFundsForRent),
        result is Err
            ==> (result->Err_0 is MaxLoadedAccountsDataSizeExceeded
                <==> error->0.error_code is MaxLoadedAccountsDataSizeExceeded),
        result is Err
            ==> (result->Err_0 is InvalidLoadedAccountsDataSizeLimit
                <==> error->0.error_code is InvalidLoadedAccountsDataSizeLimit),
        result is Err
            ==> (result->Err_0 is ResanitizationNeeded
                <==> error->0.error_code is ResanitizationNeeded),
        result is Err
            ==> (result->Err_0 is UnbalancedTransaction
                <==> error->0.error_code is UnbalancedTransaction),
        result is Err
            ==> (result->Err_0 is ProgramExecutionTemporarilyRestricted
                <==> error->0.error_code is ProgramExecutionTemporarilyRestricted),
        result is Err ==> (result->Err_0 is InstructionError <==> error->0.error_detail is Some),
{
}

/// The stored detail of a failed instruction names its index, in decimal without leading zeros, and
/// shows the text of its error. It has at most 256 bytes.
pub proof fn law_stored_error_detail(
    result: &Result<(), TransactionError>,
    error: Option<DbTransactionError>,
) -> (digits: Seq<char>)
    requires
        call_ensures(get_transaction_error, (result,), error),
        result matches Err(TransactionError::InstructionError(_, _)),
    ensures
        ({
            let idx = result->Err_0->InstructionError_0;
            &&& 1 <= digits.len() <= 3
            &&& forall|i: int| 0 <= i < digits.len() ==> '0' <= #[trigger] digits[i] <= '9'
            &&& digits.len() == 1 ==> idx == digits[0] as int - '0' as int
            &&& digits.len() == 2 ==> idx == 10 * (digits[0] as int - '0' as int)
                + (digits[1] as int - '0' as int)
            &&& digits.len() == 3 ==> idx == 100 * (digits[0] as int - '0' as int)
                + 10 * (digits[1] as int - '0' as int) + (digits[2] as int - '0' as int)
            &&& digits.len() > 1 ==> digits[0] != '0'
        }),
        error->0.error_detail->0@ == "InstructionError: idx ("@ + digits + "), error: ("@
            + instruction_error_text(result->Err_0->InstructionError_1) + ")"@,
        encode_utf8(error->0.error_detail->0@).len() <= 256,
{
    let idx = result->Err_0->InstructionError_0;
    lemma_digits(idx);
    decimal(idx as nat)
}

/// The stored effects have the error that the outcome of the transaction is stored as.
pub proof fn law_meta_error(
    meta: &TransactionStatusMeta,
    record: DbTransactionStatusMeta,
    error: Option<DbTransactionError>,
)
    requires
        call_ensures(DbTransactionStatusMeta::from, (meta,), record),
        call_ensures(get_transaction_error, (&meta.status,), error),
    ensures
        record.error is Some <==> error is Some,
        error is Some ==> record.error->0.error_code == error->0.error_code,
        error is Some ==> (record.error->0.error_detail is Some <==> error->0.error_detail is Some),
        error is Some && error->0.error_detail is Some ==> record.error->0.error_detail->0@
            == error->0.error_detail->0@,
{
}

/// A row has the signature, the signatures, the flags and the numbers of the transaction, the
/// hash that it was given, and the one message column that its message type says.
pub proof fn law_row_with_hash_fields(
    slot: u64,
    info: &ReplicaTransactionInfoV3,
    write_version: u64,
    hash: Vec<u8>,
    row: DbTransaction,
)
    requires
        call_ensures(
            build_db_transaction_with_hash,
            (slot, info, write_version, hash),
            row,
        ),
    ensures
        row.signature@ == info.signature@,
        row.is_vote == info.is_vote,
        slot <= 0x7fff_ffff_ffff_ffff ==> row.slot == slot,
        slot > 0x7fff_ffff_ffff_ffff ==> row.slot == slot - 0x1_0000_0000_0000_0000,
        write_version <= 0x7fff_ffff_ffff_ffff ==> row.write_version == write_version,
        write_version > 0x7fff_ffff_ffff_ffff
            ==> row.write_version == write_version - 0x1_0000_0000_0000_0000,
        info.index <= 0x7fff_ffff_ffff_ffff ==> row.index == info.index,
        info.index > 0x7fff_ffff_ffff_ffff ==> row.index == info.index - 0x1_0000_0000_0000_0000,
        row.signatures@.len() == info.transaction.signatures@.len(),
        forall|i: int| 0 <= i < info.transaction.signatures@.len()
            ==> (#[trigger] row.signatures@[i])@ == info.transaction.signatures@[i]@,
        info.transaction.message is Legacy <==> row.message_type == 0,
        info.transaction.message is V0 <==> row.message_type == 1,
        info.transaction.message is Legacy <==> row.legacy_message is Some,
        info.transaction.message is V0 <==> row.v0_loaded_message is Some,
        row.message_hash@ == hash@,
{
    lemma_byte_strings(row.signatures, info.transaction.signatures);
}

/// A row has the signature, the signatures, the flags and the numbers of the transaction, and the
/// one message column that its message type says.
pub proof fn law_row_fields(
    slot: u64,
    info: &ReplicaTransactionInfoV3,
    write_version: u64,
    row: DbTransaction,
)
    requires
        call_ensures(build_db_transaction, (slot, info, write_version), row),
    ensures
        row.signature@ == info.signature@,
        row.is_vote == info.is_vote,
        slot <= 0x7fff_ffff_ffff_ffff ==> row.slot == slot,
        slot > 0x7fff_ffff_ffff_ffff ==> row.slot == slot - 0x1_0000_0000_0000_0000,
        write_version <= 0x7fff_ffff_ffff_ffff ==> row.write_version == write_version,
        write_version > 0x7fff_ffff_ffff_ffff
            ==> row.write_version == write_version - 0x1_0000_0000_0000_0000,
        info.index <= 0x7fff_ffff_ffff_ffff ==> row.index == info.index,
        info.index > 0x7fff_ffff_ffff_ffff ==> row.index == info.index - 0x1_0000_0000_0000_0000,
        row.signatures@.len() == info.transaction.signatures@.len(),
        forall|i: int| 0 <= i < info.transaction.signatures@.len()
            ==> (#[trigger] row.signatures@[i])@ == info.transaction.signatures@[i]@,
        info.transaction.message is Legacy <==> row.message_type == 0,
        info.transaction.message is V0 <==> row.message_type == 1,
        info.transaction.message is Legacy <==> row.legacy_message is Some,
        info.transaction.message is V0 <==> row.v0_loaded_message is Some,
{
    lemma_byte_strings(row.signatures, info.transaction.signatures);
}

/// A row has the hash of the message of the transaction.
pub proof fn law_row_hash(
    slot: u64,
    info: &ReplicaTransactionInfoV3,
    write_version: u64,
    row: DbTransaction,
    hash: Vec<u8>,
)
    requires
        call_ensures(build_db_transaction, (slot, info, write_version), row),
        call_ensures(VersionedMessage::hash, (&info.transaction.message,), hash),
    ensures
        row.message_hash@ == hash@,
        row.message_hash@ == message_hash(info.transaction.message@),
        row.message_hash@.len() == 32,
{
}

/// A row is the one that is built with the hash of the message.
pub proof fn law_row_is_row_with_hash(
    slot: u64,
    info: &ReplicaTransactionInfoV3,
    write_version: u64,
    hash: Vec<u8>,
    row: DbTransaction,
    with_hash: DbTransaction,
)
    requires
        call_ensures(build_db_transaction, (slot, info, write_version), row),
        call_ensures(VersionedMessage::hash, (&info.transaction.message,), hash),
        call_ensures(
            build_db_transaction_with_hash,
            (slot, info, write_version, hash),
            with_hash,
        ),
    ensures
        row@ == with_hash@,
{
}

/// The legacy message column is what the message is stored as.
pub proof fn law_row_legacy_message(
    slot: u64,
    info: &ReplicaTransactionInfoV3,
    write_version: u64,
    row: DbTransaction,
    message: &Message,
    record: DbTransactionMessage,
)
    requires
        call_ensures(build_db_transaction, (slot, info, write_version), row),
        info.transaction.message == VersionedMessage::Legacy(*message),
        call_ensures(<DbTransactionMessage as From<&Message>>::from, (message,), record),
    ensures
        row.legacy_message is Some,
        row.legacy_message->0@ == record@,
{
}

/// The version 0 message column is what the message is stored as.
pub proof fn law_row_v0_message(
    slot: u64,
    info: &ReplicaTransactionInfoV3,
    write_version: u64,
    row: DbTransaction,
    message: &MessageV0,
    record: DbLoadedMessageV0,
)
    requires
        call_ensures(build_db_transaction, (slot, info, write_version), row),
        info.transaction.message == VersionedMessage::V0(*message),
        call_ensures(<DbLoadedMessageV0 as From<&MessageV0>>::from, (message,), record),
    ensures
        row.v0_loaded_message is Some,
        row.v0_loaded_message->0@ == record@,
{
}

/// The effects column is what the effects are stored as.
pub proof fn law_row_meta(
    slot: u64,
    info: &ReplicaTransactionInfoV3,
    write_version: u64,
    row: DbTransaction,
    record: DbTransactionStatusMeta,
)
    requires
        call_ensures(build_db_transaction, (slot, info, write_version), row),
        call_ensures(DbTransactionStatusMeta::from, (&info.transaction_status_meta,), record),
    ensures
        row.meta@ == record@,
{
}

/// The legacy message column is what the message is stored as.
pub proof fn law_row_with_hash_legacy_message(
    slot: u64,
    info: &ReplicaTransactionInfoV3,
    write_version: u64,
    hash: Vec<u8>,
    row: DbTransaction,
    message: &Message,
    record: DbTransactionMessage,
)
    requires
        call_ensures(
            build_db_transaction_with_hash,
            (slot, info, write_version, hash),
            row,
        ),
        info.transaction.message == VersionedMessage::Legacy(*message),
        call_ensures(<DbTransactionMessage as From<&Message>>::from, (message,), record),
    ensures
        row.legacy_message is Some,
        row.legacy_message->0@ == record@,
{
}

/// The version 0 message column is what the message is stored as.
pub proof fn law_row_with_hash_v0_message(
    slot: u64,
    info: &ReplicaTransactionInfoV3,
    write_version: u64,
    hash: Vec<u8>,
    row: DbTransaction,
    message: &MessageV0,
    record: DbLoadedMessageV0,
)
    requires
        call_ensures(
            build_db_transaction_with_hash,
            (slot, info, write_version, hash),
            row,
        ),
        info.transaction.message == VersionedMessage::V0(*message),
        call_ensures(<DbLoadedMessageV0 as From<&MessageV0>>::from, (message,), record),
    ensures
        row.v0_loaded_message is Some,
        row.v0_loaded_message->0@ == record@,
{
}

/// The effects column is what the effects are stored as.
pub proof fn law_row_with_hash_meta(
    slot: u64,
    info: &ReplicaTransactionInfoV3,
    write_version: u64,
    hash: Vec<u8>,
    row: DbTransaction,
    record: DbTransactionStatusMeta,
)
    requires
        call_ensures(
            build_db_transaction_with_hash,
            (slot, info, write_version, hash),
            row,
        ),
        call_ensures(DbTransactionStatusMeta::from, (&info.transaction_status_meta,), record),
    ensures
        row.meta@ == record@,
{
}

/// The value for each parameter of the statement is the field of the row that the column at its
/// place names, and the last one is the time. This holds of every row.
pub proof fn law_parameters_follow_columns<'a, T>(
    request: &'a LogTransactionRequest,
    updated_on: T,
    values: Vec<TransactionParameter<'a, T>>,
)
    requires
        call_ensures(LogTransactionRequest::parameters::<T>, (request, updated_on), values),
    ensures
        values@.len() == 12,
        values@[0] == TransactionParameter::<'a, T>::Bytes(&request.transaction_info.signature),
        values@[1] == TransactionParameter::<'a, T>::Bool(&request.transaction_info.is_vote),
        values@[2] == TransactionParameter::<'a, T>::BigInt(&request.transaction_info.slot),
        values@[3]
            == TransactionParameter::<'a, T>::SmallInt(&request.transaction_info.message_type),
        values@[4]
            == TransactionParameter::<'a, T>::LegacyMessage(
                &request.transaction_info.legacy_message,
            ),
        values@[5]
            == TransactionParameter::<'a, T>::V0LoadedMessage(
                &request.transaction_info.v0_loaded_message,
            ),
        values@[6]
            == TransactionParameter::<'a, T>::ByteStrings(&request.transaction_info.signatures),
        values@[7] == TransactionParameter::<'a, T>::Bytes(&request.transaction_info.message_hash),
        values@[8] == TransactionParameter::<'a, T>::Meta(&request.transaction_info.meta),
        values@[9]
            == TransactionParameter::<'a, T>::BigInt(&request.transaction_info.write_version),
        values@[10] == TransactionParameter::<'a, T>::BigInt(&request.transaction_info.index),
        values@[11] == TransactionParameter::<'a, T>::Timestamp(updated_on),
{
}

/// A row that was written is reported as a success, and one that was not as an update error with
/// the text of what went wrong.
pub proof fn law_report_persistence(
    written: Result<(), String>,
    result: Result<(), GeyserPluginError>,
)
    requires
        call_ensures(report_persistence, (written,), result),
    ensures
        written is Ok <==> result is Ok,
        written matches Err(error)
            ==> result matches Err(GeyserPluginError::AccountsUpdateError { msg }) && msg@
            == "Failed to persist the update of transaction info to the PostgreSQL database. Error: "@
            + error@,
{
}

/// A row that was queued is reported as a success, and one that was not as an update error with the
/// text of what went wrong.
pub proof fn law_report_queueing(queued: Result<(), String>, result: Result<(), GeyserPluginError>)
    requires
        call_ensures(report_queueing, (queued,), result),
    ensures
        queued is Ok <==> result is Ok,
        queued matches Err(error)
            ==> result matches Err(GeyserPluginError::SlotStatusUpdateError { msg }) && msg@
            == "Failed to update the transaction, error: "@
            + error@,
{
}

/// A statement that was prepared is handed on, and a failure is reported as a schema error with the
/// texts of what went wrong and of the configuration.
pub proof fn law_report_preparation<S>(
    prepared: Result<S, String>,
    config: &ConfigText,
    result: Result<S, GeyserPluginError>,
)
    requires
        call_ensures(report_preparation::<S>, (prepared, config), result),
    ensures
        prepared matches Ok(statement) ==> result == Ok::<S, GeyserPluginError>(statement),
        prepared matches Err(error) ==> result matches Err(
            GeyserPluginError::Custom(GeyserPluginPostgresError::DataSchemaError { msg }),
        ) && msg@ == "Error in preparing for the transaction update PostgreSQL database: ("@
            + error@ + ") host: "@ + config.host@ + " user: "@ + config.user@
            + " config: "@ + config.config@,
{
}

/// Storing a row hands `query` the values for the columns of the row and reports what it returned.
pub proof fn law_log_transaction_impl<
    T,
    F: FnOnce(Vec<TransactionParameter<T>>) -> Result<(), String>,
>(
    request: LogTransactionRequest,
    updated_on: T,
    query: F,
    result: Result<(), GeyserPluginError>,
)
    requires
        call_ensures(log_transaction_impl::<T, F>, (request, updated_on, query), result),
    ensures
        exists|values: Vec<TransactionParameter<T>>, written: Result<(), String>|
            #![trigger call_ensures(query, (values,), written)]
            {
                &&& call_ensures(query, (values,), written)
                &&& values@.len() == 12
                &&& values@[0]
                    == TransactionParameter::<T>::Bytes(&request.transaction_info.signature)
                &&& values@[1] == TransactionParameter::<T>::Bool(&request.transaction_info.is_vote)
                &&& values@[2] == TransactionParameter::<T>::BigInt(&request.transaction_info.slot)
                &&& values@[3]
                    == TransactionParameter::<T>::SmallInt(&request.transaction_info.message_type)
                &&& values@[4]
                    == TransactionParameter::<T>::LegacyMessage(
                &request.transaction_info.legacy_message,
            )
                &&& values@[5]
                    == TransactionParameter::<T>::V0LoadedMessage(
                &request.transaction_info.v0_loaded_message,
            )
                &&& values@[6]
                    == TransactionParameter::<T>::ByteStrings(&request.transaction_info.signatures)
                &&& values@[7]
                    == TransactionParameter::<T>::Bytes(&request.transaction_info.message_hash)
                &&& values@[8] == TransactionParameter::<T>::Meta(&request.transaction_info.meta)
                &&& values@[9]
                    == TransactionParameter::<T>::BigInt(&request.transaction_info.write_version)
                &&& values@[10]
                    == TransactionParameter::<T>::BigInt(&request.transaction_info.index)
                &&& values@[11] == TransactionParameter::<T>::Timestamp(updated_on)
                &&& (written is Ok <==> result is Ok)
                &&& (written matches Err(error)
                    ==> result matches Err(GeyserPluginError::AccountsUpdateError { msg }) && msg@
                    == "Failed to persist the update of transaction info to the PostgreSQL database. Error: "@
                    + error@)
            },
{
    let (values, written) = choose|
        values: Vec<TransactionParameter<T>>,
        written: Result<(), String>,
    |
        #![trigger call_ensures(query, (values,), written)]
        {
            &&& values@ == parameters(&request.transaction_info, updated_on)
            &&& call_ensures(query, (values,), written)
            &&& reports_persistence(written, result)
        };
    assert(call_ensures(query, (values,), written));
}

/// Preparing the statement hands `prepare` its text and reports what it returned.
pub proof fn law_build_transaction_info_upsert_statement<S, F: FnOnce(&str) -> Result<S, String>>(
    prepare: F,
    config: &ConfigText,
    result: Result<S, GeyserPluginError>,
)
    requires
        call_ensures(build_transaction_info_upsert_statement::<S, F>, (prepare, config), result),
    ensures
        TRANSACTION_UPSERT@ == "INSERT INTO transaction AS txn (signature, is_vote, slot, message_type, legacy_message, \
        v0_loaded_message, signatures, message_hash, meta, write_version, index, updated_on) \
        VALUES ($1, $2, $3, $4, $5, $6, $7, $8, $9, $10, $11, $12) \
        ON CONFLICT (slot, signature) DO UPDATE SET is_vote=excluded.is_vote, \
        message_type=excluded.message_type, \
        legacy_message=excluded.legacy_message, \
        v0_loaded_message=excluded.v0_loaded_message, \
        signatures=excluded.signatures, \
        message_hash=excluded.message_hash, \
        meta=excluded.meta, \
        write_version=excluded.write_version, \
        index=excluded.index,
        updated_on=excluded.updated_on"@,
        exists|prepared: Result<S, String>|
            #![trigger call_ensures(prepare, (TRANSACTION_UPSERT,), prepared)]
            {
                &&& call_ensures(prepare, (TRANSACTION_UPSERT,), prepared)
                &&& (prepared matches Ok(statement)
                    ==> result == Ok::<S, GeyserPluginError>(statement))
                &&& (prepared matches Err(error) ==> result matches Err(
                    GeyserPluginError::Custom(GeyserPluginPostgresError::DataSchemaError { msg }),
                ) && msg@ == "Error in preparing for the transaction update PostgreSQL database: ("@
                    + error@ + ") host: "@ + config.host@ + " user: "@ + config.user@
                    + " config: "@ + config.config@)
            },
{
}

/// A request holds the row of the transaction.
pub proof fn law_request_holds_row(
    slot: u64,
    info: &ReplicaTransactionInfoV3,
    write_version: u64,
    request: LogTransactionRequest,
    row: DbTransaction,
)
    requires
        call_ensures(
            ParallelPostgresClient::build_transaction_request,
            (slot, info, write_version),
            request,
        ),
        call_ensures(build_db_transaction, (slot, info, write_version), row),
    ensures
        request.transaction_info@ == row@,
        request.transaction_info.signature@ == info.signature@,
        slot <= 0x7fff_ffff_ffff_ffff ==> request.transaction_info.slot == slot,
        slot > 0x7fff_ffff_ffff_ffff
            ==> request.transaction_info.slot == slot - 0x1_0000_0000_0000_0000,
        write_version <= 0x7fff_ffff_ffff_ffff
            ==> request.transaction_info.write_version == write_version,
        write_version > 0x7fff_ffff_ffff_ffff
            ==> request.transaction_info.write_version == write_version - 0x1_0000_0000_0000_0000,
{
}

/// Logging a transaction gives it the next write version, which is greater by one, or zero after
/// the largest. It hands `send` a row with that version, the signature and the slot, and reports
/// what `send` returned.
pub proof fn law_log_transaction_info<F: FnOnce(LogTransactionRequest) -> Result<(), String>>(
    client: &mut ParallelPostgresClient,
    info: &ReplicaTransactionInfoV3,
    slot: u64,
    send: F,
    result: Result<(), GeyserPluginError>,
)
    requires
        call_ensures(
            ParallelPostgresClient::log_transaction_info::<F>,
            (client, info, slot, send),
            result,
        ),
    ensures
        old(client).transaction_write_version < u64::MAX ==> final(client).transaction_write_version
            == old(client).transaction_write_version + 1,
        old(client).transaction_write_version == u64::MAX
            ==> final(client).transaction_write_version == 0,
        exists|request: LogTransactionRequest, queued: Result<(), String>|
            #![trigger call_ensures(send, (request,), queued)]
            {
                let version = final(client).transaction_write_version;
                &&& call_ensures(send, (request,), queued)
                &&& request.transaction_info.signature@ == info.signature@
                &&& slot <= 0x7fff_ffff_ffff_ffff ==> request.transaction_info.slot == slot
                &&& slot > 0x7fff_ffff_ffff_ffff ==> request.transaction_info.slot == slot
                    - 0x1_0000_0000_0000_0000
                &&& version <= 0x7fff_ffff_ffff_ffff ==> request.transaction_info.write_version
                    == version
                &&& version > 0x7fff_ffff_ffff_ffff ==> request.transaction_info.write_version
                    == version - 0x1_0000_0000_0000_0000
                &&& (queued is Ok <==> result is Ok)
                &&& (queued matches Err(error)
                    ==> result matches Err(GeyserPluginError::SlotStatusUpdateError { msg }) && msg@
                    == "Failed to update the transaction, error: "@ + error@)
            },
{
}

/// The row that is handed to `send` when a transaction is logged is the row that is built for it
/// with the write version that it got.
pub proof fn law_logged_row_is_built_row<F: FnOnce(LogTransactionRequest) -> Result<(), String>>(
    client: &mut ParallelPostgresClient,
    info: &ReplicaTransactionInfoV3,
    slot: u64,
    send: F,
    result: Result<(), GeyserPluginError>,
    write_version: u64,
    row: DbTransaction,
)
    requires
        call_ensures(
            ParallelPostgresClient::log_transaction_info::<F>,
            (client, info, slot, send),
            result,
        ),
        call_ensures(build_db_transaction, (slot, info, write_version), row),
    ensures
        final(client).transaction_write_version == write_version ==> exists|
            request: LogTransactionRequest,
            queued: Result<(), String>,
        |
            #![trigger call_ensures(send, (request,), queued)]
            call_ensures(send, (request,), queued) && request.transaction_info@ == row@,
{
}

/// The hash of a message has 32 bytes, and messages with the same contents have the same hash.
pub proof fn law_message_hash(
    message: &VersionedMessage,
    hash: Vec<u8>,
    other: &VersionedMessage,
    other_hash: Vec<u8>,
)
    requires
        call_ensures(VersionedMessage::hash, (message,), hash),
        call_ensures(VersionedMessage::hash, (other,), other_hash),
    ensures
        hash@ == message_hash(message@),
        hash@.len() == 32,
        message@ == other@ ==> hash@ == other_hash@,
{
}

/// The write version that follows another is greater by one, and zero after the largest.
pub proof fn law_next_write_version(version: u64)
    ensures
        version < u64::MAX ==> next_write_version(version) == version + 1,
        version == u64::MAX ==> next_write_version(version) == 0,
{
}

/// `fits` tells whether none of the lists of a message has more than 65535 entries.
pub proof fn law_message_fits(message: &VersionedMessage, fits: bool)
    requires
        call_ensures(VersionedMessage::fits, (message,), fits),
    ensures
        fits <==> match *message {
            VersionedMessage::Legacy(message) => {
                &&& message.account_keys@.len() <= 65535
                &&& message.instructions@.len() <= 65535
                &&& (forall|i: int|
                #![trigger message.instructions@[i]]
                0 <= i < message.instructions@.len()
                    ==> message.instructions@[i].accounts@.len() <= 65535
                    && message.instructions@[i].data@.len() <= 65535)
            },
            VersionedMessage::V0(message) => {
                &&& message.account_keys@.len() <= 65535
                &&& message.instructions@.len() <= 65535
                &&& message.address_table_lookups@.len() <= 65535
                &&& (forall|i: int|
                #![trigger message.instructions@[i]]
                0 <= i < message.instructions@.len()
                    ==> message.instructions@[i].accounts@.len() <= 65535
                    && message.instructions@[i].data@.len() <= 65535)
                &&& (forall|i: int|
                    #![trigger message.address_table_lookups@[i]]
                    0 <= i < message.address_table_lookups@.len()
                        ==> message.address_table_lookups@[i].writable_indexes@.len() <= 65535
                        && message.address_table_lookups@[i].readonly_indexes@.len() <= 65535)
            },
        },
{
    match *message {
        VersionedMessage::Legacy(message) => {
            lemma_instructions_fit(message.instructions);
        },
        VersionedMessage::V0(message) => {
            lemma_instructions_fit(message.instructions);
            lemma_lookups_fit(message.address_table_lookups);
        },
    }
}

/// The lists of instructions that fit are those without a list of more than 65535 entries.
proof fn lemma_instructions_fit(instructions: Vec<CompiledInstruction>)
    ensures
        instructions_fit(instructions.deep_view()) <==> {
            &&& instructions@.len() <= 65535
            &&& (forall|i: int|
                #![trigger instructions@[i]]
                0 <= i < instructions@.len() ==> instructions@[i].accounts@.len() <= 65535
                    && instructions@[i].data@.len() <= 65535)
        },
{
    let views = instructions.deep_view();
    assert(views.len() == instructions@.len());
    assert forall|i: int| 0 <= i < instructions@.len() implies #[trigger] views[i]
        == instructions@[i]@ by {}
    if instructions_fit(views) {
        assert forall|i: int| #![trigger instructions@[i]] 0 <= i < instructions@.len() implies
            instructions@[i].accounts@.len() <= 65535 && instructions@[i].data@.len() <= 65535 by {
            assert(instruction_fits(views[i]));
        }
    }
}

/// The lists of lookups that fit are those without a list of more than 65535 entries.
proof fn lemma_lookups_fit(lookups: Vec<MessageAddressTableLookup>)
    ensures
        lookups_fit(lookups.deep_view()) <==> {
            &&& lookups@.len() <= 65535
            &&& (forall|i: int|
                #![trigger lookups@[i]]
                0 <= i < lookups@.len() ==> lookups@[i].writable_indexes@.len() <= 65535
                    && lookups@[i].readonly_indexes@.len() <= 65535)
        },
{
    let views = lookups.deep_view();
    assert(views.len() == lookups@.len());
    assert forall|i: int| 0 <= i < lookups@.len() implies #[trigger] views[i] == lookups@[i]@ by {}
    if lookups_fit(views) {
        assert forall|i: int| #![trigger lookups@[i]] 0 <= i < lookups@.len() implies
            lookups@[i].writable_indexes@.len() <= 65535 && lookups@[i].readonly_indexes@.len()
            <= 65535 by {
            assert(lookup_fits(views[i]));
        }
    }
}

/// `can_be_stored` tells whether the message of a transaction fits and the transaction did not fail
/// with one of the two errors that have no code.
pub proof fn law_can_be_stored(info: &ReplicaTransactionInfoV3, fits: bool, storable: bool)
    requires
        call_ensures(VersionedMessage::fits, (&info.transaction.message,), fits),
        call_ensures(ReplicaTransactionInfoV3::can_be_stored, (info,), storable),
    ensures
        storable <==> {
            &&& fits
            &&& info.transaction_status_meta.status != Err::<(), TransactionError>(
                TransactionError::ProgramCacheHitMaxLimit,
            )
            &&& info.transaction_status_meta.status != Err::<(), TransactionError>(
                TransactionError::CommitCancelled,
            )
        },
{
}

/// A message that fits can be hashed.
pub proof fn law_fitting_message_is_accepted(message: &VersionedMessage)
    requires
        call_ensures(VersionedMessage::fits, (message,), true),
    ensures
        call_requires(VersionedMessage::hash, (message,)),
{
}

/// A transaction that can be stored is accepted for every slot and write version.
pub proof fn law_storable_transaction_is_accepted(
    slot: u64,
    info: &ReplicaTransactionInfoV3,
    write_version: u64,
    hash: Vec<u8>,
)
    requires
        call_ensures(ReplicaTransactionInfoV3::can_be_stored, (info,), true),
    ensures
        call_requires(build_db_transaction, (slot, info, write_version)),
        call_requires(build_db_transaction_with_hash, (slot, info, write_version, hash)),
        call_requires(
            ParallelPostgresClient::build_transaction_request,
            (slot, info, write_version),
        ),
        call_requires(DbTransactionStatusMeta::from, (&info.transaction_status_meta,)),
        call_requires(get_transaction_error, (&info.transaction_status_meta.status,)),
{
}

/// An error that has a code is accepted wherever it is stored.
pub proof fn law_coded_error_is_accepted(error: &TransactionError)
    requires
        !(error is ProgramCacheHitMaxLimit),
        !(error is CommitCancelled),
    ensures
        call_requires(DbTransactionErrorCode::from, (error,)),
        call_requires(get_transaction_error, (&Err::<(), TransactionError>(*error),)),
{
}

/// The detail for a failed instruction can be had if the message has at most 256 bytes, or if no
/// character lies across the first 256.
pub proof fn law_instruction_error_is_accepted(idx: u8, error: &str, digits: Seq<char>)
    requires
        ({
            &&& 1 <= digits.len() <= 3
            &&& forall|i: int| 0 <= i < digits.len() ==> '0' <= #[trigger] digits[i] <= '9'
            &&& digits.len() == 1 ==> idx == digits[0] as int - '0' as int
            &&& digits.len() == 2 ==> idx == 10 * (digits[0] as int - '0' as int)
                + (digits[1] as int - '0' as int)
            &&& digits.len() == 3 ==> idx == 100 * (digits[0] as int - '0' as int)
                + 10 * (digits[1] as int - '0' as int) + (digits[2] as int - '0' as int)
            &&& digits.len() > 1 ==> digits[0] != '0'
        }),
        ({
            let bytes = encode_utf8(
                "InstructionError: idx ("@ + digits + "), error: ("@ + error@ + ")"@,
            );
            bytes.len() <= 256 || is_char_boundary(bytes, 256)
        }),
    ensures
        call_requires(instruction_error_detail, (idx, error)),
{
    lemma_digits(idx);
    assert(digits =~= decimal(idx as nat));
}

/// A transaction that can be stored is logged by every client with a `send` that accepts every row.
pub proof fn law_storable_transaction_is_logged<
    F: FnOnce(LogTransactionRequest) -> Result<(), String>,
>(client: &mut ParallelPostgresClient, info: &ReplicaTransactionInfoV3, slot: u64, send: F)
    requires
        call_ensures(ReplicaTransactionInfoV3::can_be_stored, (info,), true),
        forall|request: LogTransactionRequest| #[trigger] call_requires(send, (request,)),
    ensures
        call_requires(
            ParallelPostgresClient::log_transaction_info::<F>,
            (client, info, slot, send),
        ),
{
}

/// Every row is stored with a `query` that accepts every list of values.
pub proof fn law_every_row_is_written<
    T,
    F: FnOnce(Vec<TransactionParameter<T>>) -> Result<(), String>,
>(request: LogTransactionRequest, updated_on: T, query: F)
    requires
        forall|values: Vec<TransactionParameter<T>>| #[trigger] call_requires(query, (values,)),
    ensures
        call_requires(log_transaction_impl::<T, F>, (request, updated_on, query)),
{
}

} // verus!
