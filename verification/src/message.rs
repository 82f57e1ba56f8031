//! Messages as the database holds them.
//!
//! A record with lists is pinned down by its view, not as a value. So the contract of a conversion
//! to such a record stands on `from` itself, and its `FromSpecImpl` promises nothing beyond it.
use crate::number::{smallints, to_byte_strings, to_smallints};
use crate::replica::{
    CompiledInstruction, CompiledInstructionView, LoadedAddresses, LoadedAddressesView, Message,
    MessageAddressTableLookup, MessageAddressTableLookupView, MessageHeader, MessageV0,
    MessageV0View, MessageView,
};
use vstd::prelude::*;

verus! {

/// A stored instruction.
#[derive(Clone, Debug)]
pub struct DbCompiledInstruction {
    pub program_id_index: i16,
    pub accounts: Vec<i16>,
    pub data: Vec<u8>,
}

/// What a [`DbCompiledInstruction`] holds.
#[verifier::ext_equal]
pub struct DbCompiledInstructionView {
    pub program_id_index: i16,
    pub accounts: Seq<i16>,
    pub data: Seq<u8>,
}

impl View for DbCompiledInstruction {
    type V = DbCompiledInstructionView;

    open spec fn view(&self) -> DbCompiledInstructionView {
        DbCompiledInstructionView {
            program_id_index: self.program_id_index,
            accounts: self.accounts@,
            data: self.data@,
        }
    }
}

impl DeepView for DbCompiledInstruction {
    type V = DbCompiledInstructionView;

    open spec fn deep_view(&self) -> DbCompiledInstructionView {
        self@
    }
}

/// How an instruction is stored: with its indexes widened.
pub open spec fn stored_instruction(
    instruction: CompiledInstructionView,
) -> DbCompiledInstructionView {
    DbCompiledInstructionView {
        program_id_index: instruction.program_id_index as i16,
        accounts: smallints(instruction.accounts),
        data: instruction.data,
    }
}

/// How a list of instructions is stored.
pub open spec fn stored_instructions(instructions: Seq<CompiledInstructionView>) -> Seq<
    DbCompiledInstructionView,
> {
    instructions.map_values(|instruction: CompiledInstructionView| stored_instruction(instruction))
}

impl From<&CompiledInstruction> for DbCompiledInstruction {
    fn from(instruction: &CompiledInstruction) -> (record: Self)
        ensures
            record@ == stored_instruction(instruction@),
    {
        let record = DbCompiledInstruction {
            program_id_index: instruction.program_id_index as i16,
            accounts: to_smallints(&instruction.accounts),
            data: instruction.data.clone(),
        };
        assert(record.data@ =~= instruction.data@);
        record
    }
}

impl vstd::std_specs::convert::FromSpecImpl<&CompiledInstruction> for DbCompiledInstruction {
    open spec fn obeys_from_spec() -> bool {
        false
    }

    open spec fn from_spec(instruction: &CompiledInstruction) -> Self {
        arbitrary()
    }
}

/// Stores a list of instructions.
fn store_instructions(instructions: &Vec<CompiledInstruction>) -> (records: Vec<
    DbCompiledInstruction,
>)
    ensures
        records.deep_view() == stored_instructions(instructions.deep_view()),
{
    let mut records: Vec<DbCompiledInstruction> = Vec::with_capacity(instructions.len());
    for i in 0..instructions.len()
        invariant
            records@.len() == i,
            records.deep_view() == stored_instructions(instructions.deep_view().take(i as int)),
    {
        let ghost before = records.deep_view();
        let record = DbCompiledInstruction::from(&instructions[i]);
        records.push(record);
        assert(records.deep_view() =~= before.push(record@));
        assert(records.deep_view() =~= stored_instructions(instructions.deep_view().take(i + 1)));
    }
    assert(instructions.deep_view().take(instructions@.len() as int) =~= instructions.deep_view());
    records
}

/// A stored message header.
#[derive(Clone, Debug)]
pub struct DbTransactionMessageHeader {
    pub num_required_signatures: i16,
    pub num_readonly_signed_accounts: i16,
    pub num_readonly_unsigned_accounts: i16,
}

/// How a message header is stored: with its counts widened.
pub open spec fn stored_header(header: MessageHeader) -> DbTransactionMessageHeader {
    DbTransactionMessageHeader {
        num_required_signatures: header.num_required_signatures as i16,
        num_readonly_signed_accounts: header.num_readonly_signed_accounts as i16,
        num_readonly_unsigned_accounts: header.num_readonly_unsigned_accounts as i16,
    }
}

impl From<&MessageHeader> for DbTransactionMessageHeader {
    fn from(header: &MessageHeader) -> (record: Self) {
        DbTransactionMessageHeader {
            num_required_signatures: header.num_required_signatures as i16,
            num_readonly_signed_accounts: header.num_readonly_signed_accounts as i16,
            num_readonly_unsigned_accounts: header.num_readonly_unsigned_accounts as i16,
        }
    }
}

impl vstd::std_specs::convert::FromSpecImpl<&MessageHeader> for DbTransactionMessageHeader {
    open spec fn obeys_from_spec() -> bool {
        true
    }

    open spec fn from_spec(header: &MessageHeader) -> Self {
        stored_header(*header)
    }
}

/// A stored legacy message.
#[derive(Clone, Debug)]
pub struct DbTransactionMessage {
    pub header: DbTransactionMessageHeader,
    pub account_keys: Vec<Vec<u8>>,
    pub recent_blockhash: Vec<u8>,
    pub instructions: Vec<DbCompiledInstruction>,
}

/// What a [`DbTransactionMessage`] holds.
#[verifier::ext_equal]
pub struct DbTransactionMessageView {
    pub header: DbTransactionMessageHeader,
    pub account_keys: Seq<Seq<u8>>,
    pub recent_blockhash: Seq<u8>,
    pub instructions: Seq<DbCompiledInstructionView>,
}

impl View for DbTransactionMessage {
    type V = DbTransactionMessageView;

    open spec fn view(&self) -> DbTransactionMessageView {
        DbTransactionMessageView {
            header: self.header,
            account_keys: self.account_keys.deep_view(),
            recent_blockhash: self.recent_blockhash@,
            instructions: self.instructions.deep_view(),
        }
    }
}

impl DeepView for DbTransactionMessage {
    type V = DbTransactionMessageView;

    open spec fn deep_view(&self) -> DbTransactionMessageView {
        self@
    }
}

/// How a legacy message is stored.
pub open spec fn stored_message(message: MessageView) -> DbTransactionMessageView {
    DbTransactionMessageView {
        header: stored_header(message.header),
        account_keys: message.account_keys,
        recent_blockhash: message.recent_blockhash,
        instructions: stored_instructions(message.instructions),
    }
}

impl From<&Message> for DbTransactionMessage {
    fn from(message: &Message) -> (record: Self)
        ensures
            record@ == stored_message(message@),
    {
        DbTransactionMessage {
            header: DbTransactionMessageHeader::from(&message.header),
            account_keys: to_byte_strings(&message.account_keys),
            recent_blockhash: vstd::slice::slice_to_vec(message.recent_blockhash.as_slice()),
            instructions: store_instructions(&message.instructions),
        }
    }
}

impl vstd::std_specs::convert::FromSpecImpl<&Message> for DbTransactionMessage {
    open spec fn obeys_from_spec() -> bool {
        false
    }

    open spec fn from_spec(message: &Message) -> Self {
        arbitrary()
    }
}

/// A stored address table lookup.
#[derive(Clone, Debug)]
pub struct DbTransactionMessageAddressTableLookup {
    pub account_key: Vec<u8>,
    pub writable_indexes: Vec<i16>,
    pub readonly_indexes: Vec<i16>,
}

/// What a [`DbTransactionMessageAddressTableLookup`] holds.
#[verifier::ext_equal]
pub struct DbTransactionMessageAddressTableLookupView {
    pub account_key: Seq<u8>,
    pub writable_indexes: Seq<i16>,
    pub readonly_indexes: Seq<i16>,
}

impl View for DbTransactionMessageAddressTableLookup {
    type V = DbTransactionMessageAddressTableLookupView;

    open spec fn view(&self) -> DbTransactionMessageAddressTableLookupView {
        DbTransactionMessageAddressTableLookupView {
            account_key: self.account_key@,
            writable_indexes: self.writable_indexes@,
            readonly_indexes: self.readonly_indexes@,
        }
    }
}

impl DeepView for DbTransactionMessageAddressTableLookup {
    type V = DbTransactionMessageAddressTableLookupView;

    open spec fn deep_view(&self) -> DbTransactionMessageAddressTableLookupView {
        self@
    }
}

/// How an address table lookup is stored: with its indexes widened.
pub open spec fn stored_lookup(
    lookup: MessageAddressTableLookupView,
) -> DbTransactionMessageAddressTableLookupView {
    DbTransactionMessageAddressTableLookupView {
        account_key: lookup.account_key,
        writable_indexes: smallints(lookup.writable_indexes),
        readonly_indexes: smallints(lookup.readonly_indexes),
    }
}

/// How a list of address table lookups is stored.
pub open spec fn stored_lookups(lookups: Seq<MessageAddressTableLookupView>) -> Seq<
    DbTransactionMessageAddressTableLookupView,
> {
    lookups.map_values(|lookup: MessageAddressTableLookupView| stored_lookup(lookup))
}

impl From<&MessageAddressTableLookup> for DbTransactionMessageAddressTableLookup {
    fn from(address_table_lookup: &MessageAddressTableLookup) -> (record: Self)
        ensures
            record@ == stored_lookup(address_table_lookup@),
    {
        DbTransactionMessageAddressTableLookup {
            account_key: vstd::slice::slice_to_vec(address_table_lookup.account_key.as_slice()),
            writable_indexes: to_smallints(&address_table_lookup.writable_indexes),
            readonly_indexes: to_smallints(&address_table_lookup.readonly_indexes),
        }
    }
}

impl vstd::std_specs::convert::FromSpecImpl<&MessageAddressTableLookup> for DbTransactionMessageAddressTableLookup {
    open spec fn obeys_from_spec() -> bool {
        false
    }

    open spec fn from_spec(address_table_lookup: &MessageAddressTableLookup) -> Self {
        arbitrary()
    }
}

/// A stored version 0 message.
#[derive(Clone, Debug)]
pub struct DbTransactionMessageV0 {
    pub header: DbTransactionMessageHeader,
    pub account_keys: Vec<Vec<u8>>,
    pub recent_blockhash: Vec<u8>,
    pub instructions: Vec<DbCompiledInstruction>,
    pub address_table_lookups: Vec<DbTransactionMessageAddressTableLookup>,
}

/// What a [`DbTransactionMessageV0`] holds.
#[verifier::ext_equal]
pub struct DbTransactionMessageV0View {
    pub header: DbTransactionMessageHeader,
    pub account_keys: Seq<Seq<u8>>,
    pub recent_blockhash: Seq<u8>,
    pub instructions: Seq<DbCompiledInstructionView>,
    pub address_table_lookups: Seq<DbTransactionMessageAddressTableLookupView>,
}

impl View for DbTransactionMessageV0 {
    type V = DbTransactionMessageV0View;

    open spec fn view(&self) -> DbTransactionMessageV0View {
        DbTransactionMessageV0View {
            header: self.header,
            account_keys: self.account_keys.deep_view(),
            recent_blockhash: self.recent_blockhash@,
            instructions: self.instructions.deep_view(),
            address_table_lookups: self.address_table_lookups.deep_view(),
        }
    }
}

/// How a version 0 message is stored.
pub open spec fn stored_message_v0(message: MessageV0View) -> DbTransactionMessageV0View {
    DbTransactionMessageV0View {
        header: stored_header(message.header),
        account_keys: message.account_keys,
        recent_blockhash: message.recent_blockhash,
        instructions: stored_instructions(message.instructions),
        address_table_lookups: stored_lookups(message.address_table_lookups),
    }
}

/// Stores a list of address table lookups.
fn store_lookups(lookups: &Vec<MessageAddressTableLookup>) -> (records: Vec<
    DbTransactionMessageAddressTableLookup,
>)
    ensures
        records.deep_view() == stored_lookups(lookups.deep_view()),
{
    let mut records: Vec<DbTransactionMessageAddressTableLookup> = Vec::with_capacity(
        lookups.len(),
    );
    for i in 0..lookups.len()
        invariant
            records@.len() == i,
            records.deep_view() == stored_lookups(lookups.deep_view().take(i as int)),
    {
        let ghost before = records.deep_view();
        let record = DbTransactionMessageAddressTableLookup::from(&lookups[i]);
        records.push(record);
        assert(records.deep_view() =~= before.push(record@));
        assert(records.deep_view() =~= stored_lookups(lookups.deep_view().take(i + 1)));
    }
    assert(lookups.deep_view().take(lookups@.len() as int) =~= lookups.deep_view());
    records
}

impl From<&MessageV0> for DbTransactionMessageV0 {
    fn from(message: &MessageV0) -> (record: Self)
        ensures
            record@ == stored_message_v0(message@),
    {
        DbTransactionMessageV0 {
            header: DbTransactionMessageHeader::from(&message.header),
            account_keys: to_byte_strings(&message.account_keys),
            recent_blockhash: vstd::slice::slice_to_vec(message.recent_blockhash.as_slice()),
            instructions: store_instructions(&message.instructions),
            address_table_lookups: store_lookups(&message.address_table_lookups),
        }
    }
}

impl vstd::std_specs::convert::FromSpecImpl<&MessageV0> for DbTransactionMessageV0 {
    open spec fn obeys_from_spec() -> bool {
        false
    }

    open spec fn from_spec(message: &MessageV0) -> Self {
        arbitrary()
    }
}

/// Stored loaded addresses.
#[derive(Clone, Debug)]
pub struct DbLoadedAddresses {
    pub writable: Vec<Vec<u8>>,
    pub readonly: Vec<Vec<u8>>,
}

/// What a [`DbLoadedAddresses`] holds.
#[verifier::ext_equal]
pub struct DbLoadedAddressesView {
    pub writable: Seq<Seq<u8>>,
    pub readonly: Seq<Seq<u8>>,
}

impl View for DbLoadedAddresses {
    type V = DbLoadedAddressesView;

    open spec fn view(&self) -> DbLoadedAddressesView {
        DbLoadedAddressesView {
            writable: self.writable.deep_view(),
            readonly: self.readonly.deep_view(),
        }
    }
}

/// How loaded addresses are stored: byte for byte.
pub open spec fn stored_addresses(loaded_addresses: LoadedAddressesView) -> DbLoadedAddressesView {
    DbLoadedAddressesView {
        writable: loaded_addresses.writable,
        readonly: loaded_addresses.readonly,
    }
}

impl From<&LoadedAddresses> for DbLoadedAddresses {
    fn from(loaded_addresses: &LoadedAddresses) -> (record: Self)
        ensures
            record@ == stored_addresses(loaded_addresses@),
    {
        DbLoadedAddresses {
            writable: to_byte_strings(&loaded_addresses.writable),
            readonly: to_byte_strings(&loaded_addresses.readonly),
        }
    }
}

impl vstd::std_specs::convert::FromSpecImpl<&LoadedAddresses> for DbLoadedAddresses {
    open spec fn obeys_from_spec() -> bool {
        false
    }

    open spec fn from_spec(loaded_addresses: &LoadedAddresses) -> Self {
        arbitrary()
    }
}

/// A stored version 0 message with what stands for its loaded addresses.
#[derive(Clone, Debug)]
pub struct DbLoadedMessageV0 {
    pub message: DbTransactionMessageV0,
    pub loaded_addresses: DbLoadedAddresses,
}

/// What a [`DbLoadedMessageV0`] holds.
#[verifier::ext_equal]
pub struct DbLoadedMessageV0View {
    pub message: DbTransactionMessageV0View,
    pub loaded_addresses: DbLoadedAddressesView,
}

impl View for DbLoadedMessageV0 {
    type V = DbLoadedMessageV0View;

    open spec fn view(&self) -> DbLoadedMessageV0View {
        DbLoadedMessageV0View {
            message: self.message@,
            loaded_addresses: self.loaded_addresses@,
        }
    }
}

impl DeepView for DbLoadedMessageV0 {
    type V = DbLoadedMessageV0View;

    open spec fn deep_view(&self) -> DbLoadedMessageV0View {
        self@
    }
}

/// How a version 0 message is stored together with its loaded addresses. The addresses themselves
/// are not known from the message; each lookup contributes the list of its table indexes.
pub open spec fn stored_loaded_message(message: MessageV0View) -> DbLoadedMessageV0View {
    DbLoadedMessageV0View {
        message: stored_message_v0(message),
        loaded_addresses: DbLoadedAddressesView {
            writable: message.address_table_lookups.map_values(
                |lookup: MessageAddressTableLookupView| lookup.writable_indexes,
            ),
            readonly: message.address_table_lookups.map_values(
                |lookup: MessageAddressTableLookupView| lookup.readonly_indexes,
            ),
        },
    }
}

impl From<&MessageV0> for DbLoadedMessageV0 {
    fn from(message: &MessageV0) -> (record: Self)
        ensures
            record@ == stored_loaded_message(message@),
    {
        let lookups = &message.address_table_lookups;
        let mut writable: Vec<Vec<u8>> = Vec::with_capacity(lookups.len());
        let mut readonly: Vec<Vec<u8>> = Vec::with_capacity(lookups.len());
        for i in 0..lookups.len()
            invariant
                writable@.len() == i,
                readonly@.len() == i,
                forall|k: int|
                    0 <= k < i ==> #[trigger] writable@[k]@ == lookups@[k].writable_indexes@,
                forall|k: int|
                    0 <= k < i ==> #[trigger] readonly@[k]@ == lookups@[k].readonly_indexes@,
        {
            let writable_indexes = lookups[i].writable_indexes.clone();
            let readonly_indexes = lookups[i].readonly_indexes.clone();
            assert(writable_indexes@ =~= lookups@[i as int].writable_indexes@);
            assert(readonly_indexes@ =~= lookups@[i as int].readonly_indexes@);
            writable.push(writable_indexes);
            readonly.push(readonly_indexes);
        }
        proof {
            let expected = stored_loaded_message(message@).loaded_addresses;
            assert forall|k: int| 0 <= k < lookups@.len() implies #[trigger] writable.deep_view()[k]
                == expected.writable[k] by {
                assert(writable@[k].deep_view() =~= writable@[k]@);
            }
            assert forall|k: int| 0 <= k < lookups@.len() implies #[trigger] readonly.deep_view()[k]
                == expected.readonly[k] by {
                assert(readonly@[k].deep_view() =~= readonly@[k]@);
            }
            assert(writable.deep_view() =~= expected.writable);
            assert(readonly.deep_view() =~= expected.readonly);
        }
        DbLoadedMessageV0 {
            message: DbTransactionMessageV0::from(message),
            loaded_addresses: DbLoadedAddresses { writable, readonly },
        }
    }
}

impl vstd::std_specs::convert::FromSpecImpl<&MessageV0> for DbLoadedMessageV0 {
    open spec fn obeys_from_spec() -> bool {
        false
    }

    open spec fn from_spec(message: &MessageV0) -> Self {
        arbitrary()
    }
}

} // verus!
