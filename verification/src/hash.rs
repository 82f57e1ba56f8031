//! The hash that identifies a message.
use crate::replica::{
    CompiledInstruction, CompiledInstructionView, Message, MessageAddressTableLookup,
    MessageAddressTableLookupView, MessageV0, MessageV0View, MessageView, VersionedMessage,
    VersionedMessageView,
};
use solana_message::compiled_instruction::CompiledInstruction as SolanaInstruction;
use solana_message::legacy::Message as SolanaMessage;
use solana_message::v0::Message as SolanaMessageV0;
use solana_message::v0::MessageAddressTableLookup as SolanaLookup;
use solana_message::MessageHeader as SolanaHeader;
use solana_message::VersionedMessage as SolanaVersionedMessage;
use solana_sdk::pubkey::Pubkey;
use vstd::prelude::*;

verus! {

/// The longest list that the wire format of messages can hold.
pub const MAX_LIST_LEN: usize = 65535;

/// Whether the wire format can hold an instruction.
pub open spec fn instruction_fits(instruction: CompiledInstructionView) -> bool {
    &&& instruction.accounts.len() <= MAX_LIST_LEN
    &&& instruction.data.len() <= MAX_LIST_LEN
}

/// Whether the wire format can hold a list of instructions.
pub open spec fn instructions_fit(instructions: Seq<CompiledInstructionView>) -> bool {
    &&& instructions.len() <= MAX_LIST_LEN
    &&& forall|i: int|
        0 <= i < instructions.len() ==> instruction_fits(#[trigger] instructions[i])
}

/// Whether the wire format can hold an address table lookup.
pub open spec fn lookup_fits(lookup: MessageAddressTableLookupView) -> bool {
    &&& lookup.writable_indexes.len() <= MAX_LIST_LEN
    &&& lookup.readonly_indexes.len() <= MAX_LIST_LEN
}

/// Whether the wire format can hold a list of address table lookups.
pub open spec fn lookups_fit(lookups: Seq<MessageAddressTableLookupView>) -> bool {
    &&& lookups.len() <= MAX_LIST_LEN
    &&& forall|i: int| 0 <= i < lookups.len() ==> lookup_fits(#[trigger] lookups[i])
}

/// Whether the wire format can hold a legacy message.
pub open spec fn legacy_message_fits(message: MessageView) -> bool {
    &&& message.account_keys.len() <= MAX_LIST_LEN
    &&& instructions_fit(message.instructions)
}

/// Whether the wire format can hold a version 0 message.
pub open spec fn message_v0_fits(message: MessageV0View) -> bool {
    &&& message.account_keys.len() <= MAX_LIST_LEN
    &&& instructions_fit(message.instructions)
    &&& lookups_fit(message.address_table_lookups)
}

/// Whether the wire format can hold a message.
pub open spec fn message_fits(message: VersionedMessageView) -> bool {
    match message {
        VersionedMessageView::Legacy(message) => legacy_message_fits(message),
        VersionedMessageView::V0(message) => message_v0_fits(message),
    }
}

/// The hash that `VersionedMessage::hash` of `solana_message` computes of a message.
pub uninterp spec fn message_hash(message: VersionedMessageView) -> Seq<u8>;

/// Hashes a legacy message with `VersionedMessage::hash` of `solana_message`.
///
/// Trusted: the hash depends on what the message holds alone. The call serializes the message
/// first, which fails by a panic on a list that the wire format cannot hold.
#[verifier::external_body]
fn hash_legacy_message(message: &Message) -> (hash: [u8; 32])
    requires
        legacy_message_fits(message@),
    ensures
        hash@ == message_hash(VersionedMessageView::Legacy(message@)),
{
    SolanaVersionedMessage::Legacy(SolanaMessage {
        header: SolanaHeader {
            num_required_signatures: message.header.num_required_signatures,
            num_readonly_signed_accounts: message.header.num_readonly_signed_accounts,
            num_readonly_unsigned_accounts: message.header.num_readonly_unsigned_accounts,
        },
        account_keys: message.account_keys.iter().map(|key| Pubkey::from(*key)).collect(),
        recent_blockhash: message.recent_blockhash.into(),
        instructions: message.instructions.iter().map(|i| SolanaInstruction::new_from_raw_parts(
            i.program_id_index, i.data.clone(), i.accounts.clone())).collect(),
    }).hash().to_bytes()
}

/// Hashes a version 0 message with `VersionedMessage::hash` of `solana_message`.
///
/// Trusted: the hash depends on what the message holds alone. The call serializes the message
/// first, which fails by a panic on a list that the wire format cannot hold.
#[verifier::external_body]
fn hash_message_v0(message: &MessageV0) -> (hash: [u8; 32])
    requires
        message_v0_fits(message@),
    ensures
        hash@ == message_hash(VersionedMessageView::V0(message@)),
{
    let MessageV0 { header, account_keys, recent_blockhash, instructions, address_table_lookups } = message;
    SolanaVersionedMessage::V0(SolanaMessageV0 {
        header: SolanaHeader {
            num_required_signatures: header.num_required_signatures,
            num_readonly_signed_accounts: header.num_readonly_signed_accounts,
            num_readonly_unsigned_accounts: header.num_readonly_unsigned_accounts,
        },
        account_keys: account_keys.iter().map(|key| Pubkey::from(*key)).collect(),
        recent_blockhash: (*recent_blockhash).into(),
        instructions: instructions.iter().map(|i| SolanaInstruction::new_from_raw_parts(
            i.program_id_index, i.data.clone(), i.accounts.clone())).collect(),
        address_table_lookups: address_table_lookups.iter().map(|l| SolanaLookup {
            account_key: Pubkey::from(l.account_key), writable_indexes: l.writable_indexes.clone(), readonly_indexes: l.readonly_indexes.clone() }).collect(),
    }).hash().to_bytes()
}

/// Whether the wire format can hold a list of instructions.
fn check_instructions(instructions: &Vec<CompiledInstruction>) -> (fits: bool)
    ensures
        fits == instructions_fit(instructions.deep_view()),
{
    if instructions.len() > MAX_LIST_LEN {
        return false;
    }
    for i in 0..instructions.len()
        invariant
            forall|k: int|
                0 <= k < i ==> instruction_fits(#[trigger] instructions.deep_view()[k]),
    {
        let instruction = &instructions[i];
        if instruction.accounts.len() > MAX_LIST_LEN || instruction.data.len() > MAX_LIST_LEN {
            assert(!instruction_fits(instructions.deep_view()[i as int]));
            return false;
        }
    }
    true
}

/// Whether the wire format can hold a list of address table lookups.
fn check_lookups(lookups: &Vec<MessageAddressTableLookup>) -> (fits: bool)
    ensures
        fits == lookups_fit(lookups.deep_view()),
{
    if lookups.len() > MAX_LIST_LEN {
        return false;
    }
    for i in 0..lookups.len()
        invariant
            forall|k: int| 0 <= k < i ==> lookup_fits(#[trigger] lookups.deep_view()[k]),
    {
        let lookup = &lookups[i];
        if lookup.writable_indexes.len() > MAX_LIST_LEN || lookup.readonly_indexes.len()
            > MAX_LIST_LEN {
            assert(!lookup_fits(lookups.deep_view()[i as int]));
            return false;
        }
    }
    true
}

impl VersionedMessage {
    /// Whether the wire format can hold this message.
    pub fn fits(&self) -> (fits: bool)
        ensures
            fits == message_fits(self@),
    {
        match self {
            VersionedMessage::Legacy(message) => {
                message.account_keys.len() <= MAX_LIST_LEN && check_instructions(
                    &message.instructions,
                )
            },
            VersionedMessage::V0(message) => {
                message.account_keys.len() <= MAX_LIST_LEN && check_instructions(
                    &message.instructions,
                ) && check_lookups(&message.address_table_lookups)
            },
        }
    }

    /// The hash of a message that the wire format can hold.
    pub fn hash(&self) -> (hash: Vec<u8>)
        requires
            message_fits(self@),
        ensures
            hash@ == message_hash(self@),
            hash@.len() == 32,
    {
        let hash = match self {
            VersionedMessage::Legacy(message) => hash_legacy_message(message),
            VersionedMessage::V0(message) => hash_message_v0(message),
        };
        vstd::slice::slice_to_vec(hash.as_slice())
    }
}

} // verus!
