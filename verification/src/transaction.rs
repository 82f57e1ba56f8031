//! The row of the `transaction` table.
use crate::error::{detail_fits, has_stored_error};
use crate::hash::{message_fits, message_hash};
use crate::message::{
    stored_loaded_message, stored_message, DbLoadedMessageV0, DbLoadedMessageV0View,
    DbTransactionMessage, DbTransactionMessageView,
};
use crate::meta::{stored_meta, DbTransactionStatusMeta, DbTransactionStatusMetaView};
use crate::number::{bigint, to_bigint, to_byte_strings};
use crate::replica::{
    ReplicaTransactionInfoV3, ReplicaTransactionInfoV3View, VersionedMessage, VersionedMessageView,
};
use vstd::prelude::*;

verus! {

/// A stored transaction.
pub struct DbTransaction {
    pub signature: Vec<u8>,
    pub is_vote: bool,
    pub slot: i64,
    pub message_type: i16,
    pub legacy_message: Option<DbTransactionMessage>,
    pub v0_loaded_message: Option<DbLoadedMessageV0>,
    pub message_hash: Vec<u8>,
    pub meta: DbTransactionStatusMeta,
    pub signatures: Vec<Vec<u8>>,
    /// This can be used to tell the order of transactions within a block: given a slot, the
    /// transaction with a smaller `write_version` appears before transactions with higher
    /// `write_version`s in a shred.
    pub write_version: i64,
    pub index: i64,
}

/// What a [`DbTransaction`] holds.
#[verifier::ext_equal]
pub struct DbTransactionView {
    pub signature: Seq<u8>,
    pub is_vote: bool,
    pub slot: i64,
    pub message_type: i16,
    pub legacy_message: Option<DbTransactionMessageView>,
    pub v0_loaded_message: Option<DbLoadedMessageV0View>,
    pub message_hash: Seq<u8>,
    pub meta: DbTransactionStatusMetaView,
    pub signatures: Seq<Seq<u8>>,
    pub write_version: i64,
    pub index: i64,
}

impl View for DbTransaction {
    type V = DbTransactionView;

    open spec fn view(&self) -> DbTransactionView {
        DbTransactionView {
            signature: self.signature@,
            is_vote: self.is_vote,
            slot: self.slot,
            message_type: self.message_type,
            legacy_message: self.legacy_message.deep_view(),
            v0_loaded_message: self.v0_loaded_message.deep_view(),
            message_hash: self.message_hash@,
            meta: self.meta@,
            signatures: self.signatures.deep_view(),
            write_version: self.write_version,
            index: self.index,
        }
    }
}

/// Whether a transaction can be stored: its message can be hashed, and if it failed, the database
/// has a code for its error.
pub open spec fn can_be_stored(info: ReplicaTransactionInfoV3View) -> bool {
    &&& message_fits(info.transaction.message)
    &&& has_stored_error(info.transaction_status_meta.status)
}

impl ReplicaTransactionInfoV3 {
    /// Whether this transaction can be stored.
    pub fn can_be_stored(&self) -> (storable: bool)
        ensures
            storable == can_be_stored(self@),
    {
        let has_code = match &self.transaction_status_meta.status {
            Ok(_) => true,
            Err(error) => error.code().is_some(),
        };
        has_code && self.transaction.message.fits()
    }
}

/// How a transaction is stored whose message has the given hash.
pub open spec fn stored_transaction_with_hash(
    slot: u64,
    info: ReplicaTransactionInfoV3View,
    write_version: u64,
    hash: Seq<u8>,
) -> DbTransactionView {
    DbTransactionView {
        signature: info.signature,
        is_vote: info.is_vote,
        slot: bigint(slot),
        message_type: match info.transaction.message {
            VersionedMessageView::Legacy(_) => 0,
            VersionedMessageView::V0(_) => 1,
        },
        legacy_message: match info.transaction.message {
            VersionedMessageView::Legacy(message) => Some(stored_message(message)),
            VersionedMessageView::V0(_) => None,
        },
        v0_loaded_message: match info.transaction.message {
            VersionedMessageView::Legacy(_) => None,
            VersionedMessageView::V0(message) => Some(stored_loaded_message(message)),
        },
        message_hash: hash,
        meta: stored_meta(info.transaction_status_meta),
        signatures: info.transaction.signatures,
        write_version: bigint(write_version),
        index: bigint(info.index as u64),
    }
}

/// How a transaction is stored.
pub open spec fn stored_transaction(
    slot: u64,
    info: ReplicaTransactionInfoV3View,
    write_version: u64,
) -> DbTransactionView {
    stored_transaction_with_hash(slot, info, write_version, message_hash(info.transaction.message))
}

/// Builds the row of a transaction whose message has the given hash.
pub fn build_db_transaction_with_hash(
    slot: u64,
    transaction_info: &ReplicaTransactionInfoV3,
    transaction_write_version: u64,
    message_hash: Vec<u8>,
) -> (record: DbTransaction)
    requires
        has_stored_error(transaction_info.transaction_status_meta.status),
    ensures
        record@ == stored_transaction_with_hash(
            slot,
            transaction_info@,
            transaction_write_version,
            message_hash@,
        ),
        detail_fits(record@.meta.error),
{
    let message = &transaction_info.transaction.message;
    DbTransaction {
        signature: vstd::slice::slice_to_vec(transaction_info.signature.as_slice()),
        is_vote: transaction_info.is_vote,
        slot: to_bigint(slot),
        message_type: match message {
            VersionedMessage::Legacy(_) => 0,
            VersionedMessage::V0(_) => 1,
        },
        legacy_message: match message {
            VersionedMessage::Legacy(legacy_message) => Some(
                DbTransactionMessage::from(legacy_message),
            ),
            _ => None,
        },
        v0_loaded_message: match message {
            VersionedMessage::V0(loaded_message) => Some(DbLoadedMessageV0::from(loaded_message)),
            _ => None,
        },
        message_hash,
        meta: DbTransactionStatusMeta::from(&transaction_info.transaction_status_meta),
        signatures: to_byte_strings(&transaction_info.transaction.signatures),
        write_version: to_bigint(transaction_write_version),
        index: to_bigint(transaction_info.index as u64),
    }
}

/// Builds the row of a transaction.
pub fn build_db_transaction(
    slot: u64,
    transaction_info: &ReplicaTransactionInfoV3,
    transaction_write_version: u64,
) -> (record: DbTransaction)
    requires
        can_be_stored(transaction_info@),
    ensures
        record@ == stored_transaction(slot, transaction_info@, transaction_write_version),
        detail_fits(record@.meta.error),
{
    let hash = transaction_info.transaction.message.hash();
    build_db_transaction_with_hash(slot, transaction_info, transaction_write_version, hash)
}

} // verus!
