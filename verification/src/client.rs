//! Handing rows to the database.
//!
//! What reaches the database or the work queue does so through a function that the caller passes
//! in. A failure comes back from it as the text of the error.
use crate::error::detail_fits;
use crate::message::{DbLoadedMessageV0, DbTransactionMessage};
use crate::meta::DbTransactionStatusMeta;
use crate::replica::ReplicaTransactionInfoV3;
use crate::transaction::{
    build_db_transaction, can_be_stored, stored_transaction, DbTransaction, DbTransactionView,
};
use vstd::prelude::*;

verus! {

/// The statement that stores a transaction, or updates it if its slot and signature are known.
pub const TRANSACTION_UPSERT: &'static str = "INSERT INTO transaction AS txn (signature, is_vote, slot, message_type, legacy_message, \
        v0_loaded_message, signatures, message_hash, meta, write_version, index, updated_on) \
        VALUES ($1, $2, $3, $4, $5, $6, $7, $8, $9, $10, $11, $12) \
        ON CONFLICT (slot, signature) DO UPDATE SET is_vote=excluded.is_vote, \
        message_type=excluded.message_type, \
        legacy_message=excluded.legacy_message, \
        v0_loaded_message=excluded.v0_loaded_message, \
        signatures=excluded.signatures, \
        message_hash=excluded.message_hash, \
        meta=excluded.meta, \
        write_version=excluded.write_version, \
        index=excluded.index,
        updated_on=excluded.updated_on";

/// An error of the PostgreSQL plugin.
#[derive(Debug, PartialEq, Eq)]
pub enum GeyserPluginPostgresError {
    /// The database does not have the tables that the plugin needs.
    DataSchemaError { msg: String },
}

/// An error that the plugin reports to the validator.
#[derive(Debug, PartialEq, Eq)]
pub enum GeyserPluginError {
    /// A row could not be written.
    AccountsUpdateError { msg: String },
    /// A row could not be queued.
    SlotStatusUpdateError { msg: String },
    /// An error of the plugin itself.
    Custom(GeyserPluginPostgresError),
}

/// The parts of the configuration that an error message shows, as texts.
#[derive(Debug)]
pub struct ConfigText {
    pub host: String,
    pub user: String,
    pub config: String,
}

/// The message for a statement that could not be prepared.
pub open spec fn prepare_error_message(error: Seq<char>, config: ConfigText) -> Seq<char> {
    "Error in preparing for the transaction update PostgreSQL database: ("@ + error + ") host: "@
        + config.host@ + " user: "@ + config.user@ + " config: "@ + config.config@
}

/// The message for a row that could not be written.
pub open spec fn persist_error_message(error: Seq<char>) -> Seq<char> {
    "Failed to persist the update of transaction info to the PostgreSQL database. Error: "@ + error
}

/// The message for a row that could not be queued.
pub open spec fn queue_error_message(error: Seq<char>) -> Seq<char> {
    "Failed to update the transaction, error: "@ + error
}

/// What is reported of an attempt to prepare the statement: the statement, or a schema error.
pub open spec fn reports_preparation<S>(
    prepared: Result<S, String>,
    config: ConfigText,
    result: Result<S, GeyserPluginError>,
) -> bool {
    match prepared {
        Ok(statement) => result == Ok::<S, GeyserPluginError>(statement),
        Err(error) => {
            &&& result matches Err(GeyserPluginError::Custom(
                GeyserPluginPostgresError::DataSchemaError { msg },
            ))
            &&& msg@ == prepare_error_message(error@, config)
        },
    }
}

/// What is reported of an attempt to write a row.
pub open spec fn reports_persistence(
    written: Result<(), String>,
    result: Result<(), GeyserPluginError>,
) -> bool {
    match written {
        Ok(_) => result is Ok,
        Err(error) => {
            &&& result matches Err(GeyserPluginError::AccountsUpdateError { msg })
            &&& msg@ == persist_error_message(error@)
        },
    }
}

/// What is reported of an attempt to queue a row.
pub open spec fn reports_queueing(
    queued: Result<(), String>,
    result: Result<(), GeyserPluginError>,
) -> bool {
    match queued {
        Ok(_) => result is Ok,
        Err(error) => {
            &&& result matches Err(GeyserPluginError::SlotStatusUpdateError { msg })
            &&& msg@ == queue_error_message(error@)
        },
    }
}

/// Reports an attempt to prepare the statement.
pub fn report_preparation<S>(prepared: Result<S, String>, config: &ConfigText) -> (result: Result<
    S,
    GeyserPluginError,
>)
    ensures
        reports_preparation(prepared, *config, result),
{
    match prepared {
        Ok(statement) => Ok(statement),
        Err(error) => {
            let mut msg =
                "Error in preparing for the transaction update PostgreSQL database: (".to_owned();
            msg.append(error.as_str());
            msg.append(") host: ");
            msg.append(config.host.as_str());
            msg.append(" user: ");
            msg.append(config.user.as_str());
            msg.append(" config: ");
            msg.append(config.config.as_str());
            Err(GeyserPluginError::Custom(GeyserPluginPostgresError::DataSchemaError { msg }))
        },
    }
}

/// Reports an attempt to write a row.
pub fn report_persistence(written: Result<(), String>) -> (result: Result<(), GeyserPluginError>)
    ensures
        reports_persistence(written, result),
{
    match written {
        Ok(_) => Ok(()),
        Err(error) => {
            let mut msg =
                "Failed to persist the update of transaction info to the PostgreSQL database. Error: ".to_owned();
            msg.append(error.as_str());
            Err(GeyserPluginError::AccountsUpdateError { msg })
        },
    }
}

/// Reports an attempt to queue a row.
pub fn report_queueing(queued: Result<(), String>) -> (result: Result<(), GeyserPluginError>)
    ensures
        reports_queueing(queued, result),
{
    match queued {
        Ok(_) => Ok(()),
        Err(error) => {
            let mut msg = "Failed to update the transaction, error: ".to_owned();
            msg.append(error.as_str());
            Err(GeyserPluginError::SlotStatusUpdateError { msg })
        },
    }
}

/// Prepares the statement that stores a transaction.
pub fn build_transaction_info_upsert_statement<S, F: FnOnce(&str) -> Result<S, String>>(
    prepare: F,
    config: &ConfigText,
) -> (result: Result<S, GeyserPluginError>)
    requires
        call_requires(prepare, (TRANSACTION_UPSERT,)),
    ensures
        exists|prepared: Result<S, String>|
            #![trigger call_ensures(prepare, (TRANSACTION_UPSERT,), prepared)]
            {
                &&& call_ensures(prepare, (TRANSACTION_UPSERT,), prepared)
                &&& reports_preparation(prepared, *config, result)
            },
{
    let prepared = prepare(TRANSACTION_UPSERT);
    report_preparation(prepared, config)
}

/// A row to be stored.
pub struct LogTransactionRequest {
    pub transaction_info: DbTransaction,
}

impl View for LogTransactionRequest {
    type V = DbTransactionView;

    open spec fn view(&self) -> DbTransactionView {
        self.transaction_info@
    }
}

/// A value for a parameter of [`TRANSACTION_UPSERT`].
#[derive(Debug)]
pub enum TransactionParameter<'a, T> {
    Bytes(&'a Vec<u8>),
    Bool(&'a bool),
    BigInt(&'a i64),
    SmallInt(&'a i16),
    LegacyMessage(&'a Option<DbTransactionMessage>),
    V0LoadedMessage(&'a Option<DbLoadedMessageV0>),
    ByteStrings(&'a Vec<Vec<u8>>),
    Meta(&'a DbTransactionStatusMeta),
    Timestamp(T),
}

/// The values for the parameters of [`TRANSACTION_UPSERT`], in the order of its columns.
pub open spec fn parameters<'a, T>(row: &'a DbTransaction, updated_on: T) -> Seq<
    TransactionParameter<'a, T>,
> {
    seq![
        TransactionParameter::Bytes(&row.signature),
        TransactionParameter::Bool(&row.is_vote),
        TransactionParameter::BigInt(&row.slot),
        TransactionParameter::SmallInt(&row.message_type),
        TransactionParameter::LegacyMessage(&row.legacy_message),
        TransactionParameter::V0LoadedMessage(&row.v0_loaded_message),
        TransactionParameter::ByteStrings(&row.signatures),
        TransactionParameter::Bytes(&row.message_hash),
        TransactionParameter::Meta(&row.meta),
        TransactionParameter::BigInt(&row.write_version),
        TransactionParameter::BigInt(&row.index),
        TransactionParameter::Timestamp(updated_on),
    ]
}

impl LogTransactionRequest {
    /// The values for the parameters of [`TRANSACTION_UPSERT`] that store this row.
    pub fn parameters<'a, T>(&'a self, updated_on: T) -> (values: Vec<TransactionParameter<'a, T>>)
        ensures
            values@ == parameters(&self.transaction_info, updated_on),
    {
        let row = &self.transaction_info;
        vec![
            TransactionParameter::Bytes(&row.signature),
            TransactionParameter::Bool(&row.is_vote),
            TransactionParameter::BigInt(&row.slot),
            TransactionParameter::SmallInt(&row.message_type),
            TransactionParameter::LegacyMessage(&row.legacy_message),
            TransactionParameter::V0LoadedMessage(&row.v0_loaded_message),
            TransactionParameter::ByteStrings(&row.signatures),
            TransactionParameter::Bytes(&row.message_hash),
            TransactionParameter::Meta(&row.meta),
            TransactionParameter::BigInt(&row.write_version),
            TransactionParameter::BigInt(&row.index),
            TransactionParameter::Timestamp(updated_on),
        ]
    }
}

/// Stores a row: hands the values of its parameters to `query` and reports what came of it.
pub fn log_transaction_impl<T, F: FnOnce(Vec<TransactionParameter<T>>) -> Result<(), String>>(
    transaction_log_info: LogTransactionRequest,
    updated_on: T,
    query: F,
) -> (result: Result<(), GeyserPluginError>)
    requires
        forall|values: Vec<TransactionParameter<T>>| #[trigger]
            values@ == parameters(&transaction_log_info.transaction_info, updated_on)
                ==> call_requires(query, (values,)),
    ensures
        exists|values: Vec<TransactionParameter<T>>, written: Result<(), String>|
            #![trigger call_ensures(query, (values,), written)]
            {
                &&& values@ == parameters(&transaction_log_info.transaction_info, updated_on)
                &&& call_ensures(query, (values,), written)
                &&& reports_persistence(written, result)
            },
{
    let values = transaction_log_info.parameters(updated_on);
    let written = query(values);
    report_persistence(written)
}

/// The write version after `version`. The count starts again at zero after the largest one.
pub open spec fn next_write_version(version: u64) -> u64 {
    if version == u64::MAX {
        0
    } else {
        (version + 1) as u64
    }
}

/// The side that queues rows for the workers that write them.
#[derive(Debug)]
pub struct ParallelPostgresClient {
    /// The write version of the transaction that was logged last.
    pub transaction_write_version: u64,
}

impl ParallelPostgresClient {
    /// Builds the request that stores a transaction.
    pub fn build_transaction_request(
        slot: u64,
        transaction_info: &ReplicaTransactionInfoV3,
        transaction_write_version: u64,
    ) -> (request: LogTransactionRequest)
        requires
            can_be_stored(transaction_info@),
        ensures
            request@ == stored_transaction(slot, transaction_info@, transaction_write_version),
            detail_fits(request@.meta.error),
    {
        LogTransactionRequest {
            transaction_info: build_db_transaction(
                slot,
                transaction_info,
                transaction_write_version,
            ),
        }
    }

    /// Logs a transaction: gives it the next write version, hands its row to `send` and reports
    /// what came of it. The write version is used up even if the row could not be queued.
    pub fn log_transaction_info<F: FnOnce(LogTransactionRequest) -> Result<(), String>>(
        &mut self,
        transaction_info: &ReplicaTransactionInfoV3,
        slot: u64,
        send: F,
    ) -> (result: Result<(), GeyserPluginError>)
        requires
            can_be_stored(transaction_info@),
            forall|request: LogTransactionRequest| #[trigger]
                request@ == stored_transaction(
                    slot,
                    transaction_info@,
                    next_write_version(old(self).transaction_write_version),
                ) ==> call_requires(send, (request,)),
        ensures
            final(self).transaction_write_version == next_write_version(
                old(self).transaction_write_version,
            ),
            exists|request: LogTransactionRequest, queued: Result<(), String>|
                #![trigger call_ensures(send, (request,), queued)]
                {
                    &&& request@ == stored_transaction(
                        slot,
                        transaction_info@,
                        next_write_version(old(self).transaction_write_version),
                    )
                    &&& detail_fits(request@.meta.error)
                    &&& call_ensures(send, (request,), queued)
                    &&& reports_queueing(queued, result)
                },
    {
        self.transaction_write_version = self.transaction_write_version.wrapping_add(1);
        let request = Self::build_transaction_request(
            slot,
            transaction_info,
            self.transaction_write_version,
        );
        let queued = send(request);
        report_queueing(queued)
    }
}

} // verus!
