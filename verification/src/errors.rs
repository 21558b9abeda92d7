//! The errors of the relayer's start-up, which happens around the library;
//! the failures of outside services are carried as their messages.

use vstd::prelude::*;

use crate::config::ReadYamlError;
use crate::primitives::RelayerId;
use crate::transaction::TransactionStatus;

verus! {

/// Why the API could not be started.
#[derive(Debug, Clone, PartialEq, Eq)]
pub enum StartApiError {
    DatabaseConnectionError(String),
    DatabaseSaveError(String),
    ApiStartupError(String),
}

/// Why a relayer's queue could not be reloaded from the database.
#[derive(Debug, Clone, PartialEq, Eq)]
pub enum RepopulateTransactionsQueueError {
    CouldNotGetTransactionsByStatusFromDatabase(TransactionStatus, RelayerId, String),
}

/// Why the relayers' queues could not be brought up.
#[derive(Debug, Clone, PartialEq, Eq)]
pub enum TransactionsQueuesError {
    WalletOrProvider(String),
    DatabaseConnection(String),
}

/// Why the transaction processing could not be started.
#[derive(Debug, Clone, PartialEq, Eq)]
pub enum StartTransactionsQueuesError {
    DatabaseConnectionError(String),
    CouldNotLoadRelayersFromDatabase(String),
    RepopulateTransactionsQueueError(RepopulateTransactionsQueueError),
    CouldNotInitTransactionsQueues(String),
    TransactionsQueuesError(TransactionsQueuesError),
    PrivateKeyImportError(String),
}

/// Why the relayer could not start.
#[derive(Debug, Clone, PartialEq, Eq)]
pub enum StartError {
    NoYamlFileFound,
    ReadYamlError(ReadYamlError),
    ApiStartupError(StartApiError),
    LoadProvidersError(String),
    StartTransactionsQueuesError(StartTransactionsQueuesError),
    DatabaseConnectionError(String),
    CouldNotApplyDbSchema(String),
    CouldNotLoadKeystoreAdmin(String),
    WebhookManagerError(String),
    IoError(String),
    NoNetworksDefinedInYaml,
}

} // verus!
