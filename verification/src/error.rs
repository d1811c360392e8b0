use vstd::prelude::*;
use vstd::std_specs::convert::FromSpecImpl;

verus! {

/// What can go wrong while a transaction is built and signed.
#[derive(Clone, Copy, Debug, PartialEq, Eq, Structural)]
pub enum ClientTransactionError {
    /// The instructions could not be compiled into one message.
    UnableToCompile,
    /// The wallet is not a signer of the message.
    MissingSigner,
    /// The signed transaction did not pass its sanity check.
    MissingSignature,
    /// The network could not be asked for a recent blockhash.
    RpcError,
}

/// Every failure the engine reports.
#[derive(Clone, Copy, Debug, PartialEq, Eq, Structural)]
pub enum Error {
    /// Account data is not in a form that can be decoded.
    UnableToDecode,
    /// Bytes are not the account they should be.
    UnableToDeserialize,
    /// An account that is needed was not fetched.
    UnableToFetchAccount,
    /// A Pyth feed gives no value.
    UnableToParsePythOracle,
    /// A Switchboard feed gives no value.
    UnableToParseSwitchboardOracle,
    /// A bank is not known, or cannot be used.
    InvalidMarginfiBank,
    /// A token account is not known, or cannot be derived.
    InvalidTokenAccount,
    /// A pool is not known, or its vaults are not.
    InvalidMeteoraPool,
    /// A farm is not known, or its accounts cannot be derived.
    InvalidMeteoraFarm,
    /// A transaction was rejected, lost, or never confirmed.
    TransactionError,
    /// A number does not fit, or a divisor is zero.
    MathOverflow,
    /// A transaction could not be built or signed.
    ClientTransactionError(ClientTransactionError),
    /// The network did not answer.
    RpcError,
}

impl From<ClientTransactionError> for Error {
    fn from(value: ClientTransactionError) -> (r: Error) {
        Error::ClientTransactionError(value)
    }
}

impl FromSpecImpl<ClientTransactionError> for Error {
    open spec fn obeys_from_spec() -> bool {
        true
    }

    open spec fn from_spec(value: ClientTransactionError) -> Error {
        Error::ClientTransactionError(value)
    }
}

} // verus!
