use vstd::prelude::*;

verus! {

/// Every failure that the wallet core reports, one variant per kind.
#[derive(Clone, Debug, PartialEq, Eq)]
pub enum WalletError {
    /// Listing the connected devices failed; the device set is left empty.
    EnumerationFailure,
    /// No device in the current snapshot has the requested fingerprint.
    DeviceNotFound,
    /// A built descriptor did not pass its own validation.
    MalformedDescriptor,
    /// Syncing with the blockchain data provider failed.
    ChainSyncFailure,
    /// The synced view of the chain is too old to build on.
    ChainSyncStale,
    /// The wallet cannot fund the requested amount.
    InsufficientFunds,
    /// The destination is not a well-formed address.
    InvalidAddress,
    /// The wallet is watch-only: no signer fingerprint is configured.
    NoSignerConfigured,
    /// The device refused to sign or failed; the two cannot be told apart.
    UserCanceledOrDeviceError,
    /// Finalization found an input without a complete signature.
    IncompleteSignatures,
    /// The provider rejected the broadcast, with its reason verbatim.
    BroadcastRejected(String),
    /// Text that should hold a base64-encoded PSBT does not.
    MalformedPsbt,
    /// An event arrived that the pipeline's current stage does not accept.
    UnexpectedEvent,
}

} // verus!
