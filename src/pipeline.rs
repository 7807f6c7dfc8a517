use crate::descriptor::Fingerprint;
use crate::error::WalletError;
use crate::wallet::SlapsWallet;
use bdk::bitcoin::Address;
use std::str::FromStr;
use vstd::prelude::*;

verus! {

/// Whether `s` is a well-formed Bitcoin address.
pub uninterp spec fn parses_as_address(s: Seq<char>) -> bool;

/// Relies on `FromStr` of bitcoin's `Address`: whether the text is a well-formed
/// address.
#[verifier::external_body]
fn address_parses(s: &str) -> (r: bool)
    ensures
        r == parses_as_address(s@),
{
    Address::from_str(s).is_ok()
}

/// Where one transaction request stands.
#[derive(Clone, Debug, PartialEq, Eq)]
pub enum Stage {
    Building,
    AwaitingSignature,
    Signed,
    Finalized,
    Broadcast,
    Failed(WalletError),
}

/// Why building a transaction failed.
#[derive(Clone, Copy, Debug, PartialEq, Eq)]
pub enum BuildFailure {
    InsufficientFunds,
    ChainSyncFailure,
    ChainSyncStale,
}

/// The error that reports a build failure.
pub open spec fn build_error(f: BuildFailure) -> WalletError {
    match f {
        BuildFailure::InsufficientFunds => WalletError::InsufficientFunds,
        BuildFailure::ChainSyncFailure => WalletError::ChainSyncFailure,
        BuildFailure::ChainSyncStale => WalletError::ChainSyncStale,
    }
}

impl BuildFailure {
    /// The error that reports the failure.
    pub fn to_error(self) -> (r: WalletError)
        ensures
            r == build_error(self),
    {
        match self {
            BuildFailure::InsufficientFunds => WalletError::InsufficientFunds,
            BuildFailure::ChainSyncFailure => WalletError::ChainSyncFailure,
            BuildFailure::ChainSyncStale => WalletError::ChainSyncStale,
        }
    }
}

/// What the outside work of a stage came to.
#[derive(Clone, Debug, PartialEq, Eq)]
pub enum Event {
    /// Sync and build succeeded: an unsigned transaction exists.
    Built,
    /// Sync or build failed.
    BuildFailed(BuildFailure),
    /// No connected device has the signer's fingerprint.
    SignerMissing,
    /// The device refused to sign or failed.
    SignRefused,
    /// The device signed.
    SignDone,
    /// Every input carries a complete signature; a raw transaction exists.
    FinalizeDone,
    /// Some input lacks a signature.
    FinalizeIncomplete,
    /// The provider accepted the transaction.
    BroadcastAccepted,
    /// The provider rejected the transaction, for this reason.
    BroadcastRejected(String),
}

/// The outside work to do next.
#[derive(Clone, Debug, PartialEq, Eq)]
pub enum Action {
    /// Sync with the chain, then build a transaction paying `amount` to `address`.
    SyncAndBuild { address: String, amount: u64 },
    /// Ask the device with this fingerprint to sign the transaction.
    RequestSignature { fingerprint: Fingerprint },
    /// Finalize the signed transaction.
    Finalize,
    /// Submit the raw transaction.
    Broadcast,
    /// Nothing is left to do.
    Done,
}


/// The stage after `event` and what to do next, for a request signed by
/// `signer`. An event that the stage does not expect changes nothing. A failure
/// is final; a rejected broadcast leaves the transaction finalized, so that
/// broadcasting it can be tried again.
pub open spec fn transition(stage: Stage, signer: Option<Fingerprint>, event: Event) -> (Stage, Result<Action, WalletError>) {
    match (stage, event) {
        (Stage::Building, Event::Built) => match signer {
            Some(f) => (Stage::AwaitingSignature, Ok(Action::RequestSignature { fingerprint: f })),
            None => (Stage::Failed(WalletError::NoSignerConfigured), Err(WalletError::NoSignerConfigured)),
        },
        (Stage::Building, Event::BuildFailed(b)) => (Stage::Failed(build_error(b)), Err(build_error(b))),
        (Stage::AwaitingSignature, Event::SignerMissing) => (
            Stage::Failed(WalletError::DeviceNotFound),
            Err(WalletError::DeviceNotFound),
        ),
        (Stage::AwaitingSignature, Event::SignRefused) => (
            Stage::Failed(WalletError::UserCanceledOrDeviceError),
            Err(WalletError::UserCanceledOrDeviceError),
        ),
        (Stage::AwaitingSignature, Event::SignDone) => (Stage::Signed, Ok(Action::Finalize)),
        (Stage::Signed, Event::FinalizeDone) => (Stage::Finalized, Ok(Action::Broadcast)),
        (Stage::Signed, Event::FinalizeIncomplete) => (
            Stage::Failed(WalletError::IncompleteSignatures),
            Err(WalletError::IncompleteSignatures),
        ),
        (Stage::Finalized, Event::BroadcastAccepted) => (Stage::Broadcast, Ok(Action::Done)),
        (Stage::Finalized, Event::BroadcastRejected(reason)) => (
            Stage::Finalized,
            Err(WalletError::BroadcastRejected(reason)),
        ),
        (s, _) => (s, Err(WalletError::UnexpectedEvent)),
    }
}

/// The stage after a run of events.
pub open spec fn run(stage: Stage, signer: Option<Fingerprint>, events: Seq<Event>) -> Stage
    decreases events.len(),
{
    if events.len() == 0 {
        stage
    } else {
        transition(run(stage, signer, events.drop_last()), signer, events.last()).0
    }
}

/// A failed request stays failed, whatever events follow.
pub proof fn failure_is_final(e: WalletError, signer: Option<Fingerprint>, events: Seq<Event>)
    ensures
        run(Stage::Failed(e), signer, events) == Stage::Failed(e),
    decreases events.len(),
{
    if events.len() > 0 {
        failure_is_final(e, signer, events.drop_last());
    }
}

/// A watch-only request never reaches a device: no step asks for a signature,
/// a built transaction fails with `NoSignerConfigured`, and from `Building`
/// every run of events ends in `Building` or `Failed`.
pub proof fn watch_only_never_signs(stage: Stage, event: Event, events: Seq<Event>)
    ensures
        !(transition(stage, None, event).1 matches Ok(Action::RequestSignature { .. })),
        (stage == Stage::Building && event == Event::Built) ==> transition(stage, None, event) == (
            Stage::Failed(WalletError::NoSignerConfigured),
            Err::<Action, WalletError>(WalletError::NoSignerConfigured),
        ),
        run(Stage::Building, None, events) == Stage::Building || run(
            Stage::Building,
            None,
            events,
        ) is Failed,
    decreases events.len(),
{
    if events.len() > 0 {
        watch_only_never_signs(stage, event, events.drop_last());
    }
}

/// A refused or impossible signature ends the request in `Failed` with the
/// device's error, and no later event moves it, so it is never finalized.
pub proof fn failed_signature_is_final(signer: Option<Fingerprint>, event: Event, later: Seq<Event>)
    requires
        event == Event::SignRefused || event == Event::SignerMissing,
    ensures
        transition(Stage::AwaitingSignature, signer, event).0 == Stage::Failed(
            if event == Event::SignRefused {
                WalletError::UserCanceledOrDeviceError
            } else {
                WalletError::DeviceNotFound
            },
        ),
        run(transition(Stage::AwaitingSignature, signer, event).0, signer, later) == transition(
            Stage::AwaitingSignature,
            signer,
            event,
        ).0,
{
    let e = if event == Event::SignRefused {
        WalletError::UserCanceledOrDeviceError
    } else {
        WalletError::DeviceNotFound
    };
    failure_is_final(e, signer, later);
}

/// Only a signed transaction becomes finalized, and only a finalized one is
/// broadcast.
pub proof fn finalized_only_after_signing(stage: Stage, signer: Option<Fingerprint>, event: Event)
    ensures
        transition(stage, signer, event).0 == Stage::Finalized ==> stage == Stage::Signed || stage
            == Stage::Finalized,
        transition(stage, signer, event).0 == Stage::Broadcast ==> stage == Stage::Finalized || stage
            == Stage::Broadcast,
{
}

/// One transaction request of a wallet: its stage and the signer fixed when it
/// began. It never changes the wallet it was started from.
#[derive(Clone, Debug)]
pub struct TxPipeline {
    pub stage: Stage,
    pub signer: Option<Fingerprint>,
}

impl TxPipeline {
    /// Starts a request to pay `amount` to `address`. A malformed address fails
    /// at once with `InvalidAddress`; else the chain is synced and the
    /// transaction built.
    pub fn start(wallet: &SlapsWallet, address: &str, amount: u64) -> (r: (TxPipeline, Result<Action, WalletError>))
        ensures
            r.0.signer == wallet@.signer_fingerprint,
            parses_as_address(address@) ==> r.0.stage == Stage::Building && (r.1 matches Ok(
                Action::SyncAndBuild { address: a, amount: n },
            ) && a@ == address@ && n == amount),
            !parses_as_address(address@) ==> r.0.stage == Stage::Failed(WalletError::InvalidAddress) && r.1
                == Err::<Action, WalletError>(WalletError::InvalidAddress),
    {
        let signer = wallet.get_signer_fingerprint();
        if address_parses(address) {
            (
                TxPipeline { stage: Stage::Building, signer },
                Ok(Action::SyncAndBuild { address: address.to_owned(), amount }),
            )
        } else {
            (
                TxPipeline { stage: Stage::Failed(WalletError::InvalidAddress), signer },
                Err(WalletError::InvalidAddress),
            )
        }
    }

    /// Takes the outcome of the outside work into the request.
    pub fn step(&mut self, event: Event) -> (r: Result<Action, WalletError>)
        ensures
            (final(self).stage, r) == transition(old(self).stage, old(self).signer, event),
            final(self).signer == old(self).signer,
    {
        let mut stage = Stage::Building;
        std::mem::swap(&mut stage, &mut self.stage);
        let (next, r) = match (stage, event) {
            (Stage::Building, Event::Built) => match self.signer {
                Some(f) => (Stage::AwaitingSignature, Ok(Action::RequestSignature { fingerprint: f })),
                None => (Stage::Failed(WalletError::NoSignerConfigured), Err(WalletError::NoSignerConfigured)),
            },
            (Stage::Building, Event::BuildFailed(b)) => (
                Stage::Failed(BuildFailure::to_error(b)),
                Err(BuildFailure::to_error(b)),
            ),
            (Stage::AwaitingSignature, Event::SignerMissing) => (
                Stage::Failed(WalletError::DeviceNotFound),
                Err(WalletError::DeviceNotFound),
            ),
            (Stage::AwaitingSignature, Event::SignRefused) => (
                Stage::Failed(WalletError::UserCanceledOrDeviceError),
                Err(WalletError::UserCanceledOrDeviceError),
            ),
            (Stage::AwaitingSignature, Event::SignDone) => (Stage::Signed, Ok(Action::Finalize)),
            (Stage::Signed, Event::FinalizeDone) => (Stage::Finalized, Ok(Action::Broadcast)),
            (Stage::Signed, Event::FinalizeIncomplete) => (
                Stage::Failed(WalletError::IncompleteSignatures),
                Err(WalletError::IncompleteSignatures),
            ),
            (Stage::Finalized, Event::BroadcastAccepted) => (Stage::Broadcast, Ok(Action::Done)),
            (Stage::Finalized, Event::BroadcastRejected(reason)) => (
                Stage::Finalized,
                Err(WalletError::BroadcastRejected(reason)),
            ),
            (s, _) => (s, Err(WalletError::UnexpectedEvent)),
        };
        self.stage = next;
        r
    }
}

} // verus!
