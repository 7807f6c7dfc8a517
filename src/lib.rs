//! Watch-only Bitcoin wallet core driven by an external hardware signer:
//! output-descriptor construction, the device registry, PSBT replies from a
//! signer and the transaction pipeline state machine.

pub mod error;
pub mod descriptor;
pub mod device;
pub mod psbt;
pub mod wallet;
pub mod pipeline;
pub mod route;

pub use descriptor::{create_descriptor, ChildNumber, DerivationPath, Fingerprint};
pub use device::{SlapsDevice, SlapsDevices};
pub use error::WalletError;
pub use pipeline::{Action, BuildFailure, Event, Stage, TxPipeline};
pub use psbt::{accept_signed_reply, deserialize_psbt_b64};
pub use route::Route;
pub use wallet::SlapsWallet;
