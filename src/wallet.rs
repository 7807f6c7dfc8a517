use crate::descriptor::{create_descriptor, descriptor_outcome, ChildNumber, DerivationPath, Fingerprint};
use crate::device::SlapsDevice;
use crate::error::WalletError;
use vstd::prelude::*;

verus! {

/// What a wallet is: its receive and change descriptors and the fingerprint of
/// the device that may sign for it, if any.
pub struct WalletInfo {
    pub descriptor: Seq<char>,
    pub change_descriptor: Seq<char>,
    pub signer_fingerprint: Option<Fingerprint>,
}

/// The account path that wallets are derived at, `m/84h/1h/0h`.
pub open spec fn account_steps() -> Seq<ChildNumber> {
    seq![
        ChildNumber { index: 84, hardened: true },
        ChildNumber { index: 1, hardened: true },
        ChildNumber { index: 0, hardened: true },
    ]
}

/// The wallet derived from a device with fingerprint `f` whose account key is
/// `xpub`: checksummed descriptors of every index on the receive and the change
/// branch, signed for by that device; `MalformedDescriptor` when either
/// descriptor does not validate.
pub open spec fn wallet_from_device(f: Fingerprint, xpub: Seq<char>) -> Result<WalletInfo, WalletError> {
    match (
        descriptor_outcome(f, account_steps(), xpub, None, false, true),
        descriptor_outcome(f, account_steps(), xpub, None, true, true),
    ) {
        (Ok(receive), Ok(change)) => Ok(
            WalletInfo { descriptor: receive, change_descriptor: change, signer_fingerprint: Some(f) },
        ),
        _ => Err(WalletError::MalformedDescriptor),
    }
}

/// A wallet: a receive descriptor, a change descriptor, and the fingerprint of
/// the device that signs for it. Without a fingerprint it is watch-only.
#[derive(Clone, Debug)]
pub struct SlapsWallet {
    descriptor: String,
    change_descriptor: String,
    signer_fingerprint: Option<Fingerprint>,
}

impl View for SlapsWallet {
    type V = WalletInfo;

    closed spec fn view(&self) -> WalletInfo {
        WalletInfo {
            descriptor: self.descriptor@,
            change_descriptor: self.change_descriptor@,
            signer_fingerprint: self.signer_fingerprint,
        }
    }
}

impl SlapsWallet {
    /// The placeholder wallet: empty descriptors and no signer.
    pub fn new_empty() -> (r: SlapsWallet)
        ensures
            r@ == (WalletInfo {
                descriptor: Seq::<char>::empty(),
                change_descriptor: Seq::<char>::empty(),
                signer_fingerprint: None,
            }),
    {
        SlapsWallet { descriptor: String::new(), change_descriptor: String::new(), signer_fingerprint: None }
    }

    /// The wallet of a device, from the extended public key that the device
    /// gave for the account path.
    pub fn new_from_hw_wallet(hw_wallet: &SlapsDevice, xpub: &str) -> (r: Result<SlapsWallet, WalletError>)
        ensures
            match r {
                Ok(w) => wallet_from_device(hw_wallet@.fingerprint, xpub@) == Ok::<WalletInfo, WalletError>(w@),
                Err(e) => wallet_from_device(hw_wallet@.fingerprint, xpub@) == Err::<WalletInfo, WalletError>(e),
            },
    {
        let fingerprint = hw_wallet.get_fingerprint();
        let path = DerivationPath::segwit_test_account();
        assert(path.steps@ =~= account_steps());
        let descriptor = match create_descriptor(&path, fingerprint, xpub, None, false, true) {
            Ok(d) => d,
            Err(_) => return Err(WalletError::MalformedDescriptor),
        };
        let change_descriptor = match create_descriptor(&path, fingerprint, xpub, None, true, true) {
            Ok(d) => d,
            Err(_) => return Err(WalletError::MalformedDescriptor),
        };
        let w = SlapsWallet { descriptor, change_descriptor, signer_fingerprint: Some(fingerprint) };
        assert(w@ == (WalletInfo {
            descriptor: w.descriptor@,
            change_descriptor: w.change_descriptor@,
            signer_fingerprint: Some(fingerprint),
        }));
        Ok(w)
    }

    /// The receive descriptor.
    pub fn get_descriptor(&self) -> (r: String)
        ensures
            r@ == self@.descriptor,
    {
        self.descriptor.clone()
    }

    /// The change descriptor.
    pub fn get_change_descriptor(&self) -> (r: String)
        ensures
            r@ == self@.change_descriptor,
    {
        self.change_descriptor.clone()
    }

    /// The fingerprint of the device that signs for the wallet, if any.
    pub fn get_signer_fingerprint(&self) -> (r: Option<Fingerprint>)
        ensures
            r == self@.signer_fingerprint,
    {
        self.signer_fingerprint
    }

    /// Whether the wallet has no signer.
    pub fn is_watch_only(&self) -> (r: bool)
        ensures
            r == (self@.signer_fingerprint is None),
    {
        self.signer_fingerprint.is_none()
    }
}

} // verus!
