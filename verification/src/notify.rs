//! Hearing that another instance changed the selection.

use std::sync::atomic::AtomicBool;
use std::sync::atomic::Ordering;
use std::sync::Arc;
use signal_hook::SigId;
use vstd::prelude::*;
use crate::error::Error;

verus! {

/// The error of the operating system, carried through unread.
#[verifier::external_type_specification]
#[verifier::external_body]
pub struct ExIoError(std::io::Error);

/// The receipt that `signal_hook` gives for a registered action, carried through unread.
#[verifier::external_type_specification]
#[verifier::external_body]
pub struct ExSigId(SigId);

/// Calls `signal_hook::flag::register` with the first user-defined signal
/// and `flag`, and hands back what it returns. The contract claims nothing:
/// whether the registration succeeds is up to the operating system. The
/// signal is none of those that `signal_hook` refuses with a panic.
#[verifier::external_body]
fn register_change_signal(flag: Arc<AtomicBool>) -> (receipt: Result<SigId, std::io::Error>) {
    signal_hook::flag::register(signal_hook::consts::SIGUSR1, flag)
}

/// The flag that a change of selection raises in this process.
///
/// Notifications carry nothing and are not counted: however many arrive
/// before the flag is looked at, it is raised once.
#[derive(Debug, Clone)]
pub struct ChangeFlag {
    raised: Arc<AtomicBool>,
}

impl ChangeFlag {
    /// A flag that is down.
    pub fn new() -> (flag: ChangeFlag) {
        ChangeFlag { raised: Arc::new(AtomicBool::new(false)) }
    }

    /// Has the change signal raise this flag from now on.
    ///
    /// Whether that succeeds is up to the operating system.
    pub fn listen(&self) -> (outcome: Result<(), Error>)
        ensures
            outcome matches Err(e) ==> e == Error::NotifierUnavailable,
    {
        // The receipt is not kept: the registration lasts as long as the
        // process does.
        let receipt = register_change_signal(self.raised.clone());
        listening(receipt)
    }

    /// Whether a notification arrived since the flag was last cleared.
    pub fn pending(&self) -> (pending: bool) {
        self.raised.load(Ordering::Relaxed)
    }

    /// Raises the flag as an arriving notification does.
    pub fn raise(&self) {
        self.raised.store(true, Ordering::Relaxed);
    }

    /// Lowers the flag.
    pub fn clear(&self) {
        self.raised.store(false, Ordering::Relaxed);
    }
}

/// What listening comes to, given the answer to the registration: success
/// for a receipt, `NotifierUnavailable` for any error of the operating system.
pub fn listening(receipt: Result<SigId, std::io::Error>) -> (outcome: Result<(), Error>)
    ensures
        receipt is Ok ==> outcome == Ok::<(), Error>(()),
        receipt is Err ==> outcome == Err::<(), Error>(Error::NotifierUnavailable),
{
    match receipt {
        Ok(_) => Ok(()),
        Err(_) => Err(Error::NotifierUnavailable),
    }
}

} // verus!
