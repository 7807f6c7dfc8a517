use vstd::prelude::*;

verus! {

/// The screen that a front end shows.
#[derive(Clone, Copy, Debug, PartialEq, Eq, Structural)]
pub enum Route {
    Setup,
    Transactions,
    Send,
    Receive,
}

} // verus!
