use vstd::prelude::*;

verus! {

/// An opaque account identity.
///
/// The host's identity layer is out of scope here; the ledger only ever
/// compares identities for equality, so an identity is modelled as a plain
/// numbered account with two reserved values: the non-signable holder of the
/// auction fee pool, and the identity used for uninitialized defaults. The
/// host never resolves a real caller to either reserved value.
#[derive(Clone, Copy, Debug, PartialEq, Eq, Hash, Structural)]
pub enum Principal {
    /// Reserved holder of auction-accumulated fees; no request can ever be
    /// signed as this identity.
    Auction,
    /// Reserved identity used only for uninitialized defaults.
    Anonymous,
    /// An ordinary account.
    Id(u64),
}

impl Principal {
    pub fn anonymous() -> (r: Principal)
        ensures
            r == Principal::Anonymous,
    {
        Principal::Anonymous
    }
}

/// The identity that holds tokens accumulated from transaction fees until the
/// next auction settlement distributes them among bidders.
pub fn auction_principal() -> (r: Principal)
    ensures
        r == Principal::Auction,
{
    Principal::Auction
}

} // verus!
