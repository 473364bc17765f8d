use vstd::prelude::*;

verus! {

/// The closed error taxonomy of the ledger boundary. Lower-level store
/// failures are translated into these variants; no backend error type crosses
/// into a caller.
#[derive(Debug, Clone, Copy, PartialEq, Eq, Structural)]
pub enum Error {
    /// Pool exhaustion or backend unavailability; transient and retryable at
    /// the caller's discretion. Only the service shell's store driver can
    /// produce it.
    ConnectionAcquisitionFailure,
    /// Any other backend failure: a missing row that consistency demands, a
    /// constraint other than uniqueness, or a value outside the representable
    /// balance range.
    StoreFailure,
    /// A unique constraint was violated: username, email, or the
    /// one-wallet-per-user rule.
    Duplicate,
    /// The surrounding transaction was rolled back in full: a debit would
    /// have made a balance negative (insufficient funds).
    RollbackTransaction,
}

impl Error {
    /// A short description, in place of a `Display` impl.
    pub fn describe(&self) -> (r: &'static str)
        ensures
            r@.len() > 0,
    {
        proof {
            reveal_strlit("failed to get a store connection");
            reveal_strlit("store query failed");
            reveal_strlit("unique violation in store");
            reveal_strlit("transaction was rolled back");
        }
        match self {
            Error::ConnectionAcquisitionFailure => "failed to get a store connection",
            Error::StoreFailure => "store query failed",
            Error::Duplicate => "unique violation in store",
            Error::RollbackTransaction => "transaction was rolled back",
        }
    }
}

} // verus!
