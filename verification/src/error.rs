use vstd::prelude::*;

verus! {

/// Why the bridge refused an operation. A refused operation changes nothing.
#[derive(Clone, Copy, Debug, PartialEq, Eq, Structural)]
pub enum BridgeError {
    /// The amount to mint or burn is zero.
    ZeroAmount,
    /// A mint was already made for this deposit on the home chain.
    DepositAlreadyProcessed,
    /// The caller lacks the privilege that the operation asks for.
    Unauthorized,
    /// A token or token account is not of the configured wrapped token.
    TokenMismatch,
    /// The configuration already names as many minters as it can hold.
    CapacityExceeded,
}

} // verus!
