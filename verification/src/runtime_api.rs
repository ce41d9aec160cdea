//! Bond accounting records surfaced to off-chain consumers of a MIDDS
//! store: who owns a record and which balances back it.
use vstd::prelude::*;

verus! {

/// A single bond contribution attached to a stored MIDDS record.
///
/// `amount` is the balance currently held for this layer (base plus
/// premium); `base` is the unmultiplied portion it covers.
#[derive(Clone, PartialEq, Eq, Debug)]
pub struct BondLayerOf<AccountId, Balance> {
    /// Account whose balance backs this layer.
    pub payer: AccountId,
    /// Currently held amount.
    pub amount: Balance,
    /// Unmultiplied base portion this layer covers.
    pub base: Balance,
}

/// Bond information attached to a stored MIDDS record.
///
/// The sponsor layer is always present (the bond posted at deposit time);
/// the owner layer exists only once the owner has extended a sponsored
/// record out of their own balance.
#[derive(Clone, PartialEq, Eq, Debug)]
pub struct DepositInfoOf<AccountId, Balance> {
    /// Account that owns the record.
    pub depositor: AccountId,
    /// Initial bond layer posted at deposit.
    pub sponsor_layer: BondLayerOf<AccountId, Balance>,
    /// Owner-side bond layer, when the owner has contributed funds.
    pub owner_layer: Option<BondLayerOf<AccountId, Balance>>,
    /// Whether the bond has been moved to the treasury at the end of the
    /// commitment window; a finalized record is permanent.
    pub finalized: bool,
}

} // verus!
