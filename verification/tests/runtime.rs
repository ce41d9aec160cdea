use midds::rpc::Error;
use midds::{BondLayerOf, DepositInfoOf};

#[test]
fn runtime_error_code_is_one() {
    assert_eq!(Error::RuntimeError.code(), 1);
    let code: i32 = Error::RuntimeError.into();
    assert_eq!(code, 1);
}

#[test]
fn deposit_info_holds_both_layers() {
    let sponsor = BondLayerOf { payer: 7u64, amount: 150u128, base: 100u128 };
    let owner = BondLayerOf { payer: 9u64, amount: 20u128, base: 20u128 };
    let info = DepositInfoOf {
        depositor: 9u64,
        sponsor_layer: sponsor.clone(),
        owner_layer: Some(owner.clone()),
        finalized: false,
    };
    assert_eq!(info.sponsor_layer, sponsor);
    assert_eq!(info.owner_layer, Some(owner));
    assert_ne!(info.sponsor_layer.payer, info.depositor);
    assert_eq!(info.clone(), info);
}
