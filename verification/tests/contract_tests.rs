use wrapped_appchain_token::errors::TokenError;
use wrapped_appchain_token::host::{Action, CallContext, ONE_YOCTO, STORAGE_BALANCE_MIN};
use wrapped_appchain_token::metadata::FungibleTokenMetadata;
use wrapped_appchain_token::ownable::Ownable;
use wrapped_appchain_token::token::AppState;

const OWNER: u64 = 1;
const CONTRACT: u64 = 2;
const BENEFICIARY: u64 = 3;
const OTHER: u64 = 4;

fn valid_metadata() -> FungibleTokenMetadata {
    FungibleTokenMetadata {
        spec_version: String::from("ft-1.0.0"),
        name: String::from("Wrapped Appchain Token"),
        symbol: String::from("WAT"),
        icon: None,
        reference: None,
        reference_hash: None,
        decimals: 18,
    }
}

fn ctx(predecessor_id: u64, attached_deposit: u128) -> CallContext {
    CallContext { predecessor_id, current_account_id: CONTRACT, attached_deposit }
}

fn constructed(premined_balance: u128) -> AppState {
    let mut state = AppState::new();
    let r = state.construct(
        &ctx(OWNER, 0),
        OWNER,
        BENEFICIARY,
        premined_balance,
        valid_metadata(),
    );
    assert!(r.is_ok());
    state
}

fn run_deferred_transfer(state: &mut AppState, action: Action) -> Result<(), TokenError> {
    match action {
        Action::FtTransfer { receiver_id, amount } => state.contract_mut().ft_transfer(
            &ctx(CONTRACT, ONE_YOCTO),
            receiver_id,
            amount,
            None,
        ),
        Action::SyncBasedata { .. } => panic!("not a transfer action"),
    }
}

#[test]
fn construct_premines_to_contract_account() {
    let mut state = AppState::new();
    let r = state.construct(&ctx(OWNER, 0), OWNER, BENEFICIARY, 1000, valid_metadata());
    let (transfer, sync) = r.expect("construction should succeed");
    let c = state.contract();
    assert_eq!(c.get_owner(), OWNER);
    assert_eq!(c.ft_total_supply(), 1000);
    assert_eq!(c.ft_balance_of(CONTRACT), 1000);
    assert_eq!(c.ft_balance_of(BENEFICIARY), 0);
    assert!(c.storage_registered(CONTRACT));
    assert!(c.storage_registered(BENEFICIARY));
    assert!(!c.storage_registered(OTHER));
    match transfer {
        Action::FtTransfer { receiver_id, amount } => {
            assert_eq!(receiver_id, BENEFICIARY);
            assert_eq!(amount, 1000);
        },
        _ => panic!("expected the deferred transfer action"),
    }
    match sync {
        Action::SyncBasedata { receiver_id, metadata, premined_beneficiary, premined_balance } => {
            assert_eq!(receiver_id, OWNER);
            assert_eq!(metadata.symbol, String::from("WAT"));
            assert_eq!(premined_beneficiary, BENEFICIARY);
            assert_eq!(premined_balance, 1000);
        },
        _ => panic!("expected the base-data notification"),
    }
}

#[test]
fn construct_twice_fails_without_mutation() {
    let mut state = constructed(1000);
    let r = state.construct(&ctx(OWNER, 0), OTHER, OTHER, 7, valid_metadata());
    assert_eq!(r.err(), Some(TokenError::AlreadyInitialized));
    let c = state.contract();
    assert_eq!(c.get_owner(), OWNER);
    assert_eq!(c.ft_total_supply(), 1000);
    assert_eq!(c.ft_balance_of(CONTRACT), 1000);
    assert_eq!(c.ft_metadata().symbol, String::from("WAT"));
    assert!(!c.storage_registered(OTHER));
}

#[test]
fn construct_rejects_invalid_metadata() {
    let mut meta = valid_metadata();
    meta.spec_version = String::from("ft-0.9.0");
    let mut state = AppState::new();
    let r = state.construct(&ctx(OWNER, 0), OWNER, BENEFICIARY, 1000, meta);
    assert_eq!(r.err(), Some(TokenError::InvalidMetadata));
}

#[test]
fn construct_rejects_beneficiary_equal_to_contract() {
    let mut state = AppState::new();
    let r = state.construct(&ctx(OWNER, 0), OWNER, CONTRACT, 1000, valid_metadata());
    assert_eq!(r.err(), Some(TokenError::AlreadyRegistered));
}

#[test]
fn premine_reaches_beneficiary_after_deferred_transfer() {
    let mut state = constructed(1000);
    let action = Action::FtTransfer { receiver_id: BENEFICIARY, amount: 1000 };
    run_deferred_transfer(&mut state, action).expect("deferred transfer should succeed");
    let c = state.contract();
    assert_eq!(c.ft_balance_of(BENEFICIARY), 1000);
    assert_eq!(c.ft_balance_of(CONTRACT), 0);
    assert_eq!(c.ft_total_supply(), 1000);
}

#[test]
fn mint_then_deferred_transfer_credits_recipient() {
    let mut state = constructed(1000);
    let premine = Action::FtTransfer { receiver_id: BENEFICIARY, amount: 1000 };
    run_deferred_transfer(&mut state, premine).unwrap();
    let action = state
        .contract_mut()
        .mint(&ctx(OWNER, STORAGE_BALANCE_MIN), BENEFICIARY, 500)
        .expect("mint by the owner should succeed");
    assert_eq!(state.contract().ft_total_supply(), 1500);
    assert_eq!(state.contract().ft_balance_of(CONTRACT), 500);
    assert_eq!(state.contract().ft_balance_of(BENEFICIARY), 1000);
    run_deferred_transfer(&mut state, action).expect("deferred transfer should succeed");
    let c = state.contract();
    assert_eq!(c.ft_balance_of(BENEFICIARY), 1500);
    assert_eq!(c.ft_balance_of(CONTRACT), 0);
    assert_eq!(c.ft_total_supply(), 1500);
}

#[test]
fn mint_registers_unregistered_recipient() {
    let mut state = constructed(1000);
    let action = state
        .contract_mut()
        .mint(&ctx(OWNER, STORAGE_BALANCE_MIN), OTHER, 250)
        .expect("mint with the registration cost attached should succeed");
    assert!(state.contract().storage_registered(OTHER));
    run_deferred_transfer(&mut state, action).unwrap();
    assert_eq!(state.contract().ft_balance_of(OTHER), 250);
    assert_eq!(state.contract().ft_total_supply(), 1250);
}

#[test]
fn mint_with_insufficient_attachment_changes_nothing() {
    let mut state = constructed(1000);
    let r = state
        .contract_mut()
        .mint(&ctx(OWNER, STORAGE_BALANCE_MIN - 1), OTHER, 250);
    assert_eq!(r.err(), Some(TokenError::InsufficientAttachedDeposit));
    let c = state.contract();
    assert!(!c.storage_registered(OTHER));
    assert_eq!(c.ft_total_supply(), 1000);
    assert_eq!(c.ft_balance_of(CONTRACT), 1000);
    assert_eq!(c.ft_balance_of(OTHER), 0);
}

#[test]
fn mint_by_non_owner_fails() {
    let mut state = constructed(1000);
    let premine = Action::FtTransfer { receiver_id: BENEFICIARY, amount: 1000 };
    run_deferred_transfer(&mut state, premine).unwrap();
    let r = state
        .contract_mut()
        .mint(&ctx(OTHER, STORAGE_BALANCE_MIN), BENEFICIARY, 500);
    assert_eq!(r.err(), Some(TokenError::NotOwner));
    let c = state.contract();
    assert_eq!(c.ft_balance_of(BENEFICIARY), 1000);
    assert_eq!(c.ft_total_supply(), 1000);
}

#[test]
fn unexecuted_deferred_transfer_leaves_balance_on_contract() {
    let mut state = constructed(1000);
    let _ = state
        .contract_mut()
        .mint(&ctx(OWNER, STORAGE_BALANCE_MIN), OTHER, 250)
        .unwrap();
    let c = state.contract();
    assert_eq!(c.ft_balance_of(CONTRACT), 1250);
    assert_eq!(c.ft_balance_of(OTHER), 0);
    assert_eq!(c.ft_total_supply(), 1250);
}

#[test]
fn mint_overflowing_contract_balance_fails() {
    let mut state = constructed(u128::MAX);
    let r = state
        .contract_mut()
        .mint(&ctx(OWNER, STORAGE_BALANCE_MIN), BENEFICIARY, 1);
    assert_eq!(r.err(), Some(TokenError::BalanceOverflow));
    assert_eq!(state.contract().ft_total_supply(), u128::MAX);
}

#[test]
fn mint_overflowing_total_supply_fails() {
    let mut state = constructed(u128::MAX);
    let premine = Action::FtTransfer { receiver_id: BENEFICIARY, amount: 1000 };
    run_deferred_transfer(&mut state, premine).unwrap();
    let r = state
        .contract_mut()
        .mint(&ctx(OWNER, STORAGE_BALANCE_MIN), BENEFICIARY, 1);
    assert_eq!(r.err(), Some(TokenError::TotalSupplyOverflow));
    assert_eq!(state.contract().ft_total_supply(), u128::MAX);
    assert_eq!(state.contract().ft_balance_of(BENEFICIARY), 1000);
}

#[test]
fn burn_decreases_balance_and_supply() {
    let mut state = constructed(1000);
    let premine = Action::FtTransfer { receiver_id: BENEFICIARY, amount: 1000 };
    run_deferred_transfer(&mut state, premine).unwrap();
    state
        .contract_mut()
        .burn(&ctx(OWNER, ONE_YOCTO), BENEFICIARY, 300)
        .expect("burn within the balance should succeed");
    let c = state.contract();
    assert_eq!(c.ft_balance_of(BENEFICIARY), 700);
    assert_eq!(c.ft_total_supply(), 700);
}

#[test]
fn burn_beyond_balance_fails_without_change() {
    let mut state = constructed(1000);
    let premine = Action::FtTransfer { receiver_id: BENEFICIARY, amount: 1000 };
    run_deferred_transfer(&mut state, premine).unwrap();
    let r = state.contract_mut().burn(&ctx(OWNER, ONE_YOCTO), BENEFICIARY, 1500);
    assert_eq!(r.err(), Some(TokenError::InsufficientBalance));
    let c = state.contract();
    assert_eq!(c.ft_balance_of(BENEFICIARY), 1000);
    assert_eq!(c.ft_total_supply(), 1000);
}

#[test]
fn burn_demands_exactly_one_yocto() {
    let mut state = constructed(1000);
    let r = state.contract_mut().burn(&ctx(OWNER, 0), CONTRACT, 1);
    assert_eq!(r.err(), Some(TokenError::OneYoctoRequired));
    let r = state.contract_mut().burn(&ctx(OWNER, 2), CONTRACT, 1);
    assert_eq!(r.err(), Some(TokenError::OneYoctoRequired));
    assert_eq!(state.contract().ft_total_supply(), 1000);
}

#[test]
fn burn_by_non_owner_fails() {
    let mut state = constructed(1000);
    let r = state.contract_mut().burn(&ctx(OTHER, ONE_YOCTO), CONTRACT, 1);
    assert_eq!(r.err(), Some(TokenError::NotOwner));
    assert_eq!(state.contract().ft_total_supply(), 1000);
}

#[test]
fn transfer_demands_one_yocto_and_real_movement() {
    let mut state = constructed(1000);
    let c = state.contract_mut();
    let r = c.ft_transfer(&ctx(CONTRACT, 0), BENEFICIARY, 10, None);
    assert_eq!(r.err(), Some(TokenError::OneYoctoRequired));
    let r = c.ft_transfer(&ctx(CONTRACT, ONE_YOCTO), CONTRACT, 10, None);
    assert_eq!(r.err(), Some(TokenError::SenderIsReceiver));
    let r = c.ft_transfer(&ctx(CONTRACT, ONE_YOCTO), BENEFICIARY, 0, None);
    assert_eq!(r.err(), Some(TokenError::ZeroAmount));
    let r = c.ft_transfer(&ctx(CONTRACT, ONE_YOCTO), OTHER, 10, None);
    assert_eq!(r.err(), Some(TokenError::NotRegistered));
    assert_eq!(c.ft_balance_of(CONTRACT), 1000);
}

#[test]
fn storage_deposit_registers_and_is_idempotent() {
    let mut state = constructed(1000);
    let r = state
        .contract_mut()
        .storage_deposit(&ctx(OTHER, STORAGE_BALANCE_MIN), OTHER);
    assert_eq!(r, Ok(true));
    assert!(state.contract().storage_registered(OTHER));
    assert_eq!(state.contract().ft_balance_of(OTHER), 0);
    let r = state.contract_mut().storage_deposit(&ctx(OTHER, 0), OTHER);
    assert_eq!(r, Ok(false));
}

#[test]
fn storage_deposit_with_short_attachment_fails() {
    let mut state = constructed(1000);
    let r = state
        .contract_mut()
        .storage_deposit(&ctx(OTHER, STORAGE_BALANCE_MIN - 1), OTHER);
    assert_eq!(r.err(), Some(TokenError::InsufficientAttachedDeposit));
    assert!(!state.contract().storage_registered(OTHER));
}

#[test]
fn set_icon_by_outsider_fails() {
    let mut state = constructed(1000);
    let r = state
        .contract_mut()
        .set_icon(&ctx(OWNER, 0), String::from("data:image/svg"));
    assert_eq!(r.err(), Some(TokenError::NotSelf));
    assert_eq!(state.contract().ft_metadata().icon, None);
}

#[test]
fn set_icon_by_self_updates_only_icon() {
    let mut state = constructed(1000);
    state
        .contract_mut()
        .set_icon(&ctx(CONTRACT, 0), String::from("data:image/svg"))
        .expect("the contract itself may set the icon");
    let m = state.contract().ft_metadata();
    assert_eq!(m.icon, Some(String::from("data:image/svg")));
    assert_eq!(m.name, String::from("Wrapped Appchain Token"));
    assert_eq!(m.symbol, String::from("WAT"));
    assert_eq!(m.decimals, 18);
    assert_eq!(m.spec_version, String::from("ft-1.0.0"));
}

#[test]
fn set_owner_by_non_owner_fails() {
    let mut state = constructed(1000);
    let r = state.contract_mut().set_owner(&ctx(OTHER, 0), OTHER);
    assert_eq!(r.err(), Some(TokenError::NotOwner));
    assert_eq!(state.contract().get_owner(), OWNER);
}

#[test]
fn set_owner_takes_effect_immediately() {
    let mut state = constructed(1000);
    state
        .contract_mut()
        .set_owner(&ctx(OWNER, 0), OTHER)
        .expect("the owner may hand ownership on");
    assert_eq!(state.contract().get_owner(), OTHER);
    let r = state
        .contract_mut()
        .mint(&ctx(OWNER, STORAGE_BALANCE_MIN), BENEFICIARY, 1);
    assert_eq!(r.err(), Some(TokenError::NotOwner));
    state
        .contract_mut()
        .mint(&ctx(OTHER, STORAGE_BALANCE_MIN), BENEFICIARY, 1)
        .expect("the new owner may mint");
}

#[test]
fn ft_metadata_returns_stored_record() {
    let state = constructed(1000);
    let m = state.contract().ft_metadata();
    assert_eq!(m.spec_version, String::from("ft-1.0.0"));
    assert_eq!(m.name, String::from("Wrapped Appchain Token"));
    assert_eq!(m.symbol, String::from("WAT"));
    assert_eq!(m.decimals, 18);
    assert_eq!(m.reference, None);
    assert_eq!(m.reference_hash, None);
}
