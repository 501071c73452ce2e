use aria_token::account::AccountId;
use aria_token::error::AriaTokenError;
use aria_token::pump_fun::initialize_pump_fun_config;
use aria_token::pump_fun::update_pump_fun_config;
use aria_token::security::AuthorityList;

fn acct(n: u128) -> AccountId {
    AccountId::new(n, n.wrapping_mul(17))
}

#[test]
fn initialize_starts_with_trading_disabled_and_no_caps() {
    let admin = acct(1);
    let mint = acct(2);
    let ledger = AuthorityList::new(admin);
    let config = initialize_pump_fun_config(&ledger, &admin, true, mint, 2_500_000, 150).unwrap();
    assert_eq!(config.mint, mint);
    assert_eq!(config.initial_price_usd, 2_500_000);
    assert_eq!(config.admin_fee_bps, 150);
    assert!(!config.trading_enabled);
    assert!(config.max_transaction_amount.is_none());
    assert!(config.max_wallet_holdings.is_none());
    assert_eq!(config.authority, admin);
}

#[test]
fn initialize_requires_a_signing_admin() {
    let admin = acct(1);
    let outsider = acct(9);
    let ledger = AuthorityList::new(admin);
    assert_eq!(
        initialize_pump_fun_config(&ledger, &admin, false, acct(2), 1, 1).unwrap_err(),
        AriaTokenError::IncorrectAuthority
    );
    assert_eq!(
        initialize_pump_fun_config(&ledger, &outsider, true, acct(2), 1, 1).unwrap_err(),
        AriaTokenError::IncorrectAuthority
    );
}

#[test]
fn update_overwrites_given_fields_and_keeps_the_rest() {
    let admin = acct(1);
    let ledger = AuthorityList::new(admin);
    let mut config =
        initialize_pump_fun_config(&ledger, &admin, true, acct(2), 2_500_000, 150).unwrap();
    update_pump_fun_config(&mut config, &admin, true, None, Some(200), Some(true), None, None)
        .unwrap();
    assert_eq!(config.initial_price_usd, 2_500_000);
    assert_eq!(config.admin_fee_bps, 200);
    assert!(config.trading_enabled);
    assert!(config.max_transaction_amount.is_none());
    assert!(config.max_wallet_holdings.is_none());
}

#[test]
fn update_can_set_caps() {
    let admin = acct(1);
    let ledger = AuthorityList::new(admin);
    let mut config = initialize_pump_fun_config(&ledger, &admin, true, acct(2), 1, 1).unwrap();
    update_pump_fun_config(
        &mut config,
        &admin,
        true,
        Some(3_000_000),
        None,
        None,
        Some(10_000),
        Some(50_000),
    )
    .unwrap();
    assert_eq!(config.initial_price_usd, 3_000_000);
    assert_eq!(config.admin_fee_bps, 1);
    assert_eq!(config.max_transaction_amount, Some(10_000));
    assert_eq!(config.max_wallet_holdings, Some(50_000));
}

#[test]
fn update_requires_the_owning_authority() {
    let admin = acct(1);
    let outsider = acct(9);
    let ledger = AuthorityList::new(admin);
    let mut config = initialize_pump_fun_config(&ledger, &admin, true, acct(2), 1, 1).unwrap();
    let before = config;
    assert_eq!(
        update_pump_fun_config(&mut config, &outsider, true, Some(9), None, None, None, None)
            .unwrap_err(),
        AriaTokenError::IncorrectAuthority
    );
    assert_eq!(
        update_pump_fun_config(&mut config, &admin, false, Some(9), None, None, None, None)
            .unwrap_err(),
        AriaTokenError::IncorrectAuthority
    );
    assert_eq!(config, before);
}
