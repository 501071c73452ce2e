//! Listing configuration for the launch platform.
//!
//! One record per asset, created by an Admin with trading disabled, then
//! mutated field by field by its owning authority: each field given in an
//! update call overwrites the matching config field, absent fields stay
//! untouched.

use vstd::prelude::*;

use crate::account::AccountId;
use crate::error::AriaTokenError;
use crate::security::AuthorityList;
use crate::security::Role;

verus! {

/// The listing configuration record of one asset.
#[derive(Clone, Copy, Debug, PartialEq, Eq, Structural)]
pub struct PumpFunConfig {
    /// The asset the listing configures.
    pub mint: AccountId,
    /// Initial price in USD, fixed point with six decimals.
    pub initial_price_usd: u64,
    /// Admin fee in basis points (100 is one percent).
    pub admin_fee_bps: u16,
    /// Whether trading is enabled; off at creation until switched on.
    pub trading_enabled: bool,
    /// Cap per transaction, when one is set.
    pub max_transaction_amount: Option<u64>,
    /// Cap per wallet, when one is set.
    pub max_wallet_holdings: Option<u64>,
    /// The identity allowed to update this record.
    pub authority: AccountId,
}

/// What a partial update does to a config: each given field overwrites, each
/// absent field stays.  A cap can be tightened or changed but not taken away
/// by an update, since an absent cap field means "leave untouched".
pub open spec fn spec_updated_config(
    config: PumpFunConfig,
    initial_price_usd: Option<u64>,
    admin_fee_bps: Option<u16>,
    trading_enabled: Option<bool>,
    max_transaction_amount: Option<u64>,
    max_wallet_holdings: Option<u64>,
) -> PumpFunConfig {
    PumpFunConfig {
        mint: config.mint,
        initial_price_usd: if initial_price_usd is Some {
            initial_price_usd->Some_0
        } else {
            config.initial_price_usd
        },
        admin_fee_bps: if admin_fee_bps is Some {
            admin_fee_bps->Some_0
        } else {
            config.admin_fee_bps
        },
        trading_enabled: if trading_enabled is Some {
            trading_enabled->Some_0
        } else {
            config.trading_enabled
        },
        max_transaction_amount: if max_transaction_amount is Some {
            max_transaction_amount
        } else {
            config.max_transaction_amount
        },
        max_wallet_holdings: if max_wallet_holdings is Some {
            max_wallet_holdings
        } else {
            config.max_wallet_holdings
        },
        authority: config.authority,
    }
}

impl PumpFunConfig {
    /// A fresh listing: trading disabled, no caps.
    pub fn new(mint: AccountId, initial_price_usd: u64, admin_fee_bps: u16, authority: AccountId)
        -> (r: PumpFunConfig)
        ensures
            r == (PumpFunConfig {
                mint,
                initial_price_usd,
                admin_fee_bps,
                trading_enabled: false,
                max_transaction_amount: None,
                max_wallet_holdings: None,
                authority,
            }),
    {
        PumpFunConfig {
            mint,
            initial_price_usd,
            admin_fee_bps,
            trading_enabled: false,
            max_transaction_amount: None,
            max_wallet_holdings: None,
            authority,
        }
    }
}

/// Create the listing configuration for `mint`, owned by the signing caller,
/// who must hold Admin in `ledger`.  Trading starts disabled and must be
/// enabled explicitly later.
pub fn initialize_pump_fun_config(
    ledger: &AuthorityList,
    caller: &AccountId,
    caller_signed: bool,
    mint: AccountId,
    initial_price_usd: u64,
    admin_fee_bps: u16,
) -> (r: Result<PumpFunConfig, AriaTokenError>)
    ensures
        !(caller_signed && ledger.spec_has_role(*caller, Role::Admin)) ==> r == Err::<
            PumpFunConfig,
            AriaTokenError,
        >(AriaTokenError::IncorrectAuthority),
        caller_signed && ledger.spec_has_role(*caller, Role::Admin) ==> (r matches Ok(c) && c
            == (PumpFunConfig {
            mint,
            initial_price_usd,
            admin_fee_bps,
            trading_enabled: false,
            max_transaction_amount: None,
            max_wallet_holdings: None,
            authority: *caller,
        })),
{
    if !caller_signed {
        return Err(AriaTokenError::IncorrectAuthority);
    }
    if !ledger.has_role(caller, Role::Admin) {
        return Err(AriaTokenError::IncorrectAuthority);
    }
    Ok(PumpFunConfig::new(mint, initial_price_usd, admin_fee_bps, *caller))
}

/// Partially update the listing configuration.  Only its owning authority,
/// having signed, may update; on failure the record is untouched.
pub fn update_pump_fun_config(
    config: &mut PumpFunConfig,
    caller: &AccountId,
    caller_signed: bool,
    initial_price_usd: Option<u64>,
    admin_fee_bps: Option<u16>,
    trading_enabled: Option<bool>,
    max_transaction_amount: Option<u64>,
    max_wallet_holdings: Option<u64>,
) -> (r: Result<(), AriaTokenError>)
    ensures
        !(caller_signed && old(config).authority == *caller) ==> r == Err::<(), AriaTokenError>(
            AriaTokenError::IncorrectAuthority,
        ) && *final(config) == *old(config),
        caller_signed && old(config).authority == *caller ==> r is Ok && *final(config)
            == spec_updated_config(
            *old(config),
            initial_price_usd,
            admin_fee_bps,
            trading_enabled,
            max_transaction_amount,
            max_wallet_holdings,
        ),
{
    if !caller_signed {
        return Err(AriaTokenError::IncorrectAuthority);
    }
    if !(config.authority == *caller) {
        return Err(AriaTokenError::IncorrectAuthority);
    }
    if let Some(price) = initial_price_usd {
        config.initial_price_usd = price;
    }
    if let Some(fee) = admin_fee_bps {
        config.admin_fee_bps = fee;
    }
    if let Some(enabled) = trading_enabled {
        config.trading_enabled = enabled;
    }
    if max_transaction_amount.is_some() {
        config.max_transaction_amount = max_transaction_amount;
    }
    if max_wallet_holdings.is_some() {
        config.max_wallet_holdings = max_wallet_holdings;
    }
    Ok(())
}

} // verus!
