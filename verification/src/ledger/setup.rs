//! Creating and changing the platform's configuration.

use vstd::prelude::*;
use crate::accounts::{Initialize, UpdateConfig};
use crate::address::Address;
use crate::error::CustomError;
use crate::events::{ConfigUpdated, Initialized};
use crate::fee::BPS_DENOMINATOR;
use crate::ledger::{Ledger, LedgerView};
use crate::records::GlobalConfig;

verus! {

/// The configuration that `initialize` creates.
pub open spec fn first_config(signer: Address, platform_fee: u16, treasury: Address) -> GlobalConfig {
    GlobalConfig {
        owner: signer,
        platform_fee,
        treasury,
        paused: false,
        reserved: vstd::array::spec_array_fill_for_copy_type::<u8, 128>(0u8),
    }
}

/// The configuration that a caller creates, or why it cannot be created.
pub open spec fn created_config(signer: Address, platform_fee: u16, treasury: Address) -> Result<
    GlobalConfig,
    CustomError,
> {
    if platform_fee >= 10000 {
        Err(CustomError::InvalidConfiguration)
    } else {
        Ok(first_config(signer, platform_fee, treasury))
    }
}

/// Makes the first configuration: the caller is the owner, the pause flag is
/// off, the reserved room is zeroed. Fails with `InvalidConfiguration` where
/// the fee rate is not below 10000 basis points.
pub fn create_config(signer: &Address, platform_fee: u16, treasury: Address) -> (r: Result<
    GlobalConfig,
    CustomError,
>)
    ensures
        r == created_config(*signer, platform_fee, treasury),
{
    if platform_fee >= BPS_DENOMINATOR {
        return Err(CustomError::InvalidConfiguration);
    }
    Ok(GlobalConfig { owner: *signer, platform_fee, treasury, paused: false, reserved: [0u8;128] })
}

/// The configuration that a change by a caller makes of the current one, or
/// why it cannot be changed.
pub open spec fn changed_config(
    current: GlobalConfig,
    caller: Address,
    new_owner: Address,
    new_platform_fee: u16,
    new_treasury: Address,
    new_paused: bool,
) -> Result<GlobalConfig, CustomError> {
    if caller@ != current.owner@ {
        Err(CustomError::Unauthorized)
    } else if new_platform_fee >= 10000 {
        Err(CustomError::InvalidConfiguration)
    } else {
        Ok(
            GlobalConfig {
                owner: new_owner,
                platform_fee: new_platform_fee,
                treasury: new_treasury,
                paused: new_paused,
                reserved: current.reserved,
            },
        )
    }
}

/// Makes the configuration that replaces the current one. Fails with
/// `Unauthorized` where the caller is not the current owner, and with
/// `InvalidConfiguration` where the new fee rate is not below 10000 basis
/// points.
pub fn change_config(
    current: &GlobalConfig,
    caller: &Address,
    new_owner: Address,
    new_platform_fee: u16,
    new_treasury: Address,
    new_paused: bool,
) -> (r: Result<GlobalConfig, CustomError>)
    ensures
        r == changed_config(*current, *caller, new_owner, new_platform_fee, new_treasury, new_paused),
{
    if !caller.same(&current.owner) {
        return Err(CustomError::Unauthorized);
    }
    if new_platform_fee >= BPS_DENOMINATOR {
        return Err(CustomError::InvalidConfiguration);
    }
    Ok(
        GlobalConfig {
            owner: new_owner,
            platform_fee: new_platform_fee,
            treasury: new_treasury,
            paused: new_paused,
            reserved: current.reserved,
        },
    )
}

/// What `initialize` makes of the state, and what it returns.
pub open spec fn initialize_model(
    pre: LedgerView,
    ctx: Initialize,
    platform_fee: u16,
    treasury: Address,
) -> (LedgerView, Result<Initialized, CustomError>) {
    if pre.config is Some {
        (pre, Err(CustomError::AccountAlreadyExists))
    } else {
        match created_config(ctx.signer, platform_fee, treasury) {
            Err(e) => (pre, Err(e)),
            Ok(c) => (
                LedgerView { config: Some(c), ..pre },
                Ok(
                    Initialized {
                        owner: c.owner,
                        platform_fee: c.platform_fee,
                        treasury: c.treasury,
                        paused: c.paused,
                    },
                ),
            ),
        }
    }
}

/// Creates the configuration, with the caller as owner, the pause flag off
/// and the reserved room zeroed. Fails with `AccountAlreadyExists` where
/// there is a configuration already, and with `InvalidConfiguration` where
/// the fee rate is not below 10000 basis points.
pub fn initialize(ledger: &mut Ledger, ctx: &Initialize, platform_fee: u16, treasury: Address) -> (r:
    Result<Initialized, CustomError>)
    requires
        old(ledger).wf(),
    ensures
        final(ledger).wf(),
        (final(ledger)@, r) == initialize_model(old(ledger)@, *ctx, platform_fee, treasury),
{
    if ledger.config.is_some() {
        return Err(CustomError::AccountAlreadyExists);
    }
    let config = match create_config(&ctx.signer, platform_fee, treasury) {
        Ok(c) => c,
        Err(e) => {
            return Err(e);
        },
    };
    ledger.config = Some(config);
    proof {
        assert(ledger@.wallets == old(ledger)@.wallets);
        assert(ledger@.custody == old(ledger)@.custody);
        assert(ledger@.orders == old(ledger)@.orders);
    }
    Ok(
        Initialized {
            owner: config.owner,
            platform_fee: config.platform_fee,
            treasury: config.treasury,
            paused: config.paused,
        },
    )
}

/// What `update_config` makes of the state, and what it returns.
pub open spec fn update_config_model(
    pre: LedgerView,
    ctx: UpdateConfig,
    new_owner: Address,
    new_platform_fee: u16,
    new_treasury: Address,
    new_paused: bool,
) -> (LedgerView, Result<ConfigUpdated, CustomError>) {
    match pre.config {
        None => (pre, Err(CustomError::AccountNotFound)),
        Some(c) => match changed_config(
            c,
            ctx.owner,
            new_owner,
            new_platform_fee,
            new_treasury,
            new_paused,
        ) {
            Err(e) => (pre, Err(e)),
            Ok(n) => (
                LedgerView { config: Some(n), ..pre },
                Ok(
                    ConfigUpdated {
                        owner: n.owner,
                        platform_fee: n.platform_fee,
                        treasury: n.treasury,
                        paused: n.paused,
                    },
                ),
            ),
        },
    }
}

/// Replaces owner, fee rate, treasury and pause flag at once. Fails with
/// `AccountNotFound` where there is no configuration, with `Unauthorized`
/// where the caller is not the owner, and with `InvalidConfiguration` where
/// the new fee rate is not below 10000 basis points.
pub fn update_config(
    ledger: &mut Ledger,
    ctx: &UpdateConfig,
    new_owner: Address,
    new_platform_fee: u16,
    new_treasury: Address,
    new_paused: bool,
) -> (r: Result<ConfigUpdated, CustomError>)
    requires
        old(ledger).wf(),
    ensures
        final(ledger).wf(),
        (final(ledger)@, r) == update_config_model(
            old(ledger)@,
            *ctx,
            new_owner,
            new_platform_fee,
            new_treasury,
            new_paused,
        ),
{
    let current = match ledger.config {
        Some(c) => c,
        None => {
            return Err(CustomError::AccountNotFound);
        },
    };
    let config = match change_config(
        &current,
        &ctx.owner,
        new_owner,
        new_platform_fee,
        new_treasury,
        new_paused,
    ) {
        Ok(c) => c,
        Err(e) => {
            return Err(e);
        },
    };
    ledger.config = Some(config);
    proof {
        assert(ledger@.wallets == old(ledger)@.wallets);
        assert(ledger@.custody == old(ledger)@.custody);
        assert(ledger@.orders == old(ledger)@.orders);
    }
    Ok(
        ConfigUpdated {
            owner: config.owner,
            platform_fee: config.platform_fee,
            treasury: config.treasury,
            paused: config.paused,
        },
    )
}

} // verus!
