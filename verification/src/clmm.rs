//! Pool-side steps of the launch: creating the concentrated-liquidity pool
//! and opening the single-sided position.
//!
//! The external market maker owns the pool, tick-array and position storage;
//! this module models the facts the launch workflow relies on — which
//! records exist, the price a new pool is seeded with, and how a deposit
//! moves amounts — as transitions on plain records. The host performs the
//! actual sub-calls; the enclosing transaction is all-or-nothing, so an
//! error leaves every record as it was.

use crate::model::{
    AccountKey, AccountRef, ExternalFault, LaunchError, PersonalPositionRecord, Phase, PoolRecord,
    ProtocolPositionRecord,
};
use crate::tick_math::{get_sqrt_price_x64_from_tick, tick_sqrt_price_spec, MAX_TICK, MIN_TICK};
use vstd::prelude::*;

verus! {

/// The accounts the pool-side steps read and write, as plain records: the
/// funding accounts, the pool identity triple, the records created along the
/// way, and the depositor's two token balances.
#[derive(Clone, Copy, PartialEq, Eq, Debug)]
pub struct AddSingleSideLiquidity {
    pub payer: AccountRef,
    pub pool_creator: AccountRef,
    pub amm_config: AccountKey,
    pub position_nft_owner: AccountKey,
    pub position_nft_mint: AccountRef,
    pub token_mint_0: AccountKey,
    pub token_mint_1: AccountKey,
    pub pool_state: Option<PoolRecord>,
    pub protocol_position: Option<ProtocolPositionRecord>,
    pub personal_position: Option<PersonalPositionRecord>,
    pub token_account_0: u64,
    pub token_account_1: u64,
}

/// The deposit the market maker computes for a requested liquidity amount:
/// how much of each token must actually be paid in. It is an input of the
/// model because the computation behind it is the external program's own.
#[derive(Clone, Copy, PartialEq, Eq, Debug)]
pub struct DepositQuote {
    pub amount_0: u64,
    pub amount_1: u64,
}

/// A tick range is well-formed when it lies inside the accepted band and is
/// strictly ordered.
pub open spec fn tick_range_ok(tick_lower_index: i32, tick_upper_index: i32) -> bool {
    MIN_TICK <= tick_lower_index && tick_lower_index < tick_upper_index && tick_upper_index
        <= MAX_TICK
}

/// Creates the pool for the (config, mint, mint) triple. Not idempotent: a
/// pool key that already exists fails the whole launch, so the workflow is
/// single-use per triple. A fresh pool starts at the supplied square-root
/// price with empty vaults.
pub fn create_pool(accounts: AddSingleSideLiquidity, sqrt_price_x64: u128, open_time: u64, phase:
    Phase) -> (r: Result<(AddSingleSideLiquidity, Phase), LaunchError>)
    requires
        phase == Phase::TokenCreated,
    ensures
        r is Ok <==> accounts.pool_state is None,
        (match r {
            Result::Ok(out) => {
                &&& out.1 == Phase::PoolBootstrapped
                &&& out.0 == (AddSingleSideLiquidity {
                    pool_state: Some(
                        PoolRecord {
                            amm_config: accounts.amm_config,
                            token_mint_0: accounts.token_mint_0,
                            token_mint_1: accounts.token_mint_1,
                            sqrt_price_x64,
                            open_time,
                            vault_0_amount: 0,
                            vault_1_amount: 0,
                        },
                    ),
                    ..accounts
                })
            },
            Result::Err(e) => e == LaunchError::ExternalCall(ExternalFault::PoolAlreadyExists),
        }),
{
    if accounts.pool_state.is_some() {
        return Err(LaunchError::ExternalCall(ExternalFault::PoolAlreadyExists));
    }
    let pool = PoolRecord {
        amm_config: accounts.amm_config,
        token_mint_0: accounts.token_mint_0,
        token_mint_1: accounts.token_mint_1,
        sqrt_price_x64,
        open_time,
        vault_0_amount: 0,
        vault_1_amount: 0,
    };
    Ok((AddSingleSideLiquidity { pool_state: Some(pool), ..accounts }, Phase::PoolBootstrapped))
}

/// Opens the position: mints the ownership credential, creates the shared
/// and personal position records over the tick range, and moves the quoted
/// deposit from the depositor's token accounts into the pool vaults,
/// provided the quote stays within both declared maxima.
pub fn open_position(
    accounts: AddSingleSideLiquidity,
    tick_lower_index: i32,
    tick_upper_index: i32,
    tick_array_lower_start_index: i32,
    tick_array_upper_start_index: i32,
    liquidity: u128,
    amount_0_max: u64,
    amount_1_max: u64,
    with_metadata: bool,
    base_flag: Option<bool>,
    quote: &DepositQuote,
    phase: Phase,
) -> (r: Result<(AddSingleSideLiquidity, Phase), LaunchError>)
    requires
        phase == Phase::PoolBootstrapped,
        accounts.pool_state is Some,
        tick_range_ok(tick_lower_index, tick_upper_index),
    ensures
        r is Ok <==> {
            &&& quote.amount_0 <= amount_0_max
            &&& quote.amount_1 <= amount_1_max
            &&& quote.amount_0 <= accounts.token_account_0
            &&& quote.amount_1 <= accounts.token_account_1
            &&& accounts.pool_state.unwrap().vault_0_amount + quote.amount_0 <= u64::MAX
            &&& accounts.pool_state.unwrap().vault_1_amount + quote.amount_1 <= u64::MAX
        },
        (match r {
            Result::Ok(out) => {
                &&& out.1 == Phase::PositionOpened
                &&& out.0 == (AddSingleSideLiquidity {
                    pool_state: Some(
                        PoolRecord {
                            vault_0_amount: (accounts.pool_state.unwrap().vault_0_amount
                                + quote.amount_0) as u64,
                            vault_1_amount: (accounts.pool_state.unwrap().vault_1_amount
                                + quote.amount_1) as u64,
                            ..accounts.pool_state.unwrap()
                        },
                    ),
                    protocol_position: Some(
                        ProtocolPositionRecord {
                            tick_lower_index,
                            tick_upper_index,
                            liquidity,
                        },
                    ),
                    personal_position: Some(
                        PersonalPositionRecord {
                            nft_mint: accounts.position_nft_mint.key,
                            tick_lower_index,
                            tick_upper_index,
                            liquidity,
                            amount_0: quote.amount_0,
                            amount_1: quote.amount_1,
                        },
                    ),
                    token_account_0: (accounts.token_account_0 - quote.amount_0) as u64,
                    token_account_1: (accounts.token_account_1 - quote.amount_1) as u64,
                    ..accounts
                })
            },
            Result::Err(e) => {
                &&& ((quote.amount_0 > amount_0_max || quote.amount_1 > amount_1_max) ==> e
                    == LaunchError::ExternalCall(ExternalFault::SlippageExceeded))
                &&& ((quote.amount_0 <= amount_0_max && quote.amount_1 <= amount_1_max && (
                quote.amount_0 > accounts.token_account_0 || quote.amount_1
                    > accounts.token_account_1)) ==> e == LaunchError::ExternalCall(
                    ExternalFault::InsufficientFunds,
                ))
                &&& ((quote.amount_0 <= amount_0_max && quote.amount_1 <= amount_1_max
                    && quote.amount_0 <= accounts.token_account_0 && quote.amount_1
                    <= accounts.token_account_1) ==> e == LaunchError::Arithmetic)
            },
        }),
{
    let pool = accounts.pool_state.unwrap();
    if quote.amount_0 > amount_0_max || quote.amount_1 > amount_1_max {
        return Err(LaunchError::ExternalCall(ExternalFault::SlippageExceeded));
    }
    if quote.amount_0 > accounts.token_account_0 || quote.amount_1 > accounts.token_account_1 {
        return Err(LaunchError::ExternalCall(ExternalFault::InsufficientFunds));
    }
    if pool.vault_0_amount > u64::MAX - quote.amount_0 || pool.vault_1_amount > u64::MAX
        - quote.amount_1 {
        return Err(LaunchError::Arithmetic);
    }
    let new_pool = PoolRecord {
        vault_0_amount: pool.vault_0_amount + quote.amount_0,
        vault_1_amount: pool.vault_1_amount + quote.amount_1,
        ..pool
    };
    let protocol = ProtocolPositionRecord { tick_lower_index, tick_upper_index, liquidity };
    let personal = PersonalPositionRecord {
        nft_mint: accounts.position_nft_mint.key,
        tick_lower_index,
        tick_upper_index,
        liquidity,
        amount_0: quote.amount_0,
        amount_1: quote.amount_1,
    };
    Ok(
        (
            AddSingleSideLiquidity {
                pool_state: Some(new_pool),
                protocol_position: Some(protocol),
                personal_position: Some(personal),
                token_account_0: accounts.token_account_0 - quote.amount_0,
                token_account_1: accounts.token_account_1 - quote.amount_1,
                ..accounts
            },
            Phase::PositionOpened,
        ),
    )
}

/// Seeds the pool at the price derived from the lower tick, then opens the
/// single-sided position: the tick range is checked first, the pool must not
/// exist yet, and the quoted deposit must respect both maxima and both token
/// balances.
pub fn add_single_side_liquidity(
    accounts: AddSingleSideLiquidity,
    tick_lower_index: i32,
    tick_upper_index: i32,
    tick_array_lower_start_index: i32,
    tick_array_upper_start_index: i32,
    liquidity: u128,
    amount_0_max: u64,
    amount_1_max: u64,
    with_metadata: bool,
    base_flag: Option<bool>,
    open_time: u64,
    quote: &DepositQuote,
    phase: Phase,
) -> (r: Result<(AddSingleSideLiquidity, Phase), LaunchError>)
    requires
        phase == Phase::TokenCreated,
    ensures
        r is Ok <==> {
            &&& tick_range_ok(tick_lower_index, tick_upper_index)
            &&& accounts.pool_state is None
            &&& quote.amount_0 <= amount_0_max
            &&& quote.amount_1 <= amount_1_max
            &&& quote.amount_0 <= accounts.token_account_0
            &&& quote.amount_1 <= accounts.token_account_1
        },
        (match r {
            Result::Ok(out) => {
                &&& out.1 == Phase::PositionOpened
                &&& out.0 == (AddSingleSideLiquidity {
                    pool_state: Some(
                        PoolRecord {
                            amm_config: accounts.amm_config,
                            token_mint_0: accounts.token_mint_0,
                            token_mint_1: accounts.token_mint_1,
                            sqrt_price_x64: (tick_sqrt_price_spec(tick_lower_index) as u128),
                            open_time,
                            vault_0_amount: quote.amount_0,
                            vault_1_amount: quote.amount_1,
                        },
                    ),
                    protocol_position: Some(
                        ProtocolPositionRecord {
                            tick_lower_index,
                            tick_upper_index,
                            liquidity,
                        },
                    ),
                    personal_position: Some(
                        PersonalPositionRecord {
                            nft_mint: accounts.position_nft_mint.key,
                            tick_lower_index,
                            tick_upper_index,
                            liquidity,
                            amount_0: quote.amount_0,
                            amount_1: quote.amount_1,
                        },
                    ),
                    token_account_0: (accounts.token_account_0 - quote.amount_0) as u64,
                    token_account_1: (accounts.token_account_1 - quote.amount_1) as u64,
                    ..accounts
                })
            },
            Result::Err(e) => {
                &&& (!tick_range_ok(tick_lower_index, tick_upper_index) ==> e
                    == LaunchError::Validation)
                &&& ((tick_range_ok(tick_lower_index, tick_upper_index)
                    && accounts.pool_state is Some) ==> e == LaunchError::ExternalCall(
                    ExternalFault::PoolAlreadyExists,
                ))
                &&& ((tick_range_ok(tick_lower_index, tick_upper_index)
                    && accounts.pool_state is None && (quote.amount_0 > amount_0_max
                    || quote.amount_1 > amount_1_max)) ==> e == LaunchError::ExternalCall(
                    ExternalFault::SlippageExceeded,
                ))
                &&& ((tick_range_ok(tick_lower_index, tick_upper_index)
                    && accounts.pool_state is None && quote.amount_0 <= amount_0_max
                    && quote.amount_1 <= amount_1_max) ==> e == LaunchError::ExternalCall(
                    ExternalFault::InsufficientFunds,
                ))
            },
        }),
{
    if !(tick_lower_index >= MIN_TICK && tick_lower_index < tick_upper_index && tick_upper_index
        <= MAX_TICK) {
        return Err(LaunchError::Validation);
    }
    let sqrt_price_x64 = get_sqrt_price_x64_from_tick(tick_lower_index);
    let bootstrapped = match create_pool(accounts, sqrt_price_x64, open_time, phase) {
        Ok(out) => out,
        Err(e) => {
            return Err(e);
        },
    };
    let opened = match open_position(
        bootstrapped.0,
        tick_lower_index,
        tick_upper_index,
        tick_array_lower_start_index,
        tick_array_upper_start_index,
        liquidity,
        amount_0_max,
        amount_1_max,
        with_metadata,
        base_flag,
        quote,
        bootstrapped.1,
    ) {
        Ok(out) => out,
        Err(e) => {
            return Err(e);
        },
    };
    Ok(opened)
}

/// Opens a position whose ownership credential is minted under the newer
/// token program. The records it creates are the same as [`open_position`];
/// only the credential's hosting program differs, which these records do not
/// carry.
pub fn open_position_with_token22_nft(
    accounts: AddSingleSideLiquidity,
    liquidity: u128,
    amount_0_max: u64,
    amount_1_max: u64,
    tick_lower_index: i32,
    tick_upper_index: i32,
    tick_array_lower_start_index: i32,
    tick_array_upper_start_index: i32,
    with_metadata: bool,
    base_flag: Option<bool>,
    quote: &DepositQuote,
    phase: Phase,
) -> (r: Result<(AddSingleSideLiquidity, Phase), LaunchError>)
    requires
        phase == Phase::PoolBootstrapped,
        accounts.pool_state is Some,
        tick_range_ok(tick_lower_index, tick_upper_index),
    ensures
        r is Ok <==> {
            &&& quote.amount_0 <= amount_0_max
            &&& quote.amount_1 <= amount_1_max
            &&& quote.amount_0 <= accounts.token_account_0
            &&& quote.amount_1 <= accounts.token_account_1
            &&& accounts.pool_state.unwrap().vault_0_amount + quote.amount_0 <= u64::MAX
            &&& accounts.pool_state.unwrap().vault_1_amount + quote.amount_1 <= u64::MAX
        },
        (match r {
            Result::Ok(out) => {
                &&& out.1 == Phase::PositionOpened
                &&& out.0 == (AddSingleSideLiquidity {
                    pool_state: Some(
                        PoolRecord {
                            vault_0_amount: (accounts.pool_state.unwrap().vault_0_amount
                                + quote.amount_0) as u64,
                            vault_1_amount: (accounts.pool_state.unwrap().vault_1_amount
                                + quote.amount_1) as u64,
                            ..accounts.pool_state.unwrap()
                        },
                    ),
                    protocol_position: Some(
                        ProtocolPositionRecord {
                            tick_lower_index,
                            tick_upper_index,
                            liquidity,
                        },
                    ),
                    personal_position: Some(
                        PersonalPositionRecord {
                            nft_mint: accounts.position_nft_mint.key,
                            tick_lower_index,
                            tick_upper_index,
                            liquidity,
                            amount_0: quote.amount_0,
                            amount_1: quote.amount_1,
                        },
                    ),
                    token_account_0: (accounts.token_account_0 - quote.amount_0) as u64,
                    token_account_1: (accounts.token_account_1 - quote.amount_1) as u64,
                    ..accounts
                })
            },
            Result::Err(e) => {
                &&& ((quote.amount_0 > amount_0_max || quote.amount_1 > amount_1_max) ==> e
                    == LaunchError::ExternalCall(ExternalFault::SlippageExceeded))
                &&& ((quote.amount_0 <= amount_0_max && quote.amount_1 <= amount_1_max && (
                quote.amount_0 > accounts.token_account_0 || quote.amount_1
                    > accounts.token_account_1)) ==> e == LaunchError::ExternalCall(
                    ExternalFault::InsufficientFunds,
                ))
                &&& ((quote.amount_0 <= amount_0_max && quote.amount_1 <= amount_1_max
                    && quote.amount_0 <= accounts.token_account_0 && quote.amount_1
                    <= accounts.token_account_1) ==> e == LaunchError::Arithmetic)
            },
        }),
{
    open_position(
        accounts,
        tick_lower_index,
        tick_upper_index,
        tick_array_lower_start_index,
        tick_array_upper_start_index,
        liquidity,
        amount_0_max,
        amount_1_max,
        with_metadata,
        base_flag,
        quote,
        phase,
    )
}

} // verus!
