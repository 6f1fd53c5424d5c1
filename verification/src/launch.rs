//! The launch sequence: charge the flat creation fee, mint the fee-bearing
//! token, bootstrap the pool, open the single-sided position.
//!
//! The four steps run strictly in that order — the [`Phase`] threaded
//! through them makes skipping or reordering unprovable — and the whole
//! sequence is one ledger transaction: on any error the caller's records are
//! left exactly as they were, mirroring the host's all-or-nothing commit.

use crate::clmm;
use crate::clmm::{tick_range_ok, AddSingleSideLiquidity, DepositQuote};
use crate::model::{
    AccountKey, AccountRef, ExternalFault, LaunchError, PersonalPositionRecord, Phase, PoolRecord,
    ProtocolPositionRecord, TokenMintRecord,
};
use crate::tick_math::{tick_sqrt_price_spec, MAX_TICK, MIN_TICK};
use vstd::prelude::*;

verus! {

/// Instruction data of a launch: the transfer-fee settings of the new
/// token, the flat creation fee, the position's tick range and tick-array
/// start indices, and the liquidity with its two spending caps.
#[derive(Clone, Copy, PartialEq, Eq, Debug)]
pub struct CreateTokenParams {
    pub transfer_fee_basis_points: u16,
    pub maximum_fee: u64,
    pub creation_fee: u64,
    pub tick_lower_index: i32,
    pub tick_upper_index: i32,
    pub tick_array_lower_start_index: i32,
    pub tick_array_upper_start_index: i32,
    pub liquidity: u128,
    pub amount_tax_token_max: u64,
    pub amount_sol_max: u64,
}

/// The accounts a launch reads and writes, as plain records: the payer and
/// the fee receiver, the new mint, the pool identity, the records created
/// along the way, and the payer's two token balances.
#[derive(Clone, Copy, PartialEq, Eq, Debug)]
pub struct CreateAndBuy {
    pub payer: AccountRef,
    pub mint_account: AccountRef,
    pub fee_receiver: AccountRef,
    pub amm_config: AccountKey,
    pub position_nft_owner: AccountKey,
    pub position_nft_mint: AccountRef,
    pub wsol_mint: AccountKey,
    pub mint_state: Option<TokenMintRecord>,
    pub pool_state: Option<PoolRecord>,
    pub protocol_position: Option<ProtocolPositionRecord>,
    pub personal_position: Option<PersonalPositionRecord>,
    pub tax_token_account: u64,
    pub wsol_account: u64,
}

/// Facts the host environment supplies for one invocation: the clock
/// reading that becomes the pool's open time, the rent-exempt minimum for
/// the mint account's size, and the deposit the market maker quotes for the
/// requested liquidity.
#[derive(Clone, Copy, PartialEq, Eq, Debug)]
pub struct LaunchEnv {
    pub unix_timestamp: u64,
    pub rent_exempt_minimum: u64,
    pub deposit_quote: DepositQuote,
}

/// Relies on spl_token_2022's `ExtensionType::try_calculate_account_len`:
/// for a mint with exactly one transfer-fee extension it returns the fixed
/// total of the padded base and account-type byte (166), one type-and-length
/// entry header (4) and the transfer-fee configuration body (108).
#[verifier::external_body]
fn spl_mint_len_with_transfer_fee() -> (r: Option<usize>)
    ensures
        r == Some(278usize),
{
    spl_token_2022::extension::ExtensionType::try_calculate_account_len::<
        spl_token_2022::pod::PodMint,
    >(&[spl_token_2022::extension::ExtensionType::TransferFeeConfig]).ok()
}

/// Exact storage size of a mint account carrying a transfer-fee extension.
pub fn mint_account_len() -> (r: usize)
    ensures
        r == 278,
{
    let len = spl_mint_len_with_transfer_fee();
    len.unwrap()
}

/// Every account that must sign a launch did sign it: the paying party, the
/// new mint, and the ownership-token mint.
pub open spec fn signers_ok(a: CreateAndBuy) -> bool {
    a.payer.is_signer && a.mint_account.is_signer && a.position_nft_mint.is_signer
}

/// The mint record a successful launch writes: fixed decimals, every
/// authority held by the paying party, and the requested fee schedule.
pub open spec fn minted_record(a: CreateAndBuy, p: CreateTokenParams) -> TokenMintRecord {
    TokenMintRecord {
        decimals: 2,
        mint_authority: a.payer.key,
        freeze_authority: a.payer.key,
        transfer_fee_basis_points: p.transfer_fee_basis_points,
        maximum_fee: p.maximum_fee,
        transfer_fee_config_authority: a.payer.key,
        withdraw_withheld_authority: a.payer.key,
        account_size: 278,
    }
}

/// When a launch succeeds: signatures present, a well-formed tick range,
/// the payer able to fund the fee and the mint's rent-exempt balance, no
/// pool yet for the triple, and a deposit quote within both caps and both
/// token balances.
pub open spec fn launch_accepted(a: CreateAndBuy, p: CreateTokenParams, env: LaunchEnv) -> bool {
    &&& signers_ok(a)
    &&& tick_range_ok(p.tick_lower_index, p.tick_upper_index)
    &&& p.creation_fee <= a.payer.lamports
    &&& a.fee_receiver.lamports + p.creation_fee <= u64::MAX
    &&& env.rent_exempt_minimum <= a.payer.lamports - p.creation_fee
    &&& a.pool_state is None
    &&& env.deposit_quote.amount_0 <= p.amount_tax_token_max
    &&& env.deposit_quote.amount_1 <= p.amount_sol_max
    &&& env.deposit_quote.amount_0 <= a.tax_token_account
    &&& env.deposit_quote.amount_1 <= a.wsol_account
}

/// The state a successful launch leaves behind: exactly the creation fee
/// moved to the receiver, the rent-exempt balance spent on the mint, the
/// mint written with the requested fee settings, the pool seeded at the
/// lower tick's price, and the position holding the requested liquidity.
pub open spec fn launched_state(a: CreateAndBuy, p: CreateTokenParams, env: LaunchEnv) -> CreateAndBuy {
    CreateAndBuy {
        payer: AccountRef {
            lamports: (a.payer.lamports - p.creation_fee - env.rent_exempt_minimum) as u64,
            ..a.payer
        },
        fee_receiver: AccountRef {
            lamports: (a.fee_receiver.lamports + p.creation_fee) as u64,
            ..a.fee_receiver
        },
        mint_state: Some(minted_record(a, p)),
        pool_state: Some(
            PoolRecord {
                amm_config: a.amm_config,
                token_mint_0: a.mint_account.key,
                token_mint_1: a.wsol_mint,
                sqrt_price_x64: tick_sqrt_price_spec(p.tick_lower_index) as u128,
                open_time: env.unix_timestamp,
                vault_0_amount: env.deposit_quote.amount_0,
                vault_1_amount: env.deposit_quote.amount_1,
            },
        ),
        protocol_position: Some(
            ProtocolPositionRecord {
                tick_lower_index: p.tick_lower_index,
                tick_upper_index: p.tick_upper_index,
                liquidity: p.liquidity,
            },
        ),
        personal_position: Some(
            PersonalPositionRecord {
                nft_mint: a.position_nft_mint.key,
                tick_lower_index: p.tick_lower_index,
                tick_upper_index: p.tick_upper_index,
                liquidity: p.liquidity,
                amount_0: env.deposit_quote.amount_0,
                amount_1: env.deposit_quote.amount_1,
            },
        ),
        tax_token_account: (a.tax_token_account - env.deposit_quote.amount_0) as u64,
        wsol_account: (a.wsol_account - env.deposit_quote.amount_1) as u64,
        ..a
    }
}

/// The error a rejected launch surfaces: the first failing check along the
/// sequence decides, in the order the steps run.
pub open spec fn launch_error(a: CreateAndBuy, p: CreateTokenParams, env: LaunchEnv) -> LaunchError {
    if !signers_ok(a) {
        LaunchError::Authorization
    } else if !tick_range_ok(p.tick_lower_index, p.tick_upper_index) {
        LaunchError::Validation
    } else if a.payer.lamports < p.creation_fee {
        LaunchError::ExternalCall(ExternalFault::InsufficientFunds)
    } else if a.fee_receiver.lamports + p.creation_fee > u64::MAX {
        LaunchError::Arithmetic
    } else if a.payer.lamports - p.creation_fee < env.rent_exempt_minimum {
        LaunchError::ExternalCall(ExternalFault::InsufficientFunds)
    } else if a.pool_state is Some {
        LaunchError::ExternalCall(ExternalFault::PoolAlreadyExists)
    } else if env.deposit_quote.amount_0 > p.amount_tax_token_max || env.deposit_quote.amount_1
        > p.amount_sol_max {
        LaunchError::ExternalCall(ExternalFault::SlippageExceeded)
    } else {
        LaunchError::ExternalCall(ExternalFault::InsufficientFunds)
    }
}

/// Moves the flat creation fee from the payer to the fee receiver. This is
/// the first step of the sequence; if it fails nothing downstream runs.
pub fn handle_creation_fees(accounts: CreateAndBuy, fee: u64, phase: Phase) -> (r: Result<
    (CreateAndBuy, Phase),
    LaunchError,
>)
    requires
        phase == Phase::Init,
    ensures
        r is Ok <==> (fee <= accounts.payer.lamports && accounts.fee_receiver.lamports + fee
            <= u64::MAX),
        (match r {
            Result::Ok(out) => {
                &&& out.1 == Phase::FeeCharged
                &&& out.0 == (CreateAndBuy {
                    payer: AccountRef {
                        lamports: (accounts.payer.lamports - fee) as u64,
                        ..accounts.payer
                    },
                    fee_receiver: AccountRef {
                        lamports: (accounts.fee_receiver.lamports + fee) as u64,
                        ..accounts.fee_receiver
                    },
                    ..accounts
                })
            },
            Result::Err(e) => {
                &&& (accounts.payer.lamports < fee ==> e == LaunchError::ExternalCall(
                    ExternalFault::InsufficientFunds,
                ))
                &&& (fee <= accounts.payer.lamports ==> e == LaunchError::Arithmetic)
            },
        }),
{
    if fee > accounts.payer.lamports {
        return Err(LaunchError::ExternalCall(ExternalFault::InsufficientFunds));
    }
    if accounts.fee_receiver.lamports > u64::MAX - fee {
        return Err(LaunchError::Arithmetic);
    }
    Ok(
        (
            CreateAndBuy {
                payer: AccountRef { lamports: accounts.payer.lamports - fee, ..accounts.payer },
                fee_receiver: AccountRef {
                    lamports: accounts.fee_receiver.lamports + fee,
                    ..accounts.fee_receiver
                },
                ..accounts
            },
            Phase::FeeCharged,
        ),
    )
}

/// Creates the fee-bearing mint: sizes the account, funds it rent-exempt
/// from the payer, installs the transfer-fee extension before the core mint
/// fields, and reads the record back to check that both extension
/// authorities equal the payer's key.
pub fn create_token(
    accounts: CreateAndBuy,
    transfer_fee_basis_points: u16,
    maximum_fee: u64,
    rent_exempt_minimum: u64,
    phase: Phase,
) -> (r: Result<(CreateAndBuy, Phase), LaunchError>)
    requires
        phase == Phase::FeeCharged,
    ensures
        r is Ok <==> rent_exempt_minimum <= accounts.payer.lamports,
        (match r {
            Result::Ok(out) => {
                &&& out.1 == Phase::TokenCreated
                &&& out.0 == (CreateAndBuy {
                    payer: AccountRef {
                        lamports: (accounts.payer.lamports - rent_exempt_minimum) as u64,
                        ..accounts.payer
                    },
                    mint_state: Some(
                        TokenMintRecord {
                            decimals: 2,
                            mint_authority: accounts.payer.key,
                            freeze_authority: accounts.payer.key,
                            transfer_fee_basis_points,
                            maximum_fee,
                            transfer_fee_config_authority: accounts.payer.key,
                            withdraw_withheld_authority: accounts.payer.key,
                            account_size: 278,
                        },
                    ),
                    ..accounts
                })
            },
            Result::Err(e) => e == LaunchError::ExternalCall(ExternalFault::InsufficientFunds),
        }),
{
    let mint_size = mint_account_len();
    if rent_exempt_minimum > accounts.payer.lamports {
        return Err(LaunchError::ExternalCall(ExternalFault::InsufficientFunds));
    }
    let record = TokenMintRecord {
        transfer_fee_basis_points,
        maximum_fee,
        transfer_fee_config_authority: accounts.payer.key,
        withdraw_withheld_authority: accounts.payer.key,
        decimals: 2,
        mint_authority: accounts.payer.key,
        freeze_authority: accounts.payer.key,
        account_size: mint_size,
    };
    if record.transfer_fee_config_authority != accounts.payer.key {
        return Err(LaunchError::Authorization);
    }
    if record.withdraw_withheld_authority != accounts.payer.key {
        return Err(LaunchError::Authorization);
    }
    Ok(
        (
            CreateAndBuy {
                payer: AccountRef {
                    lamports: accounts.payer.lamports - rent_exempt_minimum,
                    ..accounts.payer
                },
                mint_state: Some(record),
                ..accounts
            },
            Phase::TokenCreated,
        ),
    )
}

/// Hands the pool-side accounts to the market-maker steps — the new mint
/// paired against the reference asset — and folds the created records back.
pub fn handle_add_single_side_liquidity(
    accounts: CreateAndBuy,
    tick_lower_index: i32,
    tick_upper_index: i32,
    tick_array_lower_start_index: i32,
    tick_array_upper_start_index: i32,
    liquidity: u128,
    amount_tax_token_max: u64,
    amount_sol_max: u64,
    open_time: u64,
    quote: &DepositQuote,
    phase: Phase,
) -> (r: Result<(CreateAndBuy, Phase), LaunchError>)
    requires
        phase == Phase::TokenCreated,
    ensures
        r is Ok <==> {
            &&& tick_range_ok(tick_lower_index, tick_upper_index)
            &&& accounts.pool_state is None
            &&& quote.amount_0 <= amount_tax_token_max
            &&& quote.amount_1 <= amount_sol_max
            &&& quote.amount_0 <= accounts.tax_token_account
            &&& quote.amount_1 <= accounts.wsol_account
        },
        (match r {
            Result::Ok(out) => {
                &&& out.1 == Phase::PositionOpened
                &&& out.0 == (CreateAndBuy {
                    pool_state: Some(
                        PoolRecord {
                            amm_config: accounts.amm_config,
                            token_mint_0: accounts.mint_account.key,
                            token_mint_1: accounts.wsol_mint,
                            sqrt_price_x64: tick_sqrt_price_spec(tick_lower_index) as u128,
                            open_time,
                            vault_0_amount: quote.amount_0,
                            vault_1_amount: quote.amount_1,
                        },
                    ),
                    protocol_position: Some(
                        ProtocolPositionRecord {
                            tick_lower_index,
                            tick_upper_index,
                            liquidity,
                        },
                    ),
                    personal_position: Some(
                        PersonalPositionRecord {
                            nft_mint: accounts.position_nft_mint.key,
                            tick_lower_index,
                            tick_upper_index,
                            liquidity,
                            amount_0: quote.amount_0,
                            amount_1: quote.amount_1,
                        },
                    ),
                    tax_token_account: (accounts.tax_token_account - quote.amount_0) as u64,
                    wsol_account: (accounts.wsol_account - quote.amount_1) as u64,
                    ..accounts
                })
            },
            Result::Err(e) => {
                &&& (!tick_range_ok(tick_lower_index, tick_upper_index) ==> e
                    == LaunchError::Validation)
                &&& ((tick_range_ok(tick_lower_index, tick_upper_index)
                    && accounts.pool_state is Some) ==> e == LaunchError::ExternalCall(
                    ExternalFault::PoolAlreadyExists,
                ))
                &&& ((tick_range_ok(tick_lower_index, tick_upper_index)
                    && accounts.pool_state is None && (quote.amount_0 > amount_tax_token_max
                    || quote.amount_1 > amount_sol_max)) ==> e == LaunchError::ExternalCall(
                    ExternalFault::SlippageExceeded,
                ))
                &&& ((tick_range_ok(tick_lower_index, tick_upper_index)
                    && accounts.pool_state is None && quote.amount_0 <= amount_tax_token_max
                    && quote.amount_1 <= amount_sol_max) ==> e == LaunchError::ExternalCall(
                    ExternalFault::InsufficientFunds,
                ))
            },
        }),
{
    let sub = AddSingleSideLiquidity {
        payer: accounts.payer,
        pool_creator: accounts.payer,
        amm_config: accounts.amm_config,
        position_nft_owner: accounts.position_nft_owner,
        position_nft_mint: accounts.position_nft_mint,
        token_mint_0: accounts.mint_account.key,
        token_mint_1: accounts.wsol_mint,
        pool_state: accounts.pool_state,
        protocol_position: accounts.protocol_position,
        personal_position: accounts.personal_position,
        token_account_0: accounts.tax_token_account,
        token_account_1: accounts.wsol_account,
    };
    let out = match clmm::add_single_side_liquidity(
        sub,
        tick_lower_index,
        tick_upper_index,
        tick_array_lower_start_index,
        tick_array_upper_start_index,
        liquidity,
        amount_tax_token_max,
        amount_sol_max,
        true,
        Some(true),
        open_time,
        quote,
        phase,
    ) {
        Ok(out) => out,
        Err(e) => {
            return Err(e);
        },
    };
    Ok(
        (
            CreateAndBuy {
                pool_state: out.0.pool_state,
                protocol_position: out.0.protocol_position,
                personal_position: out.0.personal_position,
                tax_token_account: out.0.token_account_0,
                wsol_account: out.0.token_account_1,
                ..accounts
            },
            out.1,
        ),
    )
}

/// Runs the whole launch: signature and tick-range guards, then fee, mint,
/// pool and position, strictly in that order. On success the accounts hold
/// exactly [`launched_state`]; on any error they are left untouched and the
/// surfaced error is the first failing check, so a pool key that already
/// exists can never be relaunched and a failed fee transfer leaves no mint
/// behind.
pub fn process_create_and_buy(
    accounts: &mut CreateAndBuy,
    params: &CreateTokenParams,
    env: &LaunchEnv,
) -> (r: Result<(), LaunchError>)
    ensures
        r is Ok <==> launch_accepted(*old(accounts), *params, *env),
        r is Ok ==> *final(accounts) == launched_state(*old(accounts), *params, *env),
        r is Err ==> *final(accounts) == *old(accounts),
        (r matches Err(e) ==> e == launch_error(*old(accounts), *params, *env)),
        old(accounts).pool_state is Some ==> r is Err,
{
    if !(accounts.payer.is_signer && accounts.mint_account.is_signer
        && accounts.position_nft_mint.is_signer) {
        return Err(LaunchError::Authorization);
    }
    if !(params.tick_lower_index >= MIN_TICK && params.tick_lower_index < params.tick_upper_index
        && params.tick_upper_index <= MAX_TICK) {
        return Err(LaunchError::Validation);
    }
    let charged = match handle_creation_fees(*accounts, params.creation_fee, Phase::Init) {
        Ok(out) => out,
        Err(e) => {
            return Err(e);
        },
    };
    let minted = match create_token(
        charged.0,
        params.transfer_fee_basis_points,
        params.maximum_fee,
        env.rent_exempt_minimum,
        charged.1,
    ) {
        Ok(out) => out,
        Err(e) => {
            return Err(e);
        },
    };
    let seeded = match handle_add_single_side_liquidity(
        minted.0,
        params.tick_lower_index,
        params.tick_upper_index,
        params.tick_array_lower_start_index,
        params.tick_array_upper_start_index,
        params.liquidity,
        params.amount_tax_token_max,
        params.amount_sol_max,
        env.unix_timestamp,
        &env.deposit_quote,
        minted.1,
    ) {
        Ok(out) => out,
        Err(e) => {
            return Err(e);
        },
    };
    *accounts = seeded.0;
    Ok(())
}

/// Entry point of the launchpad: creates the fee-bearing token and buys
/// into its fresh pool, all within one all-or-nothing transaction.
pub fn create_and_buy(
    accounts: &mut CreateAndBuy,
    params: &CreateTokenParams,
    env: &LaunchEnv,
) -> (r: Result<(), LaunchError>)
    ensures
        r is Ok <==> launch_accepted(*old(accounts), *params, *env),
        r is Ok ==> *final(accounts) == launched_state(*old(accounts), *params, *env),
        r is Err ==> *final(accounts) == *old(accounts),
        (r matches Err(e) ==> e == launch_error(*old(accounts), *params, *env)),
        old(accounts).pool_state is Some ==> r is Err,
{
    process_create_and_buy(accounts, params, env)
}

} // verus!
