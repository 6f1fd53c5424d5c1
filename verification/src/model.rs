//! Data model of the launch workflow.
//!
//! The workflow runs inside one ledger transaction and reads only a few
//! plain facts about each account it touches; those facts are modelled here
//! as ordinary values. An account key is carried as a model identifier, and
//! an account's record (mint, pool, position) is an `Option` that is `None`
//! until the account has been created.

use vstd::prelude::*;

verus! {

/// Model identifier standing for a 32-byte ledger account key.
pub type AccountKey = u64;

/// A ledger account as the workflow reads it: its key, its balance of the
/// native asset, and whether it signed the enclosing transaction.
#[derive(Clone, Copy, PartialEq, Eq, Debug)]
pub struct AccountRef {
    pub key: AccountKey,
    pub lamports: u64,
    pub is_signer: bool,
}

/// The mint record of a launched fee-bearing token: core mint fields plus
/// the transfer-fee extension and its two authorities.
#[derive(Clone, Copy, PartialEq, Eq, Debug)]
pub struct TokenMintRecord {
    pub decimals: u8,
    pub mint_authority: AccountKey,
    pub freeze_authority: AccountKey,
    pub transfer_fee_basis_points: u16,
    pub maximum_fee: u64,
    pub transfer_fee_config_authority: AccountKey,
    pub withdraw_withheld_authority: AccountKey,
    pub account_size: usize,
}

/// A concentrated-liquidity pool, identified by its fee configuration and
/// its two mints, created at most once per such triple.
#[derive(Clone, Copy, PartialEq, Eq, Debug)]
pub struct PoolRecord {
    pub amm_config: AccountKey,
    pub token_mint_0: AccountKey,
    pub token_mint_1: AccountKey,
    pub sqrt_price_x64: u128,
    pub open_time: u64,
    pub vault_0_amount: u64,
    pub vault_1_amount: u64,
}

/// The aggregate liquidity record shared by every depositor over one exact
/// tick range of a pool.
#[derive(Clone, Copy, PartialEq, Eq, Debug)]
pub struct ProtocolPositionRecord {
    pub tick_lower_index: i32,
    pub tick_upper_index: i32,
    pub liquidity: u128,
}

/// A depositor's own position: controlled by whoever holds the uniquely
/// minted ownership token, and bounded by the amounts actually deposited.
#[derive(Clone, Copy, PartialEq, Eq, Debug)]
pub struct PersonalPositionRecord {
    pub nft_mint: AccountKey,
    pub tick_lower_index: i32,
    pub tick_upper_index: i32,
    pub liquidity: u128,
    pub amount_0: u64,
    pub amount_1: u64,
}

/// Progress marker of the launch sequence. Transitions occur strictly in
/// declaration order; there is no backward transition and no compensation —
/// a failure at any point aborts the whole enclosing transaction.
#[derive(Clone, Copy, PartialEq, Eq, Debug)]
pub enum Phase {
    Init,
    FeeCharged,
    TokenCreated,
    PoolBootstrapped,
    PositionOpened,
    Complete,
}

/// A sub-call into an external program returned a failure code.
#[derive(Clone, Copy, PartialEq, Eq, Debug)]
pub enum ExternalFault {
    /// A balance was too small to cover a transfer or an allocation.
    InsufficientFunds,
    /// The pool for this (config, mint, mint) triple already exists.
    PoolAlreadyExists,
    /// Reaching the requested liquidity would overspend a declared maximum.
    SlippageExceeded,
}

/// Everything that can abort a launch. No error is retried locally: each is
/// surfaced at once and rolls the enclosing transaction back.
#[derive(Clone, Copy, PartialEq, Eq, Debug)]
pub enum LaunchError {
    /// A malformed tick range or a mismatched account relation.
    Validation,
    /// Fixed-point or balance arithmetic left the representable range.
    Arithmetic,
    /// An external sub-call failed.
    ExternalCall(ExternalFault),
    /// A required signature is absent.
    Authorization,
}

/// Metadata and supply parameters describing a token to be launched.
#[derive(Clone, PartialEq, Eq, Debug)]
pub struct CreateTokenParams {
    pub token_name: String,
    pub token_symbol: String,
    pub token_metadata_uri: String,
    pub token_supply: u64,
    pub buy_amount: u64,
    pub bump: u8,
}

/// Ledger-wide launchpad configuration: the administering authority and the
/// flat fee charged for each launch.
#[derive(Clone, Copy, PartialEq, Eq, Debug)]
pub struct LaunchpadConfig {
    pub authority: AccountKey,
    pub creation_fee: u64,
    pub bump: u8,
}

} // verus!
