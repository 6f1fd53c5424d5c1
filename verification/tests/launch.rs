use token_launchpad::clmm::{
    create_pool, open_position, open_position_with_token22_nft, AddSingleSideLiquidity,
    DepositQuote,
};
use token_launchpad::launch::{
    create_and_buy, handle_creation_fees, mint_account_len, process_create_and_buy, CreateAndBuy,
    CreateTokenParams, LaunchEnv,
};
use token_launchpad::model::{
    AccountRef, CreateTokenParams as TokenMetadataParams, ExternalFault, LaunchError,
    LaunchpadConfig, Phase, PoolRecord, TokenMintRecord,
};
use token_launchpad::tick_math::get_sqrt_price_x64_from_tick;

fn fresh_accounts() -> CreateAndBuy {
    CreateAndBuy {
        payer: AccountRef { key: 1, lamports: 10_000_000, is_signer: true },
        mint_account: AccountRef { key: 2, lamports: 0, is_signer: true },
        fee_receiver: AccountRef { key: 3, lamports: 50, is_signer: false },
        amm_config: 4,
        position_nft_owner: 1,
        position_nft_mint: AccountRef { key: 5, lamports: 0, is_signer: true },
        wsol_mint: 6,
        mint_state: None,
        pool_state: None,
        protocol_position: None,
        personal_position: None,
        tax_token_account: 1_000_000,
        wsol_account: 2_000_000,
    }
}

fn launch_params() -> CreateTokenParams {
    CreateTokenParams {
        transfer_fee_basis_points: 300,
        maximum_fee: 5_000,
        creation_fee: 1_000,
        tick_lower_index: -100,
        tick_upper_index: 100,
        tick_array_lower_start_index: -600,
        tick_array_upper_start_index: 0,
        liquidity: 987_654_321,
        amount_tax_token_max: 500_000,
        amount_sol_max: 600_000,
    }
}

fn launch_env() -> LaunchEnv {
    LaunchEnv {
        unix_timestamp: 1_700_000_000,
        rent_exempt_minimum: 2_000,
        deposit_quote: DepositQuote { amount_0: 400_000, amount_1: 0 },
    }
}

fn existing_pool() -> PoolRecord {
    PoolRecord {
        amm_config: 4,
        token_mint_0: 2,
        token_mint_1: 6,
        sqrt_price_x64: 42,
        open_time: 7,
        vault_0_amount: 0,
        vault_1_amount: 0,
    }
}

#[test]
fn end_to_end_launch_succeeds_and_seeds_everything() {
    let mut accounts = fresh_accounts();
    let params = launch_params();
    let env = launch_env();
    let r = create_and_buy(&mut accounts, &params, &env);
    assert_eq!(r, Ok(()));

    // The fee collector moved exactly the creation fee.
    assert_eq!(accounts.fee_receiver.lamports, 50 + 1_000);
    assert_eq!(accounts.payer.lamports, 10_000_000 - 1_000 - 2_000);

    // A mint with the requested fee parameters exists, every authority held
    // by the payer.
    let mint: TokenMintRecord = accounts.mint_state.expect("mint must exist");
    assert_eq!(mint.transfer_fee_basis_points, 300);
    assert_eq!(mint.maximum_fee, 5_000);
    assert_eq!(mint.decimals, 2);
    assert_eq!(mint.mint_authority, 1);
    assert_eq!(mint.freeze_authority, 1);
    assert_eq!(mint.transfer_fee_config_authority, 1);
    assert_eq!(mint.withdraw_withheld_authority, 1);
    assert_eq!(mint.account_size, 278);

    // A pool keyed by (config, new mint, reference mint) exists at the
    // lower tick's price.
    let pool = accounts.pool_state.expect("pool must exist");
    assert_eq!(pool.amm_config, 4);
    assert_eq!(pool.token_mint_0, 2);
    assert_eq!(pool.token_mint_1, 6);
    assert_eq!(pool.sqrt_price_x64, get_sqrt_price_x64_from_tick(-100));
    assert_eq!(pool.open_time, 1_700_000_000);

    // A position over [-100, 100] holds the requested liquidity, with the
    // spend within both declared maxima.
    let position = accounts.personal_position.expect("position must exist");
    assert_eq!(position.tick_lower_index, -100);
    assert_eq!(position.tick_upper_index, 100);
    assert_eq!(position.liquidity, 987_654_321);
    assert!(position.amount_0 <= params.amount_tax_token_max);
    assert!(position.amount_1 <= params.amount_sol_max);
    let protocol = accounts.protocol_position.expect("protocol record must exist");
    assert_eq!(protocol.liquidity, 987_654_321);

    // The deposit left the payer's token accounts and sits in the vaults.
    assert_eq!(accounts.tax_token_account, 600_000);
    assert_eq!(accounts.wsol_account, 2_000_000);
    assert_eq!(pool.vault_0_amount, 400_000);
    assert_eq!(pool.vault_1_amount, 0);
}

#[test]
fn existing_pool_fails_the_whole_transaction() {
    let mut accounts = fresh_accounts();
    accounts.pool_state = Some(existing_pool());
    let before = accounts;
    let r = create_and_buy(&mut accounts, &launch_params(), &launch_env());
    assert_eq!(
        r,
        Err(LaunchError::ExternalCall(ExternalFault::PoolAlreadyExists))
    );
    // No mint, fee transfer, or position is observable afterwards.
    assert_eq!(accounts, before);
    assert!(accounts.mint_state.is_none());
    assert!(accounts.personal_position.is_none());
    assert_eq!(accounts.fee_receiver.lamports, 50);
}

#[test]
fn failed_fee_transfer_leaves_no_mint() {
    let mut accounts = fresh_accounts();
    accounts.payer.lamports = 999;  // short of the 1000 creation fee
    let before = accounts;
    let r = create_and_buy(&mut accounts, &launch_params(), &launch_env());
    assert_eq!(
        r,
        Err(LaunchError::ExternalCall(ExternalFault::InsufficientFunds))
    );
    assert!(accounts.mint_state.is_none());
    assert_eq!(accounts, before);
}

#[test]
fn missing_signer_is_an_authorization_failure() {
    let mut accounts = fresh_accounts();
    accounts.mint_account.is_signer = false;
    let before = accounts;
    let r = create_and_buy(&mut accounts, &launch_params(), &launch_env());
    assert_eq!(r, Err(LaunchError::Authorization));
    assert_eq!(accounts, before);
}

#[test]
fn malformed_tick_range_is_a_validation_failure() {
    let mut accounts = fresh_accounts();
    let mut params = launch_params();
    params.tick_lower_index = 100;
    params.tick_upper_index = -100;
    let r = create_and_buy(&mut accounts, &params, &launch_env());
    assert_eq!(r, Err(LaunchError::Validation));

    let mut params = launch_params();
    params.tick_lower_index = params.tick_upper_index;  // empty range
    let r = create_and_buy(&mut accounts, &params, &launch_env());
    assert_eq!(r, Err(LaunchError::Validation));

    let mut params = launch_params();
    params.tick_upper_index = 443637;  // outside the accepted band
    let r = create_and_buy(&mut accounts, &params, &launch_env());
    assert_eq!(r, Err(LaunchError::Validation));
}

#[test]
fn overspending_quote_is_a_slippage_failure() {
    let mut accounts = fresh_accounts();
    let before = accounts;
    let mut env = launch_env();
    env.deposit_quote.amount_0 = 500_001;  // above amount_tax_token_max
    let r = create_and_buy(&mut accounts, &launch_params(), &env);
    assert_eq!(
        r,
        Err(LaunchError::ExternalCall(ExternalFault::SlippageExceeded))
    );
    assert_eq!(accounts, before);
}

#[test]
fn fee_receiver_balance_overflow_is_an_arithmetic_failure() {
    let mut accounts = fresh_accounts();
    accounts.fee_receiver.lamports = u64::MAX;
    let before = accounts;
    let r = create_and_buy(&mut accounts, &launch_params(), &launch_env());
    assert_eq!(r, Err(LaunchError::Arithmetic));
    assert_eq!(accounts, before);
}

#[test]
fn rent_shortfall_after_the_fee_fails_the_mint() {
    let mut accounts = fresh_accounts();
    accounts.payer.lamports = 2_500;  // covers the 1000 fee, not the 2000 rent
    let before = accounts;
    let r = create_and_buy(&mut accounts, &launch_params(), &launch_env());
    assert_eq!(
        r,
        Err(LaunchError::ExternalCall(ExternalFault::InsufficientFunds))
    );
    assert!(accounts.mint_state.is_none());
    assert_eq!(accounts, before);
}

#[test]
fn mint_account_size_covers_base_and_transfer_fee_extension() {
    assert_eq!(mint_account_len(), 278);
}

#[test]
fn configuration_and_metadata_records_round_trip() {
    let config = LaunchpadConfig { authority: 9, creation_fee: 1_000, bump: 254 };
    assert_eq!(config, config.clone());
    assert_eq!(config.creation_fee, 1_000);

    let metadata = TokenMetadataParams {
        token_name: "Example".to_string(),
        token_symbol: "EXM".to_string(),
        token_metadata_uri: "ipfs://example".to_string(),
        token_supply: 1_000_000,
        buy_amount: 10,
        bump: 255,
    };
    assert_eq!(metadata, metadata.clone());
    assert_eq!(metadata.token_symbol, "EXM");
}

#[test]
fn fee_collection_moves_exactly_the_fee() {
    let (charged, phase) =
        handle_creation_fees(fresh_accounts(), 1_000, Phase::Init).expect("fee must clear");
    assert_eq!(phase, Phase::FeeCharged);
    assert_eq!(charged.payer.lamports, 10_000_000 - 1_000);
    assert_eq!(charged.fee_receiver.lamports, 1_050);
    assert!(charged.mint_state.is_none());
}

#[test]
fn process_entry_point_matches_the_wrapper() {
    let mut via_wrapper = fresh_accounts();
    let mut via_process = fresh_accounts();
    let params = launch_params();
    let env = launch_env();
    let a = create_and_buy(&mut via_wrapper, &params, &env);
    let b = process_create_and_buy(&mut via_process, &params, &env);
    assert_eq!(a, b);
    assert_eq!(via_wrapper, via_process);
}

fn pool_side_accounts() -> AddSingleSideLiquidity {
    AddSingleSideLiquidity {
        payer: AccountRef { key: 1, lamports: 5_000, is_signer: true },
        pool_creator: AccountRef { key: 1, lamports: 5_000, is_signer: true },
        amm_config: 4,
        position_nft_owner: 1,
        position_nft_mint: AccountRef { key: 5, lamports: 0, is_signer: true },
        token_mint_0: 2,
        token_mint_1: 6,
        pool_state: None,
        protocol_position: None,
        personal_position: None,
        token_account_0: 1_000,
        token_account_1: 1_000,
    }
}

#[test]
fn pool_creation_is_single_use_per_triple() {
    let (created, phase) =
        create_pool(pool_side_accounts(), 42, 7, Phase::TokenCreated).expect("fresh pool");
    assert_eq!(phase, Phase::PoolBootstrapped);
    let pool = created.pool_state.expect("pool record");
    assert_eq!(pool.sqrt_price_x64, 42);
    assert_eq!(pool.open_time, 7);
    assert_eq!(pool.vault_0_amount, 0);

    let again = create_pool(created, 42, 7, Phase::TokenCreated);
    assert_eq!(
        again,
        Err(LaunchError::ExternalCall(ExternalFault::PoolAlreadyExists))
    );
}

#[test]
fn position_opening_respects_both_maxima() {
    let (created, phase) =
        create_pool(pool_side_accounts(), 42, 7, Phase::TokenCreated).expect("fresh pool");
    let quote = DepositQuote { amount_0: 600, amount_1: 0 };
    let r = open_position(created, -100, 100, -600, 0, 77, 500, 500, true, Some(true), &quote, phase);
    assert_eq!(
        r,
        Err(LaunchError::ExternalCall(ExternalFault::SlippageExceeded))
    );

    let quote = DepositQuote { amount_0: 400, amount_1: 0 };
    let (opened, phase) =
        open_position(created, -100, 100, -600, 0, 77, 500, 500, true, Some(true), &quote, phase)
            .expect("within maxima");
    assert_eq!(phase, Phase::PositionOpened);
    assert_eq!(opened.token_account_0, 600);
    assert_eq!(opened.pool_state.unwrap().vault_0_amount, 400);
    let personal = opened.personal_position.expect("personal record");
    assert_eq!(personal.nft_mint, 5);
    assert_eq!(personal.liquidity, 77);
}

#[test]
fn token22_credential_variant_creates_the_same_records() {
    let (created, phase) =
        create_pool(pool_side_accounts(), 42, 7, Phase::TokenCreated).expect("fresh pool");
    let quote = DepositQuote { amount_0: 400, amount_1: 250 };
    let via_plain = open_position(
        created, -100, 100, -600, 0, 77, 500, 500, true, Some(true), &quote, phase,
    );
    let via_token22 = open_position_with_token22_nft(
        created, 77, 500, 500, -100, 100, -600, 0, true, Some(true), &quote, phase,
    );
    assert_eq!(via_plain, via_token22);
    assert!(via_plain.is_ok());
}
