use rrelayer_core::top_up::{top_up_task_work, TopUpTaskWork};
use rrelayer_core::config::{
    AdvancedConfig, AllOrAddresses, ApiConfig, Erc20TokenConfig, GasBumpBlockConfig, NativeTokenConfig,
    NetworkAutomaticTopUpConfig, NetworkAutomaticTopUpFrom, NetworkAutomaticTopUpRelayer, NetworkSetupConfig, SetupConfig,
};
use rrelayer_core::primitives::{EvmAddress, TransactionId, Uint256};
use rrelayer_core::top_up::{
    addresses_needing_top_up, balance_from_call_result, check_not_self, check_registered_target,
    encode_transfer_call, erc20_balances_sufficient, erc20_top_up_request, native_balance_sufficient,
    native_top_up_request, resolve_additional_addresses, resolve_relayer_addresses, transfer_cost,
    allow_non_relayer_topups, networks_with_top_ups, top_up_jobs, TopUpJob,
};
use rrelayer_core::transaction::TransactionSpeed;

fn address(byte: u8) -> EvmAddress {
    EvmAddress { bytes: [byte; 20] }
}

fn u(v: u128) -> Uint256 {
    Uint256::from_u128(v)
}

#[test]
fn relayer_targets_exclude_the_funding_address() {
    let chain = vec![address(1), address(2), address(3)];
    assert_eq!(resolve_relayer_addresses(&AllOrAddresses::All, Ok(chain.clone()), &address(2)), Ok(vec![address(1), address(3)]));
    assert_eq!(resolve_relayer_addresses(&AllOrAddresses::All, Err("db".to_string()), &address(2)), Ok(vec![]));
    let listed = AllOrAddresses::List(vec![address(3), address(9), address(2)]);
    assert_eq!(resolve_relayer_addresses(&listed, Ok(chain), &address(2)), Ok(vec![address(3)]));
    assert_eq!(resolve_relayer_addresses(&listed, Err("db".to_string()), &address(2)), Err("db".to_string()));
}

fn top_up_config(additional: Option<Vec<EvmAddress>>) -> NetworkAutomaticTopUpConfig {
    NetworkAutomaticTopUpConfig {
        from: NetworkAutomaticTopUpFrom {
            safe: None,
            relayer: NetworkAutomaticTopUpRelayer { address: address(1), internal_only: None },
        },
        relayers: AllOrAddresses::All,
        native: None,
        erc20_tokens: None,
        additional_addresses: additional,
    }
}

#[test]
fn additional_addresses_need_the_switch() {
    let config = top_up_config(Some(vec![address(1), address(5), address(6), address(5)]));
    assert!(resolve_additional_addresses(false, &config, &vec![]).is_empty());
    assert_eq!(resolve_additional_addresses(true, &config, &vec![address(6)]), vec![address(5), address(5)]);
    assert!(resolve_additional_addresses(true, &top_up_config(None), &vec![]).is_empty());
}

#[test]
fn only_low_balances_need_top_up() {
    let addresses = vec![address(1), address(2), address(3)];
    let balances = vec![Some(u(5)), None, Some(u(50))];
    assert_eq!(addresses_needing_top_up(&addresses, &balances, &u(10)), vec![address(1)]);
}

#[test]
fn funding_balance_checks() {
    let native = NativeTokenConfig { min_balance: u(1), top_up_amount: u(1_000_000), decimals: 18 };
    // Two top-ups of 1_000_000 plus 21000 gas at 10 wei each.
    assert!(native_balance_sufficient(&u(2_420_000), &native, Some(10), 2));
    assert!(!native_balance_sufficient(&u(2_419_999), &native, Some(10), 2));
    // Without a gas price, 20 gwei is assumed.
    assert!(!native_balance_sufficient(&u(2_420_000), &native, None, 2));
    assert_eq!(transfer_cost(10, 21_000), u(210_000));
    let token = Erc20TokenConfig { address: address(7), min_balance: u(1), top_up_amount: u(500), decimals: 6 };
    assert!(erc20_balances_sufficient(&u(1_000), &u(1_300_000), &token, Some(10), 2));
    assert!(!erc20_balances_sufficient(&u(999), &u(1_300_000), &token, Some(10), 2));
    assert!(!erc20_balances_sufficient(&u(1_000), &u(1_299_999), &token, Some(10), 2));
}

#[test]
fn transfer_call_encoding() {
    let data = encode_transfer_call(&address(0xab), &u(0x0102));
    assert_eq!(data.len(), 68);
    assert_eq!(&data[0..4], &[0xa9, 0x05, 0x9c, 0xbb]);
    assert!(data[4..16].iter().all(|b| *b == 0));
    assert!(data[16..36].iter().all(|b| *b == 0xab));
    assert!(data[36..66].iter().all(|b| *b == 0));
    assert_eq!(&data[66..68], &[0x01, 0x02]);
}

#[test]
fn balance_of_replies() {
    assert!(balance_from_call_result(&vec![]).is_zero());
    let mut word = vec![0u8; 32];
    word[31] = 42;
    assert_eq!(balance_from_call_result(&word), u(42));
    assert!(balance_from_call_result(&vec![1, 2, 3]).is_zero());
    assert!(balance_from_call_result(&vec![0xff; 31]).is_zero());
    let mut longer = vec![0u8; 40];
    longer[30] = 1;
    longer[31] = 2;
    longer[35] = 9;
    assert_eq!(balance_from_call_result(&longer), u(258));
    let mut high = vec![0u8; 32];
    high[0] = 1;
    assert_eq!(balance_from_call_result(&high), Uint256 { limbs: [0, 0, 0, 1 << 56] });
}

#[test]
fn top_up_requests_and_refusals() {
    let native = NativeTokenConfig { min_balance: u(1), top_up_amount: u(77), decimals: 18 };
    let request = native_top_up_request(TransactionId(5), &address(0x11), &address(0x22), &native, None);
    assert_eq!(request.to, address(0x22));
    assert_eq!(request.value, u(77));
    assert!(request.data.is_empty());
    assert_eq!(request.speed, TransactionSpeed::FAST);
    let from_text = address(0x11).to_display_string();
    let to_text = address(0x22).to_display_string();
    assert_eq!(request.external_id, Some(format!("automatic_top_up_native_{}_{}", from_text, to_text)));
    let via_safe = native_top_up_request(TransactionId(5), &address(0x11), &address(0x22), &native, Some((address(0x33), vec![1])));
    assert_eq!(via_safe.to, address(0x33));
    assert!(via_safe.value.is_zero());
    assert_eq!(via_safe.data, vec![1]);

    let token = Erc20TokenConfig { address: address(0x44), min_balance: u(1), top_up_amount: u(9), decimals: 6 };
    let erc20 = erc20_top_up_request(TransactionId(6), &address(0x11), &address(0x22), &token, None);
    assert_eq!(erc20.to, address(0x44));
    assert!(erc20.value.is_zero());
    assert_eq!(erc20.data, encode_transfer_call(&address(0x22), &u(9)));
    let token_text = address(0x44).to_display_string();
    assert_eq!(erc20.external_id, Some(format!("automatic_top_up_erc20_{}_{}_{}", token_text, from_text, to_text)));

    assert_eq!(
        check_not_self(false, &address(0x11), &address(0x11)),
        Err(format!("Cannot send top-up transaction to self: from_address {} equals relayer_address {}", from_text, from_text))
    );
    assert!(check_not_self(true, &address(0x11), &address(0x22)).is_ok());
    assert_eq!(
        check_registered_target(&address(0x22), 137, Ok(false)),
        Err(format!("Security check failed: relayer_address {} is not a registered relayer on chain 137", to_text))
    );
    assert_eq!(
        check_registered_target(&address(0x22), 137, Err("db".to_string())),
        Err(format!("Failed to validate relayer_address {} as relayer: db", to_text))
    );
    assert!(check_registered_target(&address(0x22), 137, Ok(true)).is_ok());
}

#[test]
fn top_up_batches_in_order() {
    let mut config = top_up_config(None);
    config.native = Some(NativeTokenConfig { min_balance: u(1), top_up_amount: u(2), decimals: 18 });
    config.erc20_tokens = Some(vec![
        Erc20TokenConfig { address: address(7), min_balance: u(1), top_up_amount: u(2), decimals: 6 },
        Erc20TokenConfig { address: address(8), min_balance: u(1), top_up_amount: u(2), decimals: 6 },
    ]);
    assert_eq!(
        top_up_jobs(&config, true, true),
        vec![
            TopUpJob { erc20_token: None, additional_addresses: false },
            TopUpJob { erc20_token: None, additional_addresses: true },
            TopUpJob { erc20_token: Some(0), additional_addresses: false },
            TopUpJob { erc20_token: Some(0), additional_addresses: true },
            TopUpJob { erc20_token: Some(1), additional_addresses: false },
            TopUpJob { erc20_token: Some(1), additional_addresses: true },
        ]
    );
    assert_eq!(top_up_jobs(&config, false, true).len(), 3);
    assert!(top_up_jobs(&config, false, false).is_empty());
}

#[test]
fn top_up_network_selection() {
    let network = |chain_id: u64, top_ups: Option<Vec<NetworkAutomaticTopUpConfig>>| NetworkSetupConfig {
        name: "n".to_string(),
        chain_id,
        signing_provider: None,
        provider_urls: vec![],
        block_explorer_url: None,
        automatic_top_up: top_ups,
        permissions: None,
        api_keys: None,
        confirmations: None,
        enable_sending_blobs: None,
        gas_bump_blocks_every: GasBumpBlockConfig::default(),
        max_gas_price_multiplier: 4,
        allowed_random_relayers: None,
    };
    let networks = vec![network(1, Some(vec![top_up_config(None)])), network(2, Some(vec![])), network(3, None)];
    assert_eq!(networks_with_top_ups(&networks), vec![1]);
    let mut setup = SetupConfig {
        name: "x".to_string(),
        description: None,
        signing_provider: None,
        networks,
        api_config: ApiConfig { host: None, port: 1, allowed_origins: None, authentication_username: String::new(), authentication_password: String::new() },
        webhooks: None,
        rate_limits: None,
        advanced: None,
    };
    assert!(!allow_non_relayer_topups(&setup));
    setup.advanced = Some(AdvancedConfig { auto_fail_expired_transactions: None, allow_non_relayer_topups: Some(true) });
    assert!(allow_non_relayer_topups(&setup));
}

#[test]
fn top_up_task_reloads_every_minute_and_checks_every_half_minute() {
    assert_eq!(top_up_task_work(100_000, 70_000, 70_000), TopUpTaskWork { refresh_relayers: false, check_top_ups: true });
    assert_eq!(top_up_task_work(130_000, 70_000, 100_000), TopUpTaskWork { refresh_relayers: true, check_top_ups: true });
    assert_eq!(top_up_task_work(129_999, 70_000, 100_000), TopUpTaskWork { refresh_relayers: false, check_top_ups: false });
}
