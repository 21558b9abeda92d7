use rrelayer_core::config::{
    ApiKey, NetworkPermissionsConfig, AllOrAddresses, AllOrOneOrManyAddresses, GasBumpBlockConfig, NetworkAutomaticTopUpConfig, NetworkAutomaticTopUpFrom,
    NetworkAutomaticTopUpRelayer, NetworkSetupConfig, PrivateKeyConfig, RawSigningProviderConfig, SigningProvider,
};
use rrelayer_core::primitives::EvmAddress;
use rrelayer_core::startup::{plan_startup, private_key_imports, private_key_only_networks};

fn address(byte: u8) -> EvmAddress {
    EvmAddress { bytes: [byte; 20] }
}

fn network(name: &str, chain_id: u64) -> NetworkSetupConfig {
    NetworkSetupConfig {
        name: name.to_string(),
        chain_id,
        signing_provider: None,
        provider_urls: vec!["http://node".to_string()],
        block_explorer_url: None,
        automatic_top_up: None,
        permissions: None,
        api_keys: None,
        confirmations: None,
        enable_sending_blobs: None,
        gas_bump_blocks_every: GasBumpBlockConfig::default(),
        max_gas_price_multiplier: 4,
        allowed_random_relayers: None,
    }
}

fn top_up(relayer: u8, safe: Option<u8>, internal_only: Option<bool>) -> NetworkAutomaticTopUpConfig {
    NetworkAutomaticTopUpConfig {
        from: NetworkAutomaticTopUpFrom {
            safe: safe.map(address),
            relayer: NetworkAutomaticTopUpRelayer { address: address(relayer), internal_only },
        },
        relayers: AllOrAddresses::All,
        native: None,
        erc20_tokens: None,
        additional_addresses: None,
    }
}

#[test]
fn startup_plan_from_networks() {
    let mut a = network("a", 1);
    a.automatic_top_up = Some(vec![top_up(1, Some(9), None), top_up(2, None, Some(false))]);
    a.allowed_random_relayers = Some(AllOrOneOrManyAddresses::All);
    let mut b = network("b", 2);
    b.automatic_top_up = Some(vec![top_up(3, None, Some(true))]);
    b.allowed_random_relayers = Some(AllOrOneOrManyAddresses::One(address(4)));
    let plan = plan_startup(&vec![a, b]);
    assert_eq!(plan.relayer_internal_only, vec![(1, address(1)), (2, address(3))]);
    assert_eq!(plan.safe_configs.len(), 1);
    assert_eq!(plan.safe_configs[0].address, address(9));
    assert_eq!(plan.safe_configs[0].relayers, vec![address(1)]);
    assert_eq!(plan.safe_configs[0].chain_id, 1);
    assert_eq!(plan.relayers_allowed_for_random.len(), 2);
    assert_eq!(plan.relayers_allowed_for_random[&1], Vec::<EvmAddress>::new());
    assert_eq!(plan.relayers_allowed_for_random[&2], vec![address(4)]);
    assert_eq!(plan.api_keys.len(), 2);
    assert_eq!(plan.api_keys[0].0, 1);
    assert!(plan.api_keys[0].1.is_empty());
    assert!(plan.network_permissions.is_empty());
}

#[test]
fn startup_plan_keeps_permissions_keys_and_the_last_random_list_per_chain() {
    let mut a = network("a", 1);
    a.allowed_random_relayers = Some(AllOrOneOrManyAddresses::One(address(4)));
    a.permissions = Some(vec![NetworkPermissionsConfig {
        relayers: AllOrOneOrManyAddresses::Many(vec![address(5), address(6)]),
        allowlist: vec![address(7)],
        disable_native_transfer: Some(true),
        disable_personal_sign: None,
        disable_typed_data_sign: Some(false),
        disable_transactions: None,
    }]);
    a.api_keys = Some(vec![ApiKey { relayer: address(8), keys: vec!["k1".to_string(), "k2".to_string()] }]);
    let mut b = network("b", 1);
    b.allowed_random_relayers = Some(AllOrOneOrManyAddresses::Many(vec![address(9), address(10)]));
    let c = network("c", 3);
    let plan = plan_startup(&vec![a, b, c]);
    assert_eq!(plan.relayers_allowed_for_random.len(), 1);
    assert_eq!(plan.relayers_allowed_for_random[&1], vec![address(9), address(10)]);
    assert_eq!(plan.network_permissions.len(), 1);
    let (chain, perms) = &plan.network_permissions[0];
    assert_eq!(*chain, 1);
    assert_eq!(perms.len(), 1);
    assert!(matches!(&perms[0].relayers, AllOrOneOrManyAddresses::Many(v) if *v == vec![address(5), address(6)]));
    assert_eq!(perms[0].allowlist, vec![address(7)]);
    assert_eq!(perms[0].disable_native_transfer, Some(true));
    assert_eq!(perms[0].disable_typed_data_sign, Some(false));
    assert_eq!(plan.api_keys.len(), 3);
    assert_eq!(plan.api_keys[0].1[0].relayer, address(8));
    assert_eq!(plan.api_keys[0].1[0].keys, vec!["k1".to_string(), "k2".to_string()]);
    assert!(plan.api_keys[1].1.is_empty());
    assert_eq!(plan.api_keys[2].0, 3);
}

fn keys(n: usize) -> SigningProvider {
    let raw = SigningProvider::from_raw(RawSigningProviderConfig { mnemonic: "m".to_string() });
    SigningProvider { raw: None, private_keys: Some((0..n).map(|i| PrivateKeyConfig { raw: format!("0x{}", i) }).collect()), ..raw }
}

#[test]
fn private_key_imports_are_named_and_indexed() {
    let mut n = network("base", 8453);
    n.signing_provider = Some(keys(3));
    let imports = private_key_imports(&n, None);
    assert_eq!(imports.len(), 3);
    assert_eq!(imports[0].relayer_name, "base-pk-0");
    assert_eq!(imports[0].wallet_index, -1);
    assert_eq!(imports[2].relayer_name, "base-pk-2");
    assert_eq!(imports[2].wallet_index, -3);
    assert_eq!(imports[2].index, 2);
    let global = keys(1);
    assert_eq!(private_key_imports(&network("x", 1), Some(&global)).len(), 1);
    assert!(private_key_imports(&network("x", 1), None).is_empty());
}

#[test]
fn private_key_only_networks_listed() {
    let mut own = network("own", 1);
    own.signing_provider = Some(keys(1));
    let mut mixed = network("mixed", 2);
    let mut both = keys(1);
    both.raw = Some(RawSigningProviderConfig { mnemonic: "m".to_string() });
    mixed.signing_provider = Some(both);
    let inherits = network("inherits", 3);
    let global = keys(2);
    assert_eq!(private_key_only_networks(&vec![own.clone(), mixed.clone(), inherits.clone()], Some(&global)), vec![1, 3]);
    assert_eq!(private_key_only_networks(&vec![own, mixed, inherits], None), vec![1]);
}

#[test]
fn queue_settings_come_from_the_first_network_on_the_chain() {
    let mut a = network("a", 5);
    a.max_gas_price_multiplier = 7;
    a.gas_bump_blocks_every = GasBumpBlockConfig { slow: 1, medium: 1, fast: 1, super_fast: 1 };
    let mut b = network("b", 5);
    b.max_gas_price_multiplier = 9;
    let (bump, multiplier) = rrelayer_core::startup::relayer_queue_settings(&vec![network("c", 1), a, b], 5);
    assert_eq!(multiplier, 7);
    assert_eq!(bump.slow, 1);
    let (bump, multiplier) = rrelayer_core::startup::relayer_queue_settings(&vec![network("c", 1)], 5);
    assert_eq!(multiplier, 2);
    assert_eq!(bump, GasBumpBlockConfig::default());
}

#[test]
fn api_address_and_origins() {
    let mut api = rrelayer_core::config::ApiConfig {
        host: None,
        port: 8000,
        allowed_origins: None,
        authentication_username: "u".to_string(),
        authentication_password: "p".to_string(),
    };
    assert_eq!(rrelayer_core::startup::api_listen_address(&api), "localhost:8000");
    assert!(rrelayer_core::startup::allows_any_origin(&api));
    api.host = Some("0.0.0.0".to_string());
    api.allowed_origins = Some(vec![]);
    assert_eq!(rrelayer_core::startup::api_listen_address(&api), "0.0.0.0:8000");
    assert!(rrelayer_core::startup::allows_any_origin(&api));
    api.allowed_origins = Some(vec!["https://app".to_string()]);
    assert!(!rrelayer_core::startup::allows_any_origin(&api));
}

#[test]
fn configured_origins_keep_only_valid_header_values() {
    let mut api = rrelayer_core::config::ApiConfig {
        host: None,
        port: 8000,
        allowed_origins: None,
        authentication_username: "u".to_string(),
        authentication_password: "p".to_string(),
    };
    assert!(rrelayer_core::startup::allowed_origin_values(&api).is_empty());
    api.allowed_origins = Some(vec![
        "https://a.example".to_string(),
        "bad\norigin".to_string(),
        "tab\tok".to_string(),
        "del\u{7f}".to_string(),
        "https://ü.example".to_string(),
        String::new(),
    ]);
    assert_eq!(
        rrelayer_core::startup::allowed_origin_values(&api),
        vec!["https://a.example".to_string(), "tab\tok".to_string(), "https://ü.example".to_string(), String::new()]
    );
}
