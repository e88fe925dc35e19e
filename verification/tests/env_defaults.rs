use orchestrator::env_cfg::{Env, EnvVars};

fn set(v: &str) -> Option<String> {
    Some(v.to_string())
}

/// Raw variables with every required one set and every optional one unset.
fn base_vars() -> EnvVars {
    EnvVars {
        aws_access_key_id: None,
        aws_secret_access_key: None,
        aws_region: None,
        aws_endpoint_url: None,
        aws_default_region: None,
        prefix: None,
        s3_bucket_name: None,
        sqs_base_url: None,
        sqs_suffix: None,
        event_bridge_type: None,
        event_bridge_trigger_rule_name: set("test-rule"),
        event_bridge_trigger_role_name: set("test-role"),
        event_bridge_trigger_policy_name: set("test-policy"),
        event_bridge_target_queue_name: set("test-queue"),
        aws_sns_arn: set("test-arn"),
        ethereum_da_rpc_url: set("http://localhost:8545"),
        mongodb_connection_url: set("mongodb://localhost:27017"),
        database_name: set("orchestrator-db"),
        sharp_customer_id: set("customer"),
        sharp_url: set("http://sharp.example"),
        sharp_user_crt: set("crt"),
        sharp_user_key: set("key"),
        sharp_server_crt: set("server-crt"),
        sharp_rpc_node_url: set("http://sharp-rpc.example"),
        sharp_proof_layout: set("small"),
        gps_verifier_contract_address: set("0x1"),
        atlantic_api_key: set("SECRET-REDACTED"),
        atlantic_service_url: set("http://atlantic.example"),
        atlantic_mock_fact_hash: set("fact"),
        atlantic_prover_type: set("herodotus"),
        atlantic_settlement_layer: set("ethereum"),
        atlantic_verifier_contract_address: set("0x2"),
        atlantic_rpc_node_url: set("http://atlantic-rpc.example"),
        ethereum_settlement_rpc_url: set("http://eth.example"),
        ethereum_private_key: set("SECRET-REDACTED"),
        l1_core_contract_address: set("0x3"),
        starknet_operator_address: set("0x4"),
        starknet_settlement_rpc_url: set("http://starknet.example"),
        starknet_private_key: set("SECRET-REDACTED"),
        starknet_account_address: set("0x5"),
        starknet_cairo_core_contract_address: None,
        starknet_finality_retry_wait_in_secs: None,
        host: None,
        port: None,
        max_block_no_to_process: None,
        min_block_no_to_process: None,
        madara_rpc_url: set("http://madara.example"),
        rpc_for_snos: set("http://snos.example"),
        otel_service_name: set("orchestrator"),
    }
}

#[test]
fn test_default_values() {
    let env = Env::from_vars(base_vars()).unwrap();

    assert_eq!(env.aws_region, "us-west-1");
    assert_eq!(env.prefix, "orchestrator");
    assert_eq!(env.s3_bucket_name, "bucket");
    assert_eq!(env.sqs_base_url, "https://sqs.us-west-1.amazonaws.com/");
    assert_eq!(env.sqs_suffix, "queue");
    assert_eq!(env.host, "127.0.0.1");
    assert_eq!(env.port, 3000);
    assert_eq!(env.starknet_finality_retry_wait_in_secs, 10);
}

#[test]
fn missing_required_var_is_a_config_error() {
    let mut vars = base_vars();
    vars.aws_sns_arn = None;
    let r = Env::from_vars(vars);
    assert!(matches!(
        r,
        Err(orchestrator::errors::OrchestratorError::ConfigError(_))
    ));
}

#[test]
fn set_values_override_defaults_and_parse() {
    let mut vars = base_vars();
    vars.aws_region = set("eu-central-1");
    vars.port = set("8080");
    vars.starknet_finality_retry_wait_in_secs = set("30");
    vars.max_block_no_to_process = set("1000");
    vars.min_block_no_to_process = set("not-a-number");
    let env = Env::from_vars(vars).unwrap();
    assert_eq!(env.aws_region, "eu-central-1");
    assert_eq!(env.port, 8080);
    assert_eq!(env.starknet_finality_retry_wait_in_secs, 30);
    assert_eq!(env.max_block_no_to_process, Some(1000));
    assert_eq!(env.min_block_no_to_process, None);
}

#[test]
fn unparsable_port_falls_back() {
    let mut vars = base_vars();
    vars.port = set("70000");
    let env = Env::from_vars(vars).unwrap();
    assert_eq!(env.port, 3000);
}
