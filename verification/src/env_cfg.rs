//! Configuration loading: every setting the orchestrator reads, derived from
//! the raw environment variables handed in.  Optional settings default,
//! required ones fail with a configuration error naming them, and numeric
//! ones are parsed with a fallback.

use crate::errors::{OrchestratorError, OrchestratorResult};
use crate::text::{parse_u16, parse_u64, parse_uint_model};
use vstd::prelude::*;
use vstd::string::*;

verus! {

/// The orchestrator's configuration.
#[derive(Debug)]
pub struct Env {
    // AWS configuration.
    pub aws_access_key_id: Option<String>,
    pub aws_secret_access_key: Option<String>,
    pub aws_region: String,
    pub aws_endpoint_url: Option<String>,
    pub aws_default_region: Option<String>,
    // Resource prefixes and names.
    pub prefix: String,
    pub s3_bucket_name: String,
    pub sqs_base_url: String,
    pub sqs_suffix: String,
    // Trigger configuration.
    pub event_bridge_type: String,
    pub event_bridge_trigger_rule_name: String,
    pub event_bridge_trigger_role_name: String,
    pub event_bridge_trigger_policy_name: String,
    pub event_bridge_target_queue_name: String,
    // Alerts configuration.
    pub aws_sns_arn: String,
    // Data availability configuration.
    pub ethereum_da_rpc_url: String,
    // Database configuration.
    pub mongodb_connection_url: String,
    pub database_name: String,
    // Prover configuration.
    pub sharp_customer_id: String,
    pub sharp_url: String,
    pub sharp_user_crt: String,
    pub sharp_user_key: String,
    pub sharp_server_crt: String,
    pub sharp_rpc_node_url: String,
    pub sharp_proof_layout: String,
    pub gps_verifier_contract_address: String,
    pub atlantic_api_key: String,
    pub atlantic_service_url: String,
    pub atlantic_mock_fact_hash: String,
    pub atlantic_prover_type: String,
    pub atlantic_settlement_layer: String,
    pub atlantic_verifier_contract_address: String,
    pub atlantic_rpc_node_url: String,
    // Settlement configuration.
    pub ethereum_settlement_rpc_url: String,
    pub ethereum_private_key: String,
    pub l1_core_contract_address: String,
    pub starknet_operator_address: String,
    pub starknet_settlement_rpc_url: String,
    pub starknet_private_key: String,
    pub starknet_account_address: String,
    pub starknet_cairo_core_contract_address: Option<String>,
    pub starknet_finality_retry_wait_in_secs: u64,
    // Server configuration.
    pub host: String,
    pub port: u16,
    // Service configuration.
    pub max_block_no_to_process: Option<u64>,
    pub min_block_no_to_process: Option<u64>,
    pub madara_rpc_url: String,
    // SNOS configuration.
    pub rpc_for_snos: String,
    // Instrumentation.
    pub otel_service_name: String,
}

/// The raw environment variables the configuration is derived from: each
/// field holds the variable's value, or nothing when it is unset.
pub struct EnvVars {
    pub aws_access_key_id: Option<String>,
    pub aws_secret_access_key: Option<String>,
    pub aws_region: Option<String>,
    pub aws_endpoint_url: Option<String>,
    pub aws_default_region: Option<String>,
    pub prefix: Option<String>,
    pub s3_bucket_name: Option<String>,
    pub sqs_base_url: Option<String>,
    pub sqs_suffix: Option<String>,
    pub event_bridge_type: Option<String>,
    pub event_bridge_trigger_rule_name: Option<String>,
    pub event_bridge_trigger_role_name: Option<String>,
    pub event_bridge_trigger_policy_name: Option<String>,
    pub event_bridge_target_queue_name: Option<String>,
    pub aws_sns_arn: Option<String>,
    pub ethereum_da_rpc_url: Option<String>,
    pub mongodb_connection_url: Option<String>,
    pub database_name: Option<String>,
    pub sharp_customer_id: Option<String>,
    pub sharp_url: Option<String>,
    pub sharp_user_crt: Option<String>,
    pub sharp_user_key: Option<String>,
    pub sharp_server_crt: Option<String>,
    pub sharp_rpc_node_url: Option<String>,
    pub sharp_proof_layout: Option<String>,
    pub gps_verifier_contract_address: Option<String>,
    pub atlantic_api_key: Option<String>,
    pub atlantic_service_url: Option<String>,
    pub atlantic_mock_fact_hash: Option<String>,
    pub atlantic_prover_type: Option<String>,
    pub atlantic_settlement_layer: Option<String>,
    pub atlantic_verifier_contract_address: Option<String>,
    pub atlantic_rpc_node_url: Option<String>,
    pub ethereum_settlement_rpc_url: Option<String>,
    pub ethereum_private_key: Option<String>,
    pub l1_core_contract_address: Option<String>,
    pub starknet_operator_address: Option<String>,
    pub starknet_settlement_rpc_url: Option<String>,
    pub starknet_private_key: Option<String>,
    pub starknet_account_address: Option<String>,
    pub starknet_cairo_core_contract_address: Option<String>,
    pub starknet_finality_retry_wait_in_secs: Option<String>,
    pub host: Option<String>,
    pub port: Option<String>,
    pub max_block_no_to_process: Option<String>,
    pub min_block_no_to_process: Option<String>,
    pub madara_rpc_url: Option<String>,
    pub rpc_for_snos: Option<String>,
    pub otel_service_name: Option<String>,
}

/// Whether every required variable is set.  The optional ones default or
/// pass through; these have no default and their absence is a configuration
/// error.
pub open spec fn required_present(vars: EnvVars) -> bool {
    &&& vars.event_bridge_trigger_rule_name is Some
    &&& vars.event_bridge_trigger_role_name is Some
    &&& vars.event_bridge_trigger_policy_name is Some
    &&& vars.event_bridge_target_queue_name is Some
    &&& vars.aws_sns_arn is Some
    &&& vars.ethereum_da_rpc_url is Some
    &&& vars.mongodb_connection_url is Some
    &&& vars.database_name is Some
    &&& vars.sharp_customer_id is Some
    &&& vars.sharp_url is Some
    &&& vars.sharp_user_crt is Some
    &&& vars.sharp_user_key is Some
    &&& vars.sharp_server_crt is Some
    &&& vars.sharp_rpc_node_url is Some
    &&& vars.sharp_proof_layout is Some
    &&& vars.gps_verifier_contract_address is Some
    &&& vars.atlantic_api_key is Some
    &&& vars.atlantic_service_url is Some
    &&& vars.atlantic_mock_fact_hash is Some
    &&& vars.atlantic_prover_type is Some
    &&& vars.atlantic_settlement_layer is Some
    &&& vars.atlantic_verifier_contract_address is Some
    &&& vars.atlantic_rpc_node_url is Some
    &&& vars.ethereum_settlement_rpc_url is Some
    &&& vars.ethereum_private_key is Some
    &&& vars.l1_core_contract_address is Some
    &&& vars.starknet_operator_address is Some
    &&& vars.starknet_settlement_rpc_url is Some
    &&& vars.starknet_private_key is Some
    &&& vars.starknet_account_address is Some
    &&& vars.madara_rpc_url is Some
    &&& vars.rpc_for_snos is Some
    &&& vars.otel_service_name is Some
}

/// What a defaulted setting is: the variable's value, or the default.
pub open spec fn defaulted(v: Option<String>, d: Seq<char>) -> Seq<char> {
    match v {
        Some(s) => s@,
        None => d,
    }
}

/// What a parsed numeric setting with a fallback is: the variable's value
/// when it parses within the bound, the fallback otherwise.
pub open spec fn parsed_or(v: Option<String>, max: int, fallback: int) -> int {
    match v {
        Some(s) => match parse_uint_model(s@, max) {
            Some(n) => n,
            None => fallback,
        },
        None => fallback,
    }
}

/// What an optional parsed setting is: the value when set and parsable,
/// nothing otherwise.
pub open spec fn parsed_opt(v: Option<String>, max: int) -> Option<int> {
    match v {
        Some(s) => parse_uint_model(s@, max),
        None => None,
    }
}

/// The variable's value with a default.
fn or_default(v: Option<String>, d: &str) -> (r: String)
    ensures
        r@ == defaulted(v, d@),
{
    match v {
        Some(s) => s,
        None => d.to_owned(),
    }
}

/// The variable's value, or a configuration error carrying the message.
fn required(v: Option<String>, msg: &str) -> (r: OrchestratorResult<String>)
    ensures
        v matches Some(s) ==> (r matches Ok(o) && o@ == s@),
        v is None ==> (r matches Err(OrchestratorError::ConfigError(m)) && m@ == msg@),
{
    match v {
        Some(s) => Ok(s),
        None => Err(OrchestratorError::ConfigError(msg.to_owned())),
    }
}

/// The variable parsed as a 64-bit number, with a fallback.
fn parse_u64_or(v: &Option<String>, fallback: u64) -> (r: u64)
    ensures
        r as int == parsed_or(*v, u64::MAX as int, fallback as int),
{
    match v {
        Some(s) => match parse_u64(s.as_str()) {
            Some(n) => n,
            None => fallback,
        },
        None => fallback,
    }
}

impl Env {
    /// Derives the configuration from the raw variables: optional settings
    /// default or pass through, numeric ones parse with their fallback, and
    /// the first missing required variable is a configuration error.  It
    /// succeeds exactly when every required variable is set.
    pub fn from_vars(vars: EnvVars) -> (r: OrchestratorResult<Env>)
        ensures
            r is Ok <==> required_present(vars),
            r matches Err(e) ==> e is ConfigError,
            r matches Ok(e) ==> {
                &&& e.aws_access_key_id == vars.aws_access_key_id
                &&& e.aws_secret_access_key == vars.aws_secret_access_key
                &&& e.aws_region@ == defaulted(vars.aws_region, "us-west-1"@)
                &&& e.aws_endpoint_url == vars.aws_endpoint_url
                &&& e.aws_default_region == vars.aws_default_region
                &&& e.prefix@ == defaulted(vars.prefix, "orchestrator"@)
                &&& e.s3_bucket_name@ == defaulted(vars.s3_bucket_name, "bucket"@)
                &&& e.sqs_base_url@ == defaulted(
                    vars.sqs_base_url,
                    "https://sqs.us-west-1.amazonaws.com/"@,
                )
                &&& e.sqs_suffix@ == defaulted(vars.sqs_suffix, "queue"@)
                &&& e.event_bridge_type@ == defaulted(vars.event_bridge_type, "rule"@)
                &&& (vars.event_bridge_trigger_rule_name matches Some(s)
                    && e.event_bridge_trigger_rule_name@ == s@)
                &&& (vars.event_bridge_trigger_role_name matches Some(s)
                    && e.event_bridge_trigger_role_name@ == s@)
                &&& (vars.event_bridge_trigger_policy_name matches Some(s)
                    && e.event_bridge_trigger_policy_name@ == s@)
                &&& (vars.event_bridge_target_queue_name matches Some(s)
                    && e.event_bridge_target_queue_name@ == s@)
                &&& (vars.aws_sns_arn matches Some(s) && e.aws_sns_arn@ == s@)
                &&& (vars.ethereum_da_rpc_url matches Some(s) && e.ethereum_da_rpc_url@ == s@)
                &&& (vars.mongodb_connection_url matches Some(s) && e.mongodb_connection_url@
                    == s@)
                &&& (vars.database_name matches Some(s) && e.database_name@ == s@)
                &&& (vars.sharp_customer_id matches Some(s) && e.sharp_customer_id@ == s@)
                &&& (vars.sharp_url matches Some(s) && e.sharp_url@ == s@)
                &&& (vars.sharp_user_crt matches Some(s) && e.sharp_user_crt@ == s@)
                &&& (vars.sharp_user_key matches Some(s) && e.sharp_user_key@ == s@)
                &&& (vars.sharp_server_crt matches Some(s) && e.sharp_server_crt@ == s@)
                &&& (vars.sharp_rpc_node_url matches Some(s) && e.sharp_rpc_node_url@ == s@)
                &&& (vars.sharp_proof_layout matches Some(s) && e.sharp_proof_layout@ == s@)
                &&& (vars.gps_verifier_contract_address matches Some(s)
                    && e.gps_verifier_contract_address@ == s@)
                &&& (vars.atlantic_api_key matches Some(s) && e.atlantic_api_key@ == s@)
                &&& (vars.atlantic_service_url matches Some(s) && e.atlantic_service_url@ == s@)
                &&& (vars.atlantic_mock_fact_hash matches Some(s) && e.atlantic_mock_fact_hash@
                    == s@)
                &&& (vars.atlantic_prover_type matches Some(s) && e.atlantic_prover_type@ == s@)
                &&& (vars.atlantic_settlement_layer matches Some(s)
                    && e.atlantic_settlement_layer@ == s@)
                &&& (vars.atlantic_verifier_contract_address matches Some(s)
                    && e.atlantic_verifier_contract_address@ == s@)
                &&& (vars.atlantic_rpc_node_url matches Some(s) && e.atlantic_rpc_node_url@ == s@)
                &&& (vars.ethereum_settlement_rpc_url matches Some(s)
                    && e.ethereum_settlement_rpc_url@ == s@)
                &&& (vars.ethereum_private_key matches Some(s) && e.ethereum_private_key@ == s@)
                &&& (vars.l1_core_contract_address matches Some(s) && e.l1_core_contract_address@
                    == s@)
                &&& (vars.starknet_operator_address matches Some(s)
                    && e.starknet_operator_address@ == s@)
                &&& (vars.starknet_settlement_rpc_url matches Some(s)
                    && e.starknet_settlement_rpc_url@ == s@)
                &&& (vars.starknet_private_key matches Some(s) && e.starknet_private_key@ == s@)
                &&& (vars.starknet_account_address matches Some(s)
                    && e.starknet_account_address@ == s@)
                &&& e.starknet_cairo_core_contract_address
                    == vars.starknet_cairo_core_contract_address
                &&& e.starknet_finality_retry_wait_in_secs as int == parsed_or(
                    vars.starknet_finality_retry_wait_in_secs,
                    u64::MAX as int,
                    10,
                )
                &&& e.host@ == defaulted(vars.host, "127.0.0.1"@)
                &&& e.port as int == parsed_or(vars.port, u16::MAX as int, 3000)
                &&& (match e.max_block_no_to_process {
                    Some(n) => parsed_opt(vars.max_block_no_to_process, u64::MAX as int) == Some(
                        n as int,
                    ),
                    None => parsed_opt(vars.max_block_no_to_process, u64::MAX as int) is None,
                })
                &&& (match e.min_block_no_to_process {
                    Some(n) => parsed_opt(vars.min_block_no_to_process, u64::MAX as int) == Some(
                        n as int,
                    ),
                    None => parsed_opt(vars.min_block_no_to_process, u64::MAX as int) is None,
                })
                &&& (vars.madara_rpc_url matches Some(s) && e.madara_rpc_url@ == s@)
                &&& (vars.rpc_for_snos matches Some(s) && e.rpc_for_snos@ == s@)
                &&& (vars.otel_service_name matches Some(s) && e.otel_service_name@ == s@)
            },
    {
        let max_block_no_to_process: Option<u64> = match &vars.max_block_no_to_process {
            Some(s) => parse_u64(s.as_str()),
            None => None,
        };
        let min_block_no_to_process: Option<u64> = match &vars.min_block_no_to_process {
            Some(s) => parse_u64(s.as_str()),
            None => None,
        };
        let port: u16 = match &vars.port {
            Some(s) => match parse_u16(s.as_str()) {
                Some(n) => n,
                None => 3000,
            },
            None => 3000,
        };
        let starknet_finality_retry_wait_in_secs = parse_u64_or(
            &vars.starknet_finality_retry_wait_in_secs,
            10,
        );
        Ok(
            Env {
                aws_access_key_id: vars.aws_access_key_id,
                aws_secret_access_key: vars.aws_secret_access_key,
                aws_region: or_default(vars.aws_region, "us-west-1"),
                aws_endpoint_url: vars.aws_endpoint_url,
                aws_default_region: vars.aws_default_region,
                prefix: or_default(vars.prefix, "orchestrator"),
                s3_bucket_name: or_default(vars.s3_bucket_name, "bucket"),
                sqs_base_url: or_default(vars.sqs_base_url, "https://sqs.us-west-1.amazonaws.com/"),
                sqs_suffix: or_default(vars.sqs_suffix, "queue"),
                event_bridge_type: or_default(vars.event_bridge_type, "rule"),
                event_bridge_trigger_rule_name: required(
                    vars.event_bridge_trigger_rule_name,
                    "EVENT_BRIDGE_TRIGGER_RULE_NAME not set",
                )?,
                event_bridge_trigger_role_name: required(
                    vars.event_bridge_trigger_role_name,
                    "EVENT_BRIDGE_TRIGGER_ROLE_NAME not set",
                )?,
                event_bridge_trigger_policy_name: required(
                    vars.event_bridge_trigger_policy_name,
                    "EVENT_BRIDGE_TRIGGER_POLICY_NAME not set",
                )?,
                event_bridge_target_queue_name: required(
                    vars.event_bridge_target_queue_name,
                    "EVENT_BRIDGE_TARGET_QUEUE_NAME not set",
                )?,
                aws_sns_arn: required(vars.aws_sns_arn, "AWS_SNS_ARN not set")?,
                ethereum_da_rpc_url: required(
                    vars.ethereum_da_rpc_url,
                    "ETHEREUM_DA_RPC_URL not set",
                )?,
                mongodb_connection_url: required(
                    vars.mongodb_connection_url,
                    "MONGODB_CONNECTION_URL not set",
                )?,
                database_name: required(vars.database_name, "DATABASE_NAME not set")?,
                sharp_customer_id: required(vars.sharp_customer_id, "SHARP_CUSTOMER_ID not set")?,
                sharp_url: required(vars.sharp_url, "SHARP_URL not set")?,
                sharp_user_crt: required(vars.sharp_user_crt, "SHARP_USER_CRT not set")?,
                sharp_user_key: required(vars.sharp_user_key, "SHARP_USER_KEY not set")?,
                sharp_server_crt: required(vars.sharp_server_crt, "SHARP_SERVER_CRT not set")?,
                sharp_rpc_node_url: required(
                    vars.sharp_rpc_node_url,
                    "SHARP_RPC_NODE_URL not set",
                )?,
                sharp_proof_layout: required(
                    vars.sharp_proof_layout,
                    "SHARP_PROOF_LAYOUT not set",
                )?,
                gps_verifier_contract_address: required(
                    vars.gps_verifier_contract_address,
                    "GPS_VERIFIER_CONTRACT_ADDRESS not set",
                )?,
                atlantic_api_key: required(vars.atlantic_api_key, "ATLANTIC_API_KEY not set")?,
                atlantic_service_url: required(
                    vars.atlantic_service_url,
                    "ATLANTIC_SERVICE_URL not set",
                )?,
                atlantic_mock_fact_hash: required(
                    vars.atlantic_mock_fact_hash,
                    "ATLANTIC_MOCK_FACT_HASH not set",
                )?,
                atlantic_prover_type: required(
                    vars.atlantic_prover_type,
                    "ATLANTIC_PROVER_TYPE not set",
                )?,
                atlantic_settlement_layer: required(
                    vars.atlantic_settlement_layer,
                    "ATLANTIC_SETTLEMENT_LAYER not set",
                )?,
                atlantic_verifier_contract_address: required(
                    vars.atlantic_verifier_contract_address,
                    "ATLANTIC_VERIFIER_CONTRACT_ADDRESS not set",
                )?,
                atlantic_rpc_node_url: required(
                    vars.atlantic_rpc_node_url,
                    "ATLANTIC_RPC_NODE_URL not set",
                )?,
                ethereum_settlement_rpc_url: required(
                    vars.ethereum_settlement_rpc_url,
                    "ETHEREUM_SETTLEMENT_RPC_URL not set",
                )?,
                ethereum_private_key: required(
                    vars.ethereum_private_key,
                    "ETHEREUM_PRIVATE_KEY not set",
                )?,
                l1_core_contract_address: required(
                    vars.l1_core_contract_address,
                    "L1_CORE_CONTRACT_ADDRESS not set",
                )?,
                starknet_operator_address: required(
                    vars.starknet_operator_address,
                    "STARKNET_OPERATOR_ADDRESS not set",
                )?,
                starknet_settlement_rpc_url: required(
                    vars.starknet_settlement_rpc_url,
                    "STARKNET_SETTLEMENT_RPC_URL not set",
                )?,
                starknet_private_key: required(
                    vars.starknet_private_key,
                    "STARKNET_PRIVATE_KEY not set",
                )?,
                starknet_account_address: required(
                    vars.starknet_account_address,
                    "STARKNET_ACCOUNT_ADDRESS not set",
                )?,
                starknet_cairo_core_contract_address: vars.starknet_cairo_core_contract_address,
                starknet_finality_retry_wait_in_secs,
                host: or_default(vars.host, "127.0.0.1"),
                port,
                max_block_no_to_process,
                min_block_no_to_process,
                madara_rpc_url: required(vars.madara_rpc_url, "MADARA_RPC_URL not set")?,
                rpc_for_snos: required(vars.rpc_for_snos, "RPC_FOR_SNOS not set")?,
                otel_service_name: required(vars.otel_service_name, "OTEL_SERVICE_NAME not set")?,
            },
        )
    }
}

} // verus!
