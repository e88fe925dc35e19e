use orchestrator::cloud_setup::{
    setup, setup_db, AWSConfigValidatedArgs, ProviderValidatedArgs, SetupCmd,
};

fn aws_args() -> AWSConfigValidatedArgs {
    AWSConfigValidatedArgs {
        aws_access_key_id: "SECRET-REDACTED".to_string(),
        aws_secret_access_key: "SECRET-REDACTED".to_string(),
        aws_region: "us-west-1".to_string(),
    }
}

#[test]
fn a_command_with_provider_params_validates() {
    let cmd = SetupCmd { aws_config: Some(aws_args()) };
    let ProviderValidatedArgs::AWS(v) = cmd.validate_provider_params().unwrap();
    assert_eq!(v.aws_region, "us-west-1");
    assert!(setup(&cmd).is_ok());
}

#[test]
fn a_command_without_provider_params_is_rejected() {
    let cmd = SetupCmd { aws_config: None };
    assert!(cmd.validate_provider_params().is_err());
    assert!(setup(&cmd).is_err());
}

#[test]
fn database_setup_is_a_no_op() {
    assert!(setup_db().is_ok());
}
