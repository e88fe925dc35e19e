//! The setup command: validating the provider parameters before a
//! provisioning run.  Credential acquisition and client construction happen
//! outside; this layer only decides whether the parameters name a provider.

use crate::errors::{OrchestratorError, OrchestratorResult};
use vstd::prelude::*;
use vstd::string::*;

verus! {

/// Validated AWS provider parameters.
pub struct AWSConfigValidatedArgs {
    pub aws_access_key_id: String,
    pub aws_secret_access_key: String,
    pub aws_region: String,
}

/// The provider parameters after validation.
pub enum ProviderValidatedArgs {
    AWS(AWSConfigValidatedArgs),
}

/// The setup command: the provider parameters as given, if any.
pub struct SetupCmd {
    pub aws_config: Option<AWSConfigValidatedArgs>,
}

/// A field-wise copy of validated AWS parameters.
fn clone_aws_args(a: &AWSConfigValidatedArgs) -> (r: AWSConfigValidatedArgs)
    ensures
        r.aws_access_key_id@ == a.aws_access_key_id@,
        r.aws_secret_access_key@ == a.aws_secret_access_key@,
        r.aws_region@ == a.aws_region@,
{
    AWSConfigValidatedArgs {
        aws_access_key_id: a.aws_access_key_id.clone(),
        aws_secret_access_key: a.aws_secret_access_key.clone(),
        aws_region: a.aws_region.clone(),
    }
}

impl SetupCmd {
    /// Validates the provider parameters: they must name a provider.
    pub fn validate_provider_params(&self) -> (r: Result<ProviderValidatedArgs, String>)
        ensures
            self.aws_config matches Some(a) ==> (r matches Ok(p) && p matches
                ProviderValidatedArgs::AWS(v) && v.aws_region@ == a.aws_region@),
            self.aws_config is None ==> r is Err,
    {
        match &self.aws_config {
            Some(a) => Ok(ProviderValidatedArgs::AWS(clone_aws_args(a))),
            None => Err(String::from_str("Missing provider params")),
        }
    }
}

/// Initializes a provisioning run from the setup command: the provider
/// parameters are validated, and a command without them is rejected.
pub fn setup(setup_cmd: &SetupCmd) -> (r: OrchestratorResult<()>)
    ensures
        setup_cmd.aws_config is Some ==> r is Ok,
        setup_cmd.aws_config is None ==> (r matches Err(e) && e is SetupCommandError),
{
    match setup_cmd.validate_provider_params() {
        Ok(_) => Ok(()),
        Err(e) => Err(OrchestratorError::SetupCommandError(e)),
    }
}

/// Prepares the database layer.  Nothing is provisioned for it here.
pub fn setup_db() -> (r: OrchestratorResult<()>)
    ensures
        r is Ok,
{
    Ok(())
}

} // verus!
