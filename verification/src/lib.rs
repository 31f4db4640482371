//! A command-line launcher core: it resolves a named configuration profile
//! from an INI-style document, composes a child-process invocation from
//! command-line tokens, overlays temporary credentials onto the invocation's
//! environment, and classifies the outcome of running it.
use vstd::prelude::*;

pub mod config;
pub mod document;
pub mod error;
pub mod fs;
pub mod init;
pub mod invocation;
pub mod run;
pub mod table;
pub mod text;

verus! {

/// Name of the configuration directory under the user's home directory.
pub fn configuration_directory_name() -> (r: &'static str)
    ensures
        r@ == ".chaperone"@,
{
    ".chaperone"
}

/// Name of the configuration file inside the configuration directory.
pub fn configuration_file_name() -> (r: &'static str)
    ensures
        r@ == "config"@,
{
    "config"
}

/// The example content written into a freshly created configuration file.
pub fn configuration_file_content() -> (r: &'static str)
    ensures
        r@ == "[example]\nmfa-device-arn = arn:aws:iam::1234567890:mfa/user.name\naws-cli-profile = profile-name\n"@,
{
    "[example]\nmfa-device-arn = arn:aws:iam::1234567890:mfa/user.name\naws-cli-profile = profile-name\n"
}

/// The names of the three environment variables that receive the temporary
/// credentials.
pub enum EnvironmentVariables {
    AccessKey,
    SecretKey,
    SessionToken,
}

impl EnvironmentVariables {
    /// The environment-variable name this constant stands for.
    pub open spec fn spec_name(self) -> Seq<char> {
        match self {
            EnvironmentVariables::AccessKey => "AWS_ACCESS_KEY_ID"@,
            EnvironmentVariables::SecretKey => "AWS_SECRET_ACCESS_KEY"@,
            EnvironmentVariables::SessionToken => "AWS_SESSION_TOKEN"@,
        }
    }

    pub fn as_str(&self) -> (r: &'static str)
        ensures
            r@ == self.spec_name(),
    {
        match self {
            EnvironmentVariables::AccessKey => "AWS_ACCESS_KEY_ID",
            EnvironmentVariables::SecretKey => "AWS_SECRET_ACCESS_KEY",
            EnvironmentVariables::SessionToken => "AWS_SESSION_TOKEN",
        }
    }
}

/// What the caller asked the launcher to do.
pub enum ExecutionMode {
    Initialize,
    Run(Arguments),
}

/// The inputs of a run: the active profile's name and the command tokens
/// that follow the launcher's own flags.
pub struct Arguments {
    pub profile: String,
    pub command_parts: Vec<String>,
}

/// Decides the execution mode from what the front end gathered: the
/// initialization flag wins; otherwise a run needs an active profile
/// name, whose absence is the `MissingProfile` failure.
pub fn execution_mode_from(
    init_requested: bool,
    profile: Option<String>,
    command_parts: Vec<String>,
) -> (r: Result<ExecutionMode, crate::error::ChaperoneError>)
    ensures
        init_requested ==> r == Ok::<ExecutionMode, crate::error::ChaperoneError>(
            ExecutionMode::Initialize,
        ),
        !init_requested ==> match profile {
            Option::None => r == Err::<ExecutionMode, crate::error::ChaperoneError>(
                crate::error::ChaperoneError::MissingProfile,
            ),
            Option::Some(p) => r matches Ok(ExecutionMode::Run(a)) && a.profile == p
                && a.command_parts == command_parts,
        },
{
    if init_requested {
        return Ok(ExecutionMode::Initialize);
    }
    match profile {
        Option::None => Err(crate::error::ChaperoneError::MissingProfile),
        Option::Some(p) => Ok(
            ExecutionMode::Run(Arguments { profile: p, command_parts }),
        ),
    }
}

} // verus!
