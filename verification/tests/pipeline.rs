use chaperone::Arguments;
use chaperone::EnvironmentVariables;
use chaperone::ExecutionMode;
use chaperone::config::Config;
use chaperone::error::ChaperoneError;
use chaperone::error::IoFailure;
use chaperone::execution_mode_from;
use chaperone::invocation::Credentials;
use chaperone::invocation::Invocation;
use chaperone::invocation::build_settings;
use chaperone::run::ExecutionOutcome;
use chaperone::run::run_outcome;

fn env_value(invocation: &Invocation, name: &str) -> Option<String> {
    let mut found = None;
    for pair in &invocation.environment {
        if pair.key == name {
            found = Some(pair.value.clone());
        }
    }
    found
}

fn env_count(invocation: &Invocation, name: &str) -> usize {
    let mut count = 0;
    for pair in &invocation.environment {
        if pair.key == name {
            count += 1;
        }
    }
    count
}

#[test]
fn build_of_no_tokens_is_an_empty_command() {
    let tokens: Vec<String> = vec![];

    let result = Invocation::build(&tokens);

    assert!(matches!(result, Err(ChaperoneError::EmptyCommand)));
}

#[test]
fn build_splits_executable_from_arguments() {
    let tokens = vec!["ls".to_string(), "-la".to_string()];

    let invocation = Invocation::build(&tokens).unwrap();

    assert_eq!("ls", invocation.program);
    assert_eq!(vec!["-la".to_string()], invocation.arguments);
    assert!(invocation.environment.is_empty());
}

#[test]
fn build_settings_keeps_the_command_name() {
    let arguments = Arguments {
        profile: "p".to_string(),
        command_parts: vec!["echo".to_string(), "hi".to_string()],
    };
    let config = Config {
        mfa_device_arn: "arn".to_string(),
        aws_cli_profile_name: "cli".to_string(),
    };

    let settings = build_settings(&arguments, config).unwrap();

    assert_eq!("echo", settings.command_name);
    assert_eq!("echo", settings.command.program);
    assert_eq!(vec!["hi".to_string()], settings.command.arguments);
}

#[test]
fn build_settings_of_no_tokens_is_an_empty_command() {
    let arguments = Arguments {
        profile: "p".to_string(),
        command_parts: vec![],
    };
    let config = Config {
        mfa_device_arn: "arn".to_string(),
        aws_cli_profile_name: "cli".to_string(),
    };

    let result = build_settings(&arguments, config);

    assert!(matches!(result, Err(ChaperoneError::EmptyCommand)));
}

#[test]
fn inject_sets_the_three_credential_variables() {
    let mut invocation = Invocation::build(&vec!["echo".to_string()]).unwrap();

    invocation.inject(&Credentials {
        access_key_id: "AK".to_string(),
        secret_access_key: "SK".to_string(),
        session_token: "ST".to_string(),
    });

    assert_eq!(Some("AK".to_string()), env_value(&invocation, "AWS_ACCESS_KEY_ID"));
    assert_eq!(Some("SK".to_string()), env_value(&invocation, "AWS_SECRET_ACCESS_KEY"));
    assert_eq!(Some("ST".to_string()), env_value(&invocation, "AWS_SESSION_TOKEN"));
    assert_eq!(3, invocation.environment.len());
}

#[test]
fn injecting_twice_leaves_only_the_second_values() {
    let mut invocation = Invocation::build(&vec!["echo".to_string()]).unwrap();

    invocation.inject(&Credentials {
        access_key_id: "A1".to_string(),
        secret_access_key: "S1".to_string(),
        session_token: "T1".to_string(),
    });
    invocation.inject(&Credentials {
        access_key_id: "A2".to_string(),
        secret_access_key: "S2".to_string(),
        session_token: "T2".to_string(),
    });

    assert_eq!(Some("A2".to_string()), env_value(&invocation, "AWS_ACCESS_KEY_ID"));
    assert_eq!(Some("S2".to_string()), env_value(&invocation, "AWS_SECRET_ACCESS_KEY"));
    assert_eq!(Some("T2".to_string()), env_value(&invocation, "AWS_SESSION_TOKEN"));
    assert_eq!(1, env_count(&invocation, "AWS_ACCESS_KEY_ID"));
    assert_eq!(1, env_count(&invocation, "AWS_SECRET_ACCESS_KEY"));
    assert_eq!(1, env_count(&invocation, "AWS_SESSION_TOKEN"));
    assert_eq!(3, invocation.environment.len());
}

#[test]
fn failed_spawn_is_command_not_found_and_no_io_error() {
    let name = "no-such-executable".to_string();

    let result = run_outcome(&name, false, None);

    match result {
        Err(ChaperoneError::CommandNotFound(reported)) => {
            assert_eq!("no-such-executable", reported)
        }
        other => panic!("expected CommandNotFound, got {:?}", other),
    }
}

#[test]
fn exit_code_of_the_child_is_forwarded() {
    let name = "echo".to_string();

    assert_eq!(Ok(ExecutionOutcome::Exited(0)), run_outcome(&name, true, Some(0)).map_err(|_| ()));
    assert_eq!(Ok(ExecutionOutcome::Exited(3)), run_outcome(&name, true, Some(3)).map_err(|_| ()));
}

#[test]
fn termination_without_exit_code_is_not_a_success() {
    let name = "echo".to_string();

    assert_eq!(
        Ok(ExecutionOutcome::Interrupted),
        run_outcome(&name, true, None).map_err(|_| ())
    );
}

#[test]
fn environment_variable_names() {
    assert_eq!("AWS_ACCESS_KEY_ID", EnvironmentVariables::AccessKey.as_str());
    assert_eq!("AWS_SECRET_ACCESS_KEY", EnvironmentVariables::SecretKey.as_str());
    assert_eq!("AWS_SESSION_TOKEN", EnvironmentVariables::SessionToken.as_str());
}

#[test]
fn initialization_flag_selects_initialize_mode() {
    let mode = execution_mode_from(true, None, vec![]).unwrap();

    assert!(matches!(mode, ExecutionMode::Initialize));
}

#[test]
fn missing_profile_name_fails_a_run() {
    let result = execution_mode_from(false, None, vec!["ls".to_string()]);

    assert!(matches!(result, Err(ChaperoneError::MissingProfile)));
}

#[test]
fn run_mode_carries_profile_and_command() {
    let mode = execution_mode_from(
        false,
        Some("dev".to_string()),
        vec!["aws".to_string(), "s3".to_string()],
    )
    .unwrap();

    match mode {
        ExecutionMode::Run(arguments) => {
            assert_eq!("dev", arguments.profile);
            assert_eq!(vec!["aws".to_string(), "s3".to_string()], arguments.command_parts);
        }
        ExecutionMode::Initialize => panic!("expected a run"),
    }
}

#[test]
fn launcher_error_messages() {
    assert_eq!("No CHAPERONE_PROFILE defined.", ChaperoneError::MissingProfile.message());
    assert_eq!("No command given.", ChaperoneError::EmptyCommand.message());
    assert_eq!(
        "Command not found: frob",
        ChaperoneError::CommandNotFound("frob".to_string()).message()
    );
    assert_eq!(
        "Error with configuration: No AWS profile defined.",
        ChaperoneError::ConfigurationError(chaperone::config::Error::NoAwsProfileDefined)
            .message()
    );
    assert_eq!(
        "I/O Error: disk gone",
        ChaperoneError::IoError(IoFailure { message: "disk gone".to_string() }).message()
    );
}

#[test]
fn pipeline_resolves_builds_and_injects_for_a_run() {
    let content = "[dev]\nmfa-device-arn = arn:x\naws-cli-profile = dev-cli\n".to_string();

    let config = Config::for_profile("dev".to_string(), content).unwrap();
    assert_eq!("arn:x", config.mfa_device_arn);
    assert_eq!("dev-cli", config.aws_cli_profile_name);

    let arguments = Arguments {
        profile: "dev".to_string(),
        command_parts: vec!["echo".to_string(), "hi".to_string()],
    };
    let settings = build_settings(&arguments, config).unwrap();
    assert_eq!("echo", settings.command_name);

    let mut invocation = *settings.command;
    invocation.inject(&Credentials {
        access_key_id: "AK".to_string(),
        secret_access_key: "SK".to_string(),
        session_token: "ST".to_string(),
    });
    assert_eq!(3, invocation.environment.len());
    assert_eq!(vec!["hi".to_string()], invocation.arguments);

    let outcome = run_outcome(&"echo".to_string(), true, Some(0));
    assert_eq!(Ok(ExecutionOutcome::Exited(0)), outcome.map_err(|_| ()));
}
