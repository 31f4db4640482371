use chaperone::config::Config;
use chaperone::config::Error;

#[test]
fn converts_valid_config_file_into_struct() {
    let profile = "the-profile".to_string();
    let content = r"
            [the-profile]
            mfa-device-arn = the-arn
            aws-cli-profile = aws-profile
        "
    .to_string();

    let config = Config::for_profile(profile, content).unwrap();

    assert_eq!("the-arn", config.mfa_device_arn);
    assert_eq!("aws-profile", config.aws_cli_profile_name);
}

#[test]
fn errors_when_no_profile_could_be_found() {
    let profile = "the-profile".to_string();
    let content = r"".to_string();

    let result = Config::for_profile(profile, content);

    assert_eq!(
        result,
        Err(Error::NoProfileFound("the-profile".to_string()))
    );
}

#[test]
fn errors_when_mfa_device_arn_is_missing_from_profile() {
    let profile = "the-profile".to_string();
    let content = r"
            [the-profile]
            aws-cli-profile = aws-profile
        "
    .to_string();

    let result = Config::for_profile(profile, content);

    assert_eq!(result, Err(Error::NoMfaDeviceArnDefined));
    assert_eq!(result.err(), Some(Error::NoMfaDeviceArnDefined));
}

#[test]
fn errors_when_aws_cli_profile_is_missing_from_profile() {
    let profile = "the-profile".to_string();
    let content = r"
            [the-profile]
            mfa-device-arn = the-arn
        "
    .to_string();

    let result = Config::for_profile(profile, content);

    assert_eq!(result, Err(Error::NoAwsProfileDefined));
}

#[test]
fn device_arn_is_reported_before_delegate_when_both_are_missing() {
    let result = Config::for_profile("p".to_string(), "[p]\n".to_string());

    assert_eq!(result, Err(Error::NoMfaDeviceArnDefined));
}

#[test]
fn accepts_deprecated_key_spellings() {
    let content = "[p]\nserial-number = sn-arn\naws-profile = delegate\n".to_string();

    let config = Config::for_profile("p".to_string(), content).unwrap();

    assert_eq!("sn-arn", config.mfa_device_arn);
    assert_eq!("delegate", config.aws_cli_profile_name);
}

#[test]
fn canonical_key_wins_over_deprecated_spelling() {
    let content = "[p]\nserial-number = old\nmfa-device-arn = new\naws-cli-profile = c\n"
        .to_string();

    let config = Config::for_profile("p".to_string(), content).unwrap();

    assert_eq!("new", config.mfa_device_arn);
}

#[test]
fn later_field_with_same_key_supersedes_earlier_one() {
    let content = "[p]\nmfa-device-arn = a\nmfa-device-arn = b\naws-cli-profile = c\n"
        .to_string();

    let config = Config::for_profile("p".to_string(), content).unwrap();

    assert_eq!("b", config.mfa_device_arn);
}

#[test]
fn top_level_entry_is_not_a_profile() {
    let result = Config::for_profile("p".to_string(), "p = v".to_string());

    assert_eq!(result, Err(Error::NoProfileFound("p".to_string())));
}

#[test]
fn unparseable_line_is_a_malformed_document() {
    let result = Config::for_profile("p".to_string(), "[p]\nthis is no pair\n".to_string());

    assert_eq!(result, Err(Error::MalformedDocument));
}

#[test]
fn field_with_empty_value_is_present_with_the_empty_string() {
    let content = "[p]\nmfa-device-arn =\naws-cli-profile = c\n".to_string();

    let config = Config::for_profile("p".to_string(), content).unwrap();

    assert_eq!("", config.mfa_device_arn);
    assert_eq!("c", config.aws_cli_profile_name);
}

#[test]
fn blank_lines_and_surrounding_whitespace_are_ignored() {
    let content = "\n\n  [p]  \n\n  mfa-device-arn =  a  \n\n  aws-cli-profile = c\n\n  "
        .to_string();

    let config = Config::for_profile("p".to_string(), content).unwrap();

    assert_eq!("a", config.mfa_device_arn);
    assert_eq!("c", config.aws_cli_profile_name);
}

#[test]
fn resolution_error_messages() {
    assert_eq!(
        "Profile \"p\" not found",
        Error::NoProfileFound("p".to_string()).message()
    );
    assert_eq!("No MFA device ARN defined.", Error::NoMfaDeviceArnDefined.message());
    assert_eq!("No AWS profile defined.", Error::NoAwsProfileDefined.message());
    assert_eq!("Malformed configuration file.", Error::MalformedDocument.message());
}
