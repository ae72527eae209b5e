use logga::configuration::{Configuration, LabelKey, ProfileError, DEFAULT_REGION, S3};
use logga::flags::{
    Flags, DEFAULT_ACCESS_LOG_PATH, DEFAULT_BUNDLE_ID, DEFAULT_CONFIG_PATH, DEFAULT_PROFILE_PATH,
    DEFAULT_WATCH_DIR,
};

fn s3(bucket: &str, endpoint: &str, region: &str) -> S3 {
    S3 {
        bucket: bucket.to_string(),
        endpoint: endpoint.to_string(),
        region: region.to_string(),
        keychain_authentication: false,
    }
}

fn text(value: &str) -> Result<Option<String>, ProfileError<'static>> {
    Ok(Some(value.to_string()))
}

#[test]
fn validate_accepts_complete_settings() {
    assert!(s3("b", "e", "r").validate().is_ok());
}

#[test]
fn validate_names_the_first_empty_setting() {
    assert!(matches!(s3("", "", "").validate(), Err(ProfileError::ValidateEmpty("bucket"))));
    assert!(matches!(s3("", "e", "r").validate(), Err(ProfileError::ValidateEmpty("bucket"))));
    assert!(matches!(s3("b", "", "").validate(), Err(ProfileError::ValidateEmpty("endpoint"))));
    assert!(matches!(s3("b", "e", "").validate(), Err(ProfileError::ValidateEmpty("region"))));
}

#[test]
fn profile_errors_read_as_messages() {
    assert_eq!(ProfileError::CreateKey("S3Bucket").message(), "failed to construct key: S3Bucket");
    assert_eq!(ProfileError::ValidateEmpty("bucket").message(), "bucket was empty");
}

#[test]
fn label_keys_have_names() {
    assert_eq!(LabelKey::S3Bucket.name(), "S3Bucket");
    assert_eq!(LabelKey::S3Endpoint.name(), "S3Endpoint");
    assert_eq!(LabelKey::S3Region.name(), "S3Region");
    assert_eq!(LabelKey::S3KeychainAuthentication.name(), "S3KeychainAuthentication");
}

#[test]
fn defaults_are_empty() {
    let config = Configuration::default();
    assert_eq!(config.s3.bucket, "");
    assert_eq!(config.s3.endpoint, "");
    assert_eq!(config.s3.region, "");
    assert!(!config.s3.keychain_authentication);
    assert!(!S3::default().keychain_authentication);
}

#[test]
fn a_complete_profile_gives_a_configuration() {
    let config = Configuration::parse_configuration_profile(
        text("eu-west-1"),
        text("backups"),
        text("https://store"),
        Ok(Some(true)),
    )
    .unwrap();
    assert_eq!(config.s3.region, "eu-west-1");
    assert_eq!(config.s3.bucket, "backups");
    assert_eq!(config.s3.endpoint, "https://store");
    assert!(config.s3.keychain_authentication);
}

#[test]
fn a_profile_without_region_takes_the_default() {
    let config =
        Configuration::parse_configuration_profile(Ok(None), text("b"), text("e"), Ok(None)).unwrap();
    assert_eq!(config.s3.region, "us-east-1");
    assert_eq!(DEFAULT_REGION, "us-east-1");
    assert!(!config.s3.keychain_authentication);
    let config =
        Configuration::parse_configuration_profile(Ok(None), text("b"), text("e"), Ok(Some(false)));
    assert!(!config.unwrap().s3.keychain_authentication);
}

#[test]
fn an_incomplete_profile_gives_none() {
    let parse = Configuration::parse_configuration_profile;
    assert!(parse(text("r"), Ok(None), text("e"), Ok(None)).is_none());
    assert!(parse(text("r"), text("b"), Ok(None), Ok(None)).is_none());
    assert!(parse(text("r"), text(""), text("e"), Ok(None)).is_none());
    assert!(parse(text(""), text("b"), text("e"), Ok(None)).is_none());
}

#[test]
fn a_profile_that_could_not_be_read_gives_none() {
    let parse = Configuration::parse_configuration_profile;
    let broken = || Err(ProfileError::CreateKey("S3Region"));
    assert!(parse(broken(), text("b"), text("e"), Ok(None)).is_none());
    assert!(parse(text("r"), broken(), text("e"), Ok(None)).is_none());
    assert!(parse(text("r"), text("b"), broken(), Ok(None)).is_none());
    assert!(parse(text("r"), text("b"), text("e"), Err(ProfileError::CreateKey("k"))).is_none());
}

#[test]
fn the_profile_wins_over_the_file() {
    let profile = Configuration { s3: s3("profile", "e", "r") };
    let file = Configuration { s3: s3("file", "e", "r") };
    let built = Configuration::build(Some(profile.clone()), Some(file.clone())).unwrap();
    assert_eq!(built.s3.bucket, "profile");
    let built = Configuration::build(None, Some(file)).unwrap();
    assert_eq!(built.s3.bucket, "file");
    let built = Configuration::build(Some(profile), None).unwrap();
    assert_eq!(built.s3.bucket, "profile");
    assert!(Configuration::build(None, None).is_none());
}

#[test]
fn flags_take_their_defaults() {
    let flags = Flags::build(None, None, None, None, None);
    assert_eq!(flags.config_path, "/Library/Application Support/Logga/config.yaml");
    assert_eq!(flags.profile_path, "/Library/Managed Preferences/com.logga.client.plist");
    assert_eq!(flags.bundle_id, "com.logga.client");
    assert_eq!(flags.watch_dir, "/Library/Application Support/Logga");
    assert_eq!(flags.access_log_path, "/Library/Application Support/Logga/access.log");
    assert_eq!(flags.config_path, DEFAULT_CONFIG_PATH);
    assert_eq!(flags.profile_path, DEFAULT_PROFILE_PATH);
    assert_eq!(flags.bundle_id, DEFAULT_BUNDLE_ID);
    assert_eq!(flags.watch_dir, DEFAULT_WATCH_DIR);
    assert_eq!(flags.access_log_path, DEFAULT_ACCESS_LOG_PATH);
}

#[test]
fn flags_keep_what_was_given() {
    let flags = Flags::build(
        Some("c".to_string()),
        None,
        Some("b".to_string()),
        Some("/watch".to_string()),
        Some("/var/log/access.log".to_string()),
    );
    assert_eq!(flags.config_path, "c");
    assert_eq!(flags.profile_path, DEFAULT_PROFILE_PATH);
    assert_eq!(flags.bundle_id, "b");
    assert_eq!(flags.watch_dir, "/watch");
    assert_eq!(flags.access_log_path, "/var/log/access.log");
}
