//! The paths and names that the agent is started with.

use vstd::prelude::*;
use vstd::string::*;

verus! {

pub const DEFAULT_CONFIG_PATH: &'static str = "/Library/Application Support/Logga/config.yaml";

pub const DEFAULT_ACCESS_LOG_PATH: &'static str = "/Library/Application Support/Logga/access.log";

pub const DEFAULT_PROFILE_PATH: &'static str = "/Library/Managed Preferences/com.logga.client.plist";

pub const DEFAULT_BUNDLE_ID: &'static str = "com.logga.client";

pub const DEFAULT_WATCH_DIR: &'static str = "/Library/Application Support/Logga";

/// What the agent is started with.
#[derive(Clone, Debug)]
pub struct Flags {
    /// Path of the configuration file.
    pub config_path: String,
    /// Path of the managed configuration profile.
    pub profile_path: String,
    /// Bundle identifier under which the profile's preferences are kept.
    pub bundle_id: String,
    /// Directory that is watched for archives.
    pub watch_dir: String,
    /// Path of the log file that is tailed.
    pub access_log_path: String,
}

/// The value that was given, or the default where none was.
pub open spec fn given_or(given: Option<String>, default: &str) -> Seq<char> {
    match given {
        Some(value) => value@,
        None => default@,
    }
}

/// The value that was given, or the default where none was.
pub fn value_or(given: Option<String>, default: &str) -> (value: String)
    ensures
        value@ == given_or(given, default),
{
    match given {
        Some(value) => value,
        None => default.to_owned(),
    }
}

impl Flags {
    /// The flags for what was given on the command line: each one as given,
    /// or its default.
    pub fn build(
        config_path: Option<String>,
        profile_path: Option<String>,
        bundle_id: Option<String>,
        watch_dir: Option<String>,
        access_log_path: Option<String>,
    ) -> (flags: Flags)
        ensures
            flags.config_path@ == given_or(config_path, DEFAULT_CONFIG_PATH),
            flags.profile_path@ == given_or(profile_path, DEFAULT_PROFILE_PATH),
            flags.bundle_id@ == given_or(bundle_id, DEFAULT_BUNDLE_ID),
            flags.watch_dir@ == given_or(watch_dir, DEFAULT_WATCH_DIR),
            flags.access_log_path@ == given_or(access_log_path, DEFAULT_ACCESS_LOG_PATH),
    {
        Flags {
            config_path: value_or(config_path, DEFAULT_CONFIG_PATH),
            profile_path: value_or(profile_path, DEFAULT_PROFILE_PATH),
            bundle_id: value_or(bundle_id, DEFAULT_BUNDLE_ID),
            watch_dir: value_or(watch_dir, DEFAULT_WATCH_DIR),
            access_log_path: value_or(access_log_path, DEFAULT_ACCESS_LOG_PATH),
        }
    }
}

} // verus!
