//! The configuration of the uploader, and how one is put together from the
//! preferences of a managed profile.

use vstd::prelude::*;
use vstd::string::*;

verus! {

/// The region that is assumed where a profile names none.
pub const DEFAULT_REGION: &'static str = "us-east-1";

/// The preferences that a managed profile is asked for.
#[derive(Clone, Copy, Debug, PartialEq, Eq, Hash, Structural)]
pub enum LabelKey {
    S3Bucket,
    S3Endpoint,
    S3Region,
    S3KeychainAuthentication,
}

/// Why a profile gives no configuration.
#[derive(Clone, Copy, Debug)]
pub enum ProfileError<'a> {
    /// The key of this preference could not be made.
    CreateKey(&'a str),
    /// This setting is empty.
    ValidateEmpty(&'a str),
}

/// Where the archives go.
#[derive(Clone, Debug)]
pub struct S3 {
    pub bucket: String,
    pub endpoint: String,
    pub region: String,
    /// Whether the credentials are kept in the keychain.
    pub keychain_authentication: bool,
}

/// The configuration of the agent.
#[derive(Clone, Debug)]
pub struct Configuration {
    pub s3: S3,
}

impl LabelKey {
    /// The name under which the preference is kept.
    pub open spec fn name_spec(&self) -> Seq<char> {
        match self {
            LabelKey::S3Bucket => "S3Bucket"@,
            LabelKey::S3Endpoint => "S3Endpoint"@,
            LabelKey::S3Region => "S3Region"@,
            LabelKey::S3KeychainAuthentication => "S3KeychainAuthentication"@,
        }
    }

    /// The name under which the preference is kept.
    pub fn name(&self) -> (name: &'static str)
        ensures
            name@ == self.name_spec(),
    {
        match self {
            LabelKey::S3Bucket => "S3Bucket",
            LabelKey::S3Endpoint => "S3Endpoint",
            LabelKey::S3Region => "S3Region",
            LabelKey::S3KeychainAuthentication => "S3KeychainAuthentication",
        }
    }
}

impl<'a> ProfileError<'a> {
    /// The error in words.
    pub open spec fn message_spec(&self) -> Seq<char> {
        match self {
            ProfileError::CreateKey(key) => "failed to construct key: "@ + key@,
            ProfileError::ValidateEmpty(key) => key@ + " was empty"@,
        }
    }

    /// The error in words.
    pub fn message(&self) -> (text: String)
        ensures
            text@ == self.message_spec(),
    {
        match self {
            ProfileError::CreateKey(key) => {
                let mut text = "failed to construct key: ".to_owned();
                text.append(key);
                text
            },
            ProfileError::ValidateEmpty(key) => {
                let mut text = (*key).to_owned();
                text.append(" was empty");
                text
            },
        }
    }
}

impl Default for S3 {
    fn default() -> (s3: S3)
        ensures
            s3.bucket@.len() == 0,
            s3.endpoint@.len() == 0,
            s3.region@.len() == 0,
            !s3.keychain_authentication,
    {
        S3 {
            bucket: String::new(),
            endpoint: String::new(),
            region: String::new(),
            keychain_authentication: false,
        }
    }
}

impl Default for Configuration {
    fn default() -> (config: Configuration)
        ensures
            config.s3.bucket@.len() == 0,
            config.s3.endpoint@.len() == 0,
            config.s3.region@.len() == 0,
            !config.s3.keychain_authentication,
    {
        Configuration { s3: S3::default() }
    }
}

impl S3 {
    /// The first setting that is empty, in the order bucket, endpoint, region.
    pub open spec fn first_empty(&self) -> Option<Seq<char>> {
        if self.bucket@.len() == 0 {
            Some("bucket"@)
        } else if self.endpoint@.len() == 0 {
            Some("endpoint"@)
        } else if self.region@.len() == 0 {
            Some("region"@)
        } else {
            None
        }
    }

    /// Accepts the settings where bucket, endpoint and region are all set,
    /// and names the first that is not.
    pub fn validate(&self) -> (r: Result<(), ProfileError<'static>>)
        ensures
            match r {
                Ok(_) => self.first_empty().is_none(),
                Err(ProfileError::ValidateEmpty(field)) => self.first_empty() == Some(field@),
                Err(ProfileError::CreateKey(_)) => false,
            },
    {
        if self.bucket.as_str().is_empty() {
            return Err(ProfileError::ValidateEmpty("bucket"));
        }
        if self.endpoint.as_str().is_empty() {
            return Err(ProfileError::ValidateEmpty("endpoint"));
        }
        if self.region.as_str().is_empty() {
            return Err(ProfileError::ValidateEmpty("region"));
        }
        Ok(())
    }
}

/// The text of a preference, or `default` where the profile does not set it.
pub open spec fn text_or(value: Option<String>, default: Seq<char>) -> Seq<char> {
    match value {
        Some(text) => text@,
        None => default,
    }
}

/// Whether a profile with these preferences gives a configuration: every
/// preference was read, and bucket, endpoint and region are set once the
/// region's default is filled in.
pub open spec fn profile_is_complete(
    region: Result<Option<String>, ProfileError>,
    bucket: Result<Option<String>, ProfileError>,
    endpoint: Result<Option<String>, ProfileError>,
    keychain: Result<Option<bool>, ProfileError>,
) -> bool {
    &&& region matches Ok(region)
    &&& bucket matches Ok(bucket)
    &&& endpoint matches Ok(endpoint)
    &&& keychain is Ok
    &&& text_or(bucket, Seq::empty()).len() > 0
    &&& text_or(endpoint, Seq::empty()).len() > 0
    &&& text_or(region, DEFAULT_REGION@).len() > 0
}

impl Configuration {
    /// The configuration that a managed profile gives, from what came of
    /// reading its four preferences. A preference that is not set takes its
    /// default: the default region, an empty bucket or endpoint, no keychain.
    pub fn parse_configuration_profile(
        region: Result<Option<String>, ProfileError>,
        bucket: Result<Option<String>, ProfileError>,
        endpoint: Result<Option<String>, ProfileError>,
        keychain: Result<Option<bool>, ProfileError>,
    ) -> (config: Option<Configuration>)
        ensures
            config.is_some() == profile_is_complete(region, bucket, endpoint, keychain),
            config matches Some(c) ==> {
                &&& c.s3.bucket@ == text_or(bucket.unwrap(), Seq::empty())
                &&& c.s3.endpoint@ == text_or(endpoint.unwrap(), Seq::empty())
                &&& c.s3.region@ == text_or(region.unwrap(), DEFAULT_REGION@)
                &&& c.s3.keychain_authentication == (keychain.unwrap() == Some(true))
            },
    {
        let region = match region {
            Ok(Some(text)) => text,
            Ok(None) => DEFAULT_REGION.to_owned(),
            Err(_) => {
                return None;
            },
        };
        let bucket = match bucket {
            Ok(Some(text)) => text,
            Ok(None) => String::new(),
            Err(_) => {
                return None;
            },
        };
        let endpoint = match endpoint {
            Ok(Some(text)) => text,
            Ok(None) => String::new(),
            Err(_) => {
                return None;
            },
        };
        let keychain_authentication = match keychain {
            Ok(Some(flag)) => flag,
            Ok(None) => false,
            Err(_) => {
                return None;
            },
        };
        let s3 = S3 { bucket, endpoint, region, keychain_authentication };
        match s3.validate() {
            Ok(_) => Some(Configuration { s3 }),
            Err(_) => None,
        }
    }

    /// The configuration to run with: that of the managed profile where it
    /// gives one, else that of the configuration file, if it gave one.
    pub fn build(profile: Option<Configuration>, file: Option<Configuration>) -> (config: Option<
        Configuration,
    >)
        ensures
            config == (if profile.is_some() {
                profile
            } else {
                file
            }),
    {
        match profile {
            Some(config) => Some(config),
            None => file,
        }
    }
}

} // verus!
