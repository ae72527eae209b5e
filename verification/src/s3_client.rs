//! Where the credentials of the object store come from, and what is made of
//! what was found there.

use vstd::prelude::*;
use vstd::string::*;
use vstd::utf8::{decode_utf8, valid_utf8};
use crate::configuration::Configuration;
use crate::forwarder::error::labelled;
use crate::owner::username;

verus! {

/// `std::string::FromUtf8Error`: why bytes are no text, as `String::from_utf8`
/// reports it. It is carried through as it came; nothing is claimed of what it
/// holds.
#[verifier::external_type_specification]
#[verifier::external_body]
pub struct ExFromUtf8Error(std::string::FromUtf8Error);

/// The environment variables that are read.
#[derive(Clone, Copy, Debug, PartialEq, Eq, Hash, Structural)]
pub enum EnvVar {
    AwsAccessKeyId,
    AwsSecretAccessKey,
    AwsDefaultRegion,
}

/// The keychain services under which the credentials are kept.
#[derive(Clone, Copy, Debug, PartialEq, Eq, Structural)]
pub enum KeychainServices {
    AwsAccessKeyId,
    AwsSecretAccessKey,
}

/// Why an environment variable gave no value.
#[derive(Clone, Copy, Debug, PartialEq, Eq, Structural)]
pub enum VarFailure {
    /// The variable is not set.
    NotPresent,
    /// The variable holds no valid text.
    NotUnicode,
}

/// Why the keychain gave no item: its status code and its words for it.
#[derive(Clone, Debug)]
pub struct KeychainFailure {
    pub code: i32,
    pub message: String,
}

/// Why no credentials were found.
#[derive(Debug)]
pub enum ClientError<'a> {
    /// The environment variable of this name gave no value.
    CredentialNotSet(&'a str, VarFailure),
    /// The keychain gave no item.
    KeychainReadFailed(KeychainFailure),
    /// The keychain item is no text.
    KeychainPasswordParseFailed(std::string::FromUtf8Error),
}

/// An access key id and its secret key.
#[derive(Debug)]
pub struct CredentialsStore(pub String, pub String);

/// Where the credentials are looked for.
#[derive(Clone, Debug)]
pub enum CredentialSource {
    /// In the keychain, under the account of this user.
    Keychain(String),
    /// In the environment.
    Environment,
}

impl EnvVar {
    /// The name of the variable.
    pub open spec fn name_spec(&self) -> Seq<char> {
        match self {
            EnvVar::AwsAccessKeyId => "AWS_ACCESS_KEY_ID"@,
            EnvVar::AwsSecretAccessKey => "AWS_SECRET_ACCESS_KEY"@,
            EnvVar::AwsDefaultRegion => "AWS_DEFAULT_REGION"@,
        }
    }

    /// The name of the variable.
    pub fn name(&self) -> (name: &'static str)
        ensures
            name@ == self.name_spec(),
    {
        match self {
            EnvVar::AwsAccessKeyId => "AWS_ACCESS_KEY_ID",
            EnvVar::AwsSecretAccessKey => "AWS_SECRET_ACCESS_KEY",
            EnvVar::AwsDefaultRegion => "AWS_DEFAULT_REGION",
        }
    }
}

impl KeychainServices {
    /// The name of the service.
    pub open spec fn name_spec(&self) -> Seq<char> {
        match self {
            KeychainServices::AwsAccessKeyId => "com.logga.aws-access-key-id"@,
            KeychainServices::AwsSecretAccessKey => "com.logga.aws-secret-access-key"@,
        }
    }

    /// The name of the service.
    pub fn name(&self) -> (name: &'static str)
        ensures
            name@ == self.name_spec(),
    {
        match self {
            KeychainServices::AwsAccessKeyId => "com.logga.aws-access-key-id",
            KeychainServices::AwsSecretAccessKey => "com.logga.aws-secret-access-key",
        }
    }
}

impl VarFailure {
    /// The failure in words.
    pub open spec fn message_spec(&self) -> Seq<char> {
        match self {
            VarFailure::NotPresent => "environment variable not found"@,
            VarFailure::NotUnicode => "environment variable was not valid unicode"@,
        }
    }

    /// The failure in words.
    pub fn message(&self) -> (text: &'static str)
        ensures
            text@ == self.message_spec(),
    {
        match self {
            VarFailure::NotPresent => "environment variable not found",
            VarFailure::NotUnicode => "environment variable was not valid unicode",
        }
    }
}

/// The text that `bytes` encode. Calls `String::from_utf8`, which accepts
/// exactly the byte sequences that are valid UTF-8 and then gives the text
/// they encode.
#[verifier::external_body]
fn text_from_utf8(bytes: Vec<u8>) -> (r: Result<String, std::string::FromUtf8Error>)
    ensures
        r.is_ok() == valid_utf8(bytes@),
        r matches Ok(text) ==> text@ == decode_utf8(bytes@),
{
    String::from_utf8(bytes)
}

/// The words of a failed conversion to text. Formats the error with
/// `std::fmt::Display`; nothing is claimed of the words.
#[verifier::external_body]
fn utf8_error_text(err: &std::string::FromUtf8Error) -> (text: String) {
    format!("{}", err)
}

impl<'a> ClientError<'a> {
    /// The error in words: for a variable its name, a blank and the failure;
    /// for the keychain its own words.
    pub fn message(&self) -> (text: String)
        ensures
            self matches ClientError::CredentialNotSet(key, failure) ==> text@ == key@ + " "@
                + failure.message_spec(),
            self matches ClientError::KeychainReadFailed(failure) ==> text@ == failure.message@,
    {
        match self {
            ClientError::CredentialNotSet(key, failure) => {
                let mut text = labelled(key, " ");
                text.append(failure.message());
                text
            },
            ClientError::KeychainReadFailed(failure) => failure.message.clone(),
            ClientError::KeychainPasswordParseFailed(err) => utf8_error_text(err),
        }
    }
}

/// The value of the environment variable `key`, given what came of reading it.
pub fn env_var(key: EnvVar, value: Result<String, VarFailure>) -> (r: Result<
    String,
    ClientError<'static>,
>)
    ensures
        match value {
            Ok(text) => r matches Ok(found) && found == text,
            Err(failure) => r matches Err(ClientError::CredentialNotSet(name, why)) && name@
                == key.name_spec() && why == failure,
        },
{
    match value {
        Ok(text) => Ok(text),
        Err(failure) => Err(ClientError::CredentialNotSet(key.name(), failure)),
    }
}

/// The keychain item as text, given what came of reading it.
pub fn keychain_item(read: Result<Vec<u8>, KeychainFailure>) -> (r: Result<
    String,
    ClientError<'static>,
>)
    ensures
        match read {
            Ok(bytes) => if valid_utf8(bytes@) {
                r matches Ok(text) && text@ == decode_utf8(bytes@)
            } else {
                r matches Err(ClientError::KeychainPasswordParseFailed(_))
            },
            Err(failure) => r matches Err(ClientError::KeychainReadFailed(why)) && why
                == failure,
        },
{
    match read {
        Err(failure) => Err(ClientError::KeychainReadFailed(failure)),
        Ok(bytes) => match text_from_utf8(bytes) {
            Ok(text) => Ok(text),
            Err(err) => Err(ClientError::KeychainPasswordParseFailed(err)),
        },
    }
}

/// Where the credentials are looked for under `config`: in the keychain of
/// the process owner where the configuration says so, else in the environment.
pub fn credential_source(config: &Configuration) -> (source: CredentialSource)
    ensures
        config.s3.keychain_authentication ==> source is Keychain,
        !config.s3.keychain_authentication ==> source is Environment,
{
    if config.s3.keychain_authentication {
        CredentialSource::Keychain(username())
    } else {
        CredentialSource::Environment
    }
}

/// The credentials, given what was found for the access key id and for the
/// secret key: both, or the failure of the first that failed.
pub fn get_aws_credentials<'a>(
    access_key_id: Result<String, ClientError<'a>>,
    secret_key: Result<String, ClientError<'a>>,
) -> (r: Result<CredentialsStore, ClientError<'a>>)
    ensures
        match (access_key_id, secret_key) {
            (Ok(id), Ok(secret)) => r matches Ok(store) && store.0 == id && store.1 == secret,
            (Ok(_), Err(err)) => r matches Err(why) && why == err,
            (Err(err), _) => r matches Err(why) && why == err,
        },
{
    match access_key_id {
        Err(err) => Err(err),
        Ok(id) => match secret_key {
            Err(err) => Err(err),
            Ok(secret) => Ok(CredentialsStore(id, secret)),
        },
    }
}

/// The region to work in: that of the environment where it names one, else
/// that of the configuration.
pub fn region(from_env: Option<String>, config: &Configuration) -> (region: String)
    ensures
        match from_env {
            Some(name) => region == name,
            None => region == config.s3.region,
        },
{
    match from_env {
        Some(name) => name,
        None => config.s3.region.clone(),
    }
}

} // verus!
