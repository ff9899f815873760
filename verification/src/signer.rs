//! The choice of a signer source from the command line and the environment.
//!
//! A signer is either a keystore file or a private key in plain text. Each
//! may be named on the command line or by an environment variable. Options
//! from the command line must not be mixed; a value from the environment
//! gives way to one from the command line without complaint.

use crate::field::hex_be_value;
use crate::field::Felt;
use vstd::prelude::*;

verus! {

/// The signer options as given on the command line.
#[derive(Clone, Debug)]
pub struct SignerArgs {
    /// The path of a keystore file.
    pub keystore: Option<String>,
    /// The password of the keystore.
    pub keystore_password: Option<String>,
    /// A private key in hexadecimal.
    pub private_key: Option<String>,
}

/// What is to be resolved into a signer, and how firmly it was asked for.
#[derive(Debug)]
pub enum SignerResolutionTask {
    /// The signer was asked for on the command line.
    Strong(SignerResolutionTaskContent),
    /// The signer comes from the environment.
    Weak(SignerResolutionTaskContent),
    /// No signer option was given at all.
    Absent,
}

/// The source of a signer.
#[derive(Debug)]
pub enum SignerResolutionTaskContent {
    Keystore(KeystoreTaskContent),
    PrivateKey(PrivateKeyTaskContent),
}

/// A keystore file and, where given, its password.
#[derive(Debug)]
pub struct KeystoreTaskContent {
    pub keystore: String,
    pub keystore_password: Option<String>,
}

/// A private key in hexadecimal.
#[derive(Debug)]
pub struct PrivateKeyTaskContent {
    pub key: String,
}

/// Why the options name no signer source.
#[derive(Clone, Copy, Debug, PartialEq, Eq, Structural)]
pub enum SignerError {
    /// Both environment variables are set, and the command line settles
    /// nothing.
    EnvironmentConflict,
    /// Options of different signer sources are mixed.
    InvalidCombination,
    /// No signer option was given.
    NoSigner,
    /// The path of the keystore is empty.
    EmptyKeystorePath,
    /// The private key is no field element in hexadecimal.
    InvalidPrivateKey,
}

/// Where the value of an option comes from.
pub enum StringValue {
    FromCommandLine(String),
    FromEnvVar(String),
    Unset,
}

/// The value of an option: the one from the command line where there is
/// one, else the one from the environment.
pub open spec fn value_of(argument: Option<String>, environment: Option<String>) -> StringValue {
    match argument {
        Some(value) => StringValue::FromCommandLine(value),
        None => match environment {
            Some(value) => StringValue::FromEnvVar(value),
            None => StringValue::Unset,
        },
    }
}

/// The task that the three options give.
///
/// A keystore from the command line is used unless a private key is given
/// there too, and likewise a private key from the command line, which admits
/// no password beside it. With nothing on the command line, a keystore or a
/// private key from the environment is used if it is the only one; two of
/// them are in conflict. A password without a keystore is a mixture.
pub open spec fn task_of(
    keystore: StringValue,
    keystore_password: Option<String>,
    private_key: StringValue,
) -> Result<SignerResolutionTask, SignerError> {
    match (keystore, private_key) {
        (StringValue::FromCommandLine(keystore), StringValue::Unset)
        | (StringValue::FromCommandLine(keystore), StringValue::FromEnvVar(_)) => Ok(
            SignerResolutionTask::Strong(
                SignerResolutionTaskContent::Keystore(
                    KeystoreTaskContent { keystore, keystore_password },
                ),
            ),
        ),
        (StringValue::FromCommandLine(_), StringValue::FromCommandLine(_)) => Err(
            SignerError::InvalidCombination,
        ),
        (StringValue::Unset, StringValue::FromCommandLine(key))
        | (StringValue::FromEnvVar(_), StringValue::FromCommandLine(key)) => if keystore_password is None {
            Ok(
                SignerResolutionTask::Strong(
                    SignerResolutionTaskContent::PrivateKey(PrivateKeyTaskContent { key }),
                ),
            )
        } else {
            Err(SignerError::InvalidCombination)
        },
        (StringValue::FromEnvVar(keystore), StringValue::Unset) => Ok(
            SignerResolutionTask::Weak(
                SignerResolutionTaskContent::Keystore(
                    KeystoreTaskContent { keystore, keystore_password },
                ),
            ),
        ),
        (StringValue::FromEnvVar(_), StringValue::FromEnvVar(_)) => Err(
            SignerError::EnvironmentConflict,
        ),
        (StringValue::Unset, StringValue::FromEnvVar(key)) => if keystore_password is None {
            Ok(
                SignerResolutionTask::Weak(
                    SignerResolutionTaskContent::PrivateKey(PrivateKeyTaskContent { key }),
                ),
            )
        } else {
            Err(SignerError::InvalidCombination)
        },
        (StringValue::Unset, StringValue::Unset) => if keystore_password is None {
            Ok(SignerResolutionTask::Absent)
        } else {
            Err(SignerError::InvalidCombination)
        },
    }
}

impl SignerArgs {
    /// Turns the options into a task, without resolving it yet.
    ///
    /// `env_keystore` and `env_private_key` are the values of the
    /// environment variables `STARKNET_KEYSTORE` and `STARKNET_PRIVATE_KEY`,
    /// where they are set.
    pub fn into_task(self, env_keystore: Option<String>, env_private_key: Option<String>) -> (r:
        Result<SignerResolutionTask, SignerError>)
        ensures
            r == task_of(
                value_of(self.keystore, env_keystore),
                self.keystore_password,
                value_of(self.private_key, env_private_key),
            ),
    {
        let keystore = match self.keystore {
            Some(value) => StringValue::FromCommandLine(value),
            None => match env_keystore {
                Some(value) => StringValue::FromEnvVar(value),
                None => StringValue::Unset,
            },
        };
        let private_key = match self.private_key {
            Some(value) => StringValue::FromCommandLine(value),
            None => match env_private_key {
                Some(value) => StringValue::FromEnvVar(value),
                None => StringValue::Unset,
            },
        };
        match (keystore, self.keystore_password, private_key) {
            (StringValue::FromCommandLine(keystore), keystore_password, StringValue::Unset)
            | (
                StringValue::FromCommandLine(keystore),
                keystore_password,
                StringValue::FromEnvVar(_),
            ) => Ok(
                SignerResolutionTask::Strong(
                    SignerResolutionTaskContent::Keystore(
                        KeystoreTaskContent { keystore, keystore_password },
                    ),
                ),
            ),
            (StringValue::Unset, None, StringValue::FromCommandLine(key))
            | (StringValue::FromEnvVar(_), None, StringValue::FromCommandLine(key)) => Ok(
                SignerResolutionTask::Strong(
                    SignerResolutionTaskContent::PrivateKey(PrivateKeyTaskContent { key }),
                ),
            ),
            (StringValue::FromEnvVar(keystore), keystore_password, StringValue::Unset) => Ok(
                SignerResolutionTask::Weak(
                    SignerResolutionTaskContent::Keystore(
                        KeystoreTaskContent { keystore, keystore_password },
                    ),
                ),
            ),
            (StringValue::Unset, None, StringValue::FromEnvVar(key)) => Ok(
                SignerResolutionTask::Weak(
                    SignerResolutionTaskContent::PrivateKey(PrivateKeyTaskContent { key }),
                ),
            ),
            (StringValue::FromEnvVar(_), _, StringValue::FromEnvVar(_)) => Err(
                SignerError::EnvironmentConflict,
            ),
            (StringValue::Unset, None, StringValue::Unset) => Ok(SignerResolutionTask::Absent),
            _ => Err(SignerError::InvalidCombination),
        }
    }
}

impl SignerResolutionTask {
    /// The source to resolve, however firmly it was asked for; an error
    /// where no signer option was given.
    pub fn content(self) -> (r: Result<SignerResolutionTaskContent, SignerError>)
        ensures
            match self {
                SignerResolutionTask::Strong(content) | SignerResolutionTask::Weak(content) => r
                    == Ok::<SignerResolutionTaskContent, SignerError>(content),
                SignerResolutionTask::Absent => r == Err::<
                    SignerResolutionTaskContent,
                    SignerError,
                >(SignerError::NoSigner),
            },
    {
        match self {
            SignerResolutionTask::Strong(content) | SignerResolutionTask::Weak(content) => Ok(
                content,
            ),
            SignerResolutionTask::Absent => Err(SignerError::NoSigner),
        }
    }
}

impl KeystoreTaskContent {
    /// Checks that a keystore path is given at all.
    pub fn check_path(&self) -> (r: Result<(), SignerError>)
        ensures
            r is Ok <==> self.keystore@.len() > 0,
            r matches Err(e) ==> e == SignerError::EmptyKeystorePath,
    {
        if self.keystore.as_str().is_empty() {
            Err(SignerError::EmptyKeystorePath)
        } else {
            Ok(())
        }
    }
}

impl PrivateKeyTaskContent {
    /// Reads the private key: a field element in hexadecimal.
    pub fn secret_scalar(&self) -> (r: Result<Felt, SignerError>)
        ensures
            match r {
                Ok(key) => hex_be_value(self.key@) == Some(key@),
                Err(e) => e == SignerError::InvalidPrivateKey && hex_be_value(self.key@) is None,
            },
    {
        match Felt::from_hex_be(self.key.as_str()) {
            Some(key) => Ok(key),
            None => Err(SignerError::InvalidPrivateKey),
        }
    }
}

} // verus!
