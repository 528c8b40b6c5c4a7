//! The error taxonomy: caller errors (malformed input, rejected before any
//! network call), configuration errors (bad or unreachable credentials at
//! session-establishment time), and handler errors (a failed apply or delete
//! while reacting to a lifecycle event).

use vstd::prelude::*;
use vstd::string::*;

verus! {

/// Malformed caller input, always rejected before any network call.
#[derive(Clone, Debug, PartialEq, Eq)]
pub enum CallerError {
    /// The request body could not be decoded as a structured object.
    MalformedDocument(String),
    /// The decoded object carries no non-empty name.
    MissingName,
    /// The decoded object carries no type metadata.
    MissingTypeMeta,
    /// The request names no caller identity.
    MissingCallerId,
    /// No session was established for this caller identity.
    NoSessionForCaller(String),
    /// The lifecycle event body is not a structured document.
    MalformedEvent(String),
    /// The lifecycle event lacks a required key.
    MissingEventKey(String),
    /// The configured port value does not parse as a number.
    MalformedPort,
    /// The configured address value does not parse as a socket address.
    MalformedAddress,
}

impl CallerError {
    /// The human-readable text of this error.
    pub fn message(&self) -> (r: String)
        ensures
            r@ == self.message_spec(),
    {
        match self {
            CallerError::MalformedDocument(e) => String::from_str(
                "Unable to parse data as kubernetes object: ",
            ).concat(e.as_str()),
            CallerError::MissingName => String::from_str("The given object is missing a name"),
            CallerError::MissingTypeMeta => String::from_str(
                "The given manifest does not contain type information",
            ),
            CallerError::MissingCallerId => String::from_str(
                "Actor ID does not exist on request",
            ),
            CallerError::NoSessionForCaller(id) => String::from_str(
                "No link registered for actor ",
            ).concat(id.as_str()),
            CallerError::MalformedEvent(e) => String::from_str(
                "Invalid JSON data in message: ",
            ).concat(e.as_str()),
            CallerError::MissingEventKey(k) => String::from_str("Event does not have key ")
                .concat(k.as_str()),
            CallerError::MalformedPort => String::from_str("Port value is malformed"),
            CallerError::MalformedAddress => String::from_str("Address value is malformed"),
        }
    }

    /// What `message` returns, variant by variant.
    pub open spec fn message_spec(self) -> Seq<char> {
        match self {
            CallerError::MalformedDocument(e) => "Unable to parse data as kubernetes object: "@
                + e@,
            CallerError::MissingName => "The given object is missing a name"@,
            CallerError::MissingTypeMeta => "The given manifest does not contain type information"@,
            CallerError::MissingCallerId => "Actor ID does not exist on request"@,
            CallerError::NoSessionForCaller(id) => "No link registered for actor "@ + id@,
            CallerError::MalformedEvent(e) => "Invalid JSON data in message: "@ + e@,
            CallerError::MissingEventKey(k) => "Event does not have key "@ + k@,
            CallerError::MalformedPort => "Port value is malformed"@,
            CallerError::MalformedAddress => "Address value is malformed"@,
        }
    }
}

/// Which credential field of an embedded configuration document referenced
/// on-disk material by path.
#[derive(Clone, Copy, Debug, PartialEq, Eq)]
pub enum PathEntity {
    /// A cluster's certificate-authority path.
    Cluster,
    /// A user's client-certificate path.
    ClientCertificate,
    /// A user's client-key path.
    ClientKey,
    /// A user's token-file path.
    TokenFile,
}

impl PathEntity {
    /// The entity's name as it appears in the error text.
    pub fn label(&self) -> (r: &'static str)
        ensures
            r@ == self.label_spec(),
    {
        match self {
            PathEntity::Cluster => "cluster",
            PathEntity::ClientCertificate => "client_certificate",
            PathEntity::ClientKey => "client_key",
            PathEntity::TokenFile => "token_file",
        }
    }

    /// What `label` returns, variant by variant.
    pub open spec fn label_spec(self) -> Seq<char> {
        match self {
            PathEntity::Cluster => "cluster"@,
            PathEntity::ClientCertificate => "client_certificate"@,
            PathEntity::ClientKey => "client_key"@,
            PathEntity::TokenFile => "token_file"@,
        }
    }
}

/// Bad or unusable connection configuration, found while establishing a
/// session. A session is never stored when one of these comes up.
#[derive(Clone, Debug, PartialEq, Eq)]
pub enum ConfigError {
    /// The embedded configuration document is not valid base64.
    InvalidBase64(String),
    /// The decoded embedded document is not a valid configuration file.
    InvalidConfigData(String),
    /// The embedded document references credential material by filesystem
    /// path; only inline material is allowed there.
    PathInEmbeddedConfig { entity: PathEntity, name: String },
    /// The configuration file at the given path is missing or unparsable.
    FileConfigInvalid { path: String, detail: String },
    /// Neither in-cluster discovery nor the default location yielded a
    /// configuration.
    InferenceFailed(String),
    /// A client could not be built from the loaded configuration.
    ClientBuildFailed(String),
    /// The liveness probe against the remote API failed.
    ProbeFailed(String),
}

impl ConfigError {
    /// The human-readable text of this error.
    pub fn message(&self) -> (r: String)
        ensures
            r@ == self.message_spec(),
    {
        match self {
            ConfigError::InvalidBase64(e) => String::from_str("Invalid base64 config given: ")
                .concat(e.as_str()),
            ConfigError::InvalidConfigData(e) => String::from_str(
                "Invalid kubeconfig data given: ",
            ).concat(e.as_str()),
            ConfigError::PathInEmbeddedConfig { entity, name } => String::from_str(
                "Certificate and key paths are not allowed for base64 encoded configs. Offending entry: ",
            ).concat(entity.label()).concat(" ").concat(name.as_str()),
            ConfigError::FileConfigInvalid { path, detail } => String::from_str(
                "Invalid kubeconfig from file ",
            ).concat(path.as_str()).concat(": ").concat(detail.as_str()),
            ConfigError::InferenceFailed(e) => String::from_str(
                "No config given and unable to infer config from environment or default config file: ",
            ).concat(e.as_str()),
            ConfigError::ClientBuildFailed(e) => String::from_str(
                "Unable to create client from loaded kubeconfig: ",
            ).concat(e.as_str()),
            ConfigError::ProbeFailed(e) => String::from_str(
                "Unable to connect to the Kubernetes API server: ",
            ).concat(e.as_str()),
        }
    }

    /// What `message` returns, variant by variant.
    pub open spec fn message_spec(self) -> Seq<char> {
        match self {
            ConfigError::InvalidBase64(e) => "Invalid base64 config given: "@ + e@,
            ConfigError::InvalidConfigData(e) => "Invalid kubeconfig data given: "@ + e@,
            ConfigError::PathInEmbeddedConfig { entity, name } =>
                "Certificate and key paths are not allowed for base64 encoded configs. Offending entry: "@
                + entity.label_spec() + " "@ + name@,
            ConfigError::FileConfigInvalid { path, detail } => "Invalid kubeconfig from file "@
                + path@ + ": "@ + detail@,
            ConfigError::InferenceFailed(e) =>
                "No config given and unable to infer config from environment or default config file: "@
                + e@,
            ConfigError::ClientBuildFailed(e) => "Unable to create client from loaded kubeconfig: "@
                + e@,
            ConfigError::ProbeFailed(e) => "Unable to connect to the Kubernetes API server: "@ + e@,
        }
    }
}

/// A failure while reacting to a lifecycle event: the synthesized apply or
/// delete did not go through. Propagated to the event's caller, never
/// silently dropped.
#[derive(Clone, Debug, PartialEq, Eq)]
pub enum HandlerError {
    /// The event payload itself was unusable.
    Caller(CallerError),
    /// The synthesized apply returned an unsucceeded outcome.
    ApplyFailed(String),
    /// The synthesized delete returned an unsucceeded outcome.
    DeleteFailed(String),
}

impl HandlerError {
    /// The human-readable text of this error.
    pub fn message(&self) -> (r: String)
        ensures
            r@ == self.message_spec(),
    {
        match self {
            HandlerError::Caller(e) => e.message(),
            HandlerError::ApplyFailed(e) => String::from_str(
                "Unable to apply kubernetes service: ",
            ).concat(e.as_str()),
            HandlerError::DeleteFailed(e) => String::from_str(
                "Unable to delete kubernetes service: ",
            ).concat(e.as_str()),
        }
    }

    /// What `message` returns, variant by variant.
    pub open spec fn message_spec(self) -> Seq<char> {
        match self {
            HandlerError::Caller(e) => e.message_spec(),
            HandlerError::ApplyFailed(e) => "Unable to apply kubernetes service: "@ + e@,
            HandlerError::DeleteFailed(e) => "Unable to delete kubernetes service: "@ + e@,
        }
    }
}

} // verus!
