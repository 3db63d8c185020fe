use vstd::prelude::*;

verus! {

/// Why credentials or a project id could not be resolved.
#[derive(Debug, Clone, Copy, PartialEq, Eq, Structural)]
pub enum ConfigError {
    /// No key material was supplied or found, and the metadata probe failed.
    NoCredentials,
    /// Credentials were found, but no source supplied a project id.
    NoProjectId,
    /// The credentials file named by the environment could not be read.
    KeyFileUnreadable,
    /// Key material is not a well-formed service-account key.
    MalformedKey,
}

/// Why a token could not be obtained or a topic request was refused.
#[derive(Debug, Clone, Copy, PartialEq, Eq, Structural)]
pub enum AuthError {
    /// The OAuth2 exchange failed or its response was malformed.
    ExchangeFailed,
    /// The metadata service could not be reached or answered malformed data.
    MetadataUnreachable,
    /// The topic lookup answered 404.
    TopicNotFound,
    /// The topic lookup answered 403.
    Unauthorized,
    /// The topic lookup answered another status than 200, 403 or 404.
    UnexpectedStatus(u16),
}

} // verus!
