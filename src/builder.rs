use vstd::prelude::*;
use crate::client::{PubSub, SourceModel, TokenSource};
use crate::credentials::{key_of_text, opt_view, KeyModel, ServiceAccountKey};
use crate::error::ConfigError;

verus! {

/// What the credentials-file environment variable gave.
#[derive(Debug, Clone)]
pub enum KeyFileSignal {
    /// The variable is not set.
    Unset,
    /// The variable names a file that could not be read.
    Unreadable,
    /// The text of the file the variable names.
    Contents(String),
}

/// The ambient signals that credentials are discovered from, as they stood
/// when the client was built.
#[derive(Debug, Clone)]
pub struct Ambient {
    /// The credentials file named by the environment.
    pub key_file: KeyFileSignal,
    /// The project id named by the environment.
    pub project_env: Option<String>,
    /// The project id the metadata service answered, or `None` when the
    /// probe failed or was not made.
    pub metadata_project: Option<String>,
}

/// The token source that discovery picks: explicit key material, then the
/// credentials file named by the environment, then the metadata service.
pub open spec fn source_choice(explicit_key: Option<KeyModel>, a: Ambient) -> Result<SourceModel, ConfigError> {
    match explicit_key {
        Some(k) => Ok(SourceModel::ServiceAccount(k)),
        None => match a.key_file {
            KeyFileSignal::Contents(text) => match key_of_text(text@) {
                Some(k) => Ok(SourceModel::ServiceAccount(k)),
                None => Err(ConfigError::MalformedKey),
            },
            KeyFileSignal::Unreadable => Err(ConfigError::KeyFileUnreadable),
            KeyFileSignal::Unset => if a.metadata_project is Some {
                Ok(SourceModel::ManagedMetadata)
            } else {
                Err(ConfigError::NoCredentials)
            },
        },
    }
}

/// The project id that goes with `source`: the explicit one, then the
/// environment's, then the metadata service's or the key's.
pub open spec fn project_choice(explicit_project: Option<Seq<char>>, a: Ambient, source: SourceModel) -> Result<Seq<char>, ConfigError> {
    match explicit_project {
        Some(p) => Ok(p),
        None => match a.project_env {
            Some(p) => Ok(p@),
            None => match source {
                SourceModel::ManagedMetadata => match a.metadata_project {
                    Some(p) => Ok(p@),
                    None => Err(ConfigError::NoProjectId),
                },
                SourceModel::ServiceAccount(k) => match k.project_id {
                    Some(p) => Ok(p),
                    None => Err(ConfigError::NoProjectId),
                },
            },
        },
    }
}

/// The identity that resolution yields: the source first, then its project id.
pub open spec fn resolution(
    explicit_project: Option<Seq<char>>,
    explicit_key: Option<KeyModel>,
    a: Ambient,
) -> Result<(Seq<char>, SourceModel), ConfigError> {
    match source_choice(explicit_key, a) {
        Ok(source) => match project_choice(explicit_project, a, source) {
            Ok(p) => Ok((p, source)),
            Err(e) => Err(e),
        },
        Err(e) => Err(e),
    }
}

/// The configuration of a client before its credentials are resolved.
#[derive(Debug)]
pub struct UnbuiltPubSub {
    project_id: Option<String>,
    sa_key: Option<ServiceAccountKey>,
}

impl UnbuiltPubSub {
    /// The project id set by the caller.
    pub closed spec fn explicit_project(&self) -> Option<Seq<char>> {
        opt_view(self.project_id)
    }

    /// The key material set by the caller.
    pub closed spec fn explicit_key(&self) -> Option<KeyModel> {
        match self.sa_key {
            Some(k) => Some(k@),
            None => None,
        }
    }

    /// A configuration with nothing set.
    pub fn new() -> (r: UnbuiltPubSub)
        ensures
            r.explicit_project() is None,
            r.explicit_key() is None,
    {
        UnbuiltPubSub { project_id: None, sa_key: None }
    }

    /// Sets the project id, which then wins over every discovered one.
    pub fn set_project_id(&mut self, project_id: String)
        ensures
            final(self).explicit_project() == Some(project_id@),
            final(self).explicit_key() == old(self).explicit_key(),
    {
        self.project_id = Some(project_id);
    }

    /// Sets the key material from the text of a key file; text that holds no
    /// key leaves the configuration as it was.
    pub fn set_sa_key(&mut self, key_text: &str) -> (r: Result<(), ConfigError>)
        ensures
            match key_of_text(key_text@) {
                Some(k) => r is Ok && final(self).explicit_key() == Some(k),
                None => r == Err::<(), ConfigError>(ConfigError::MalformedKey)
                    && final(self).explicit_key() == old(self).explicit_key(),
            },
            final(self).explicit_project() == old(self).explicit_project(),
    {
        match ServiceAccountKey::parse(key_text) {
            Ok(key) => {
                self.sa_key = Some(key);
                Ok(())
            },
            Err(e) => Err(e),
        }
    }

    /// Whether discovery needs the metadata probe: only when no key material
    /// was set and the environment names no credentials file.
    pub fn needs_metadata_probe(&self, key_file: &KeyFileSignal) -> (r: bool)
        ensures
            r == (self.explicit_key() is None && key_file is Unset),
    {
        self.sa_key.is_none() && matches!(key_file, KeyFileSignal::Unset)
    }

    /// Resolves the credentials and the project id from the configuration and
    /// the ambient signals.
    pub fn build(self, ambient: &Ambient) -> (r: Result<PubSub, ConfigError>)
        ensures
            match resolution(self.explicit_project(), self.explicit_key(), *ambient) {
                Ok(id) => r matches Ok(p) && p@ == id,
                Err(e) => r == Err::<PubSub, ConfigError>(e),
            },
    {
        let UnbuiltPubSub { project_id, sa_key } = self;
        let source = match sa_key {
            Some(key) => TokenSource::ServiceAccount(key),
            None => match &ambient.key_file {
                KeyFileSignal::Contents(text) => match ServiceAccountKey::parse(text.as_str()) {
                    Ok(key) => TokenSource::ServiceAccount(key),
                    Err(e) => return Err(e),
                },
                KeyFileSignal::Unreadable => return Err(ConfigError::KeyFileUnreadable),
                KeyFileSignal::Unset => if ambient.metadata_project.is_some() {
                    TokenSource::ManagedMetadata
                } else {
                    return Err(ConfigError::NoCredentials);
                },
            },
        };
        let project = match project_id {
            Some(p) => p,
            None => match &ambient.project_env {
                Some(p) => p.clone(),
                None => match &source {
                    TokenSource::ManagedMetadata => match &ambient.metadata_project {
                        Some(p) => p.clone(),
                        None => return Err(ConfigError::NoProjectId),
                    },
                    TokenSource::ServiceAccount(key) => match &key.project_id {
                        Some(p) => p.clone(),
                        None => return Err(ConfigError::NoProjectId),
                    },
                },
            },
        };
        Ok(PubSub::from_parts(project, source))
    }
}

/// Discovery picks the highest-priority strategy that is available: key
/// material set by the caller wins over everything, a credentials file named
/// by the environment wins over the metadata service, and the metadata
/// service is used only when neither is there.
pub proof fn lemma_discovery_precedence(config: UnbuiltPubSub, a: Ambient)
    ensures
        config.explicit_key() matches Some(k) ==> source_choice(config.explicit_key(), a) == Ok::<SourceModel, ConfigError>(SourceModel::ServiceAccount(k)),
        config.explicit_key() is None ==> (a.key_file matches KeyFileSignal::Contents(text) ==> match key_of_text(text@) {
            Some(k) => source_choice(config.explicit_key(), a) == Ok::<SourceModel, ConfigError>(SourceModel::ServiceAccount(k)),
            None => source_choice(config.explicit_key(), a) == Err::<SourceModel, ConfigError>(ConfigError::MalformedKey),
        }),
        config.explicit_key() is None && a.key_file is Unset && a.metadata_project is Some
            ==> source_choice(config.explicit_key(), a) == Ok::<SourceModel, ConfigError>(SourceModel::ManagedMetadata),
        config.explicit_key() is None && a.key_file is Unset && a.metadata_project is None
            ==> source_choice(config.explicit_key(), a) == Err::<SourceModel, ConfigError>(ConfigError::NoCredentials),
{
}

/// An explicit project id wins over every discovered one, and the
/// environment's wins over what the metadata service or the key supply:
/// whenever a source is found, the identity carries that project id.
pub proof fn lemma_project_precedence(config: UnbuiltPubSub, a: Ambient)
    ensures
        source_choice(config.explicit_key(), a) matches Ok(source) ==> {
            &&& config.explicit_project() matches Some(p)
                ==> resolution(config.explicit_project(), config.explicit_key(), a) == Ok::<(Seq<char>, SourceModel), ConfigError>((p, source))
            &&& config.explicit_project() is None ==> (a.project_env matches Some(p)
                ==> resolution(config.explicit_project(), config.explicit_key(), a) == Ok::<(Seq<char>, SourceModel), ConfigError>((p@, source)))
        },
{
}

} // verus!
