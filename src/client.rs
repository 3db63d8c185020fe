use vstd::prelude::*;
use crate::error::AuthError;
use crate::credentials::{KeyModel, ServiceAccountKey};

verus! {

/// What a topic lookup answering with HTTP status `code` means.
pub open spec fn topic_status_outcome(code: u16) -> Result<(), AuthError> {
    if code == 200 {
        Ok(())
    } else if code == 404 {
        Err(AuthError::TopicNotFound)
    } else if code == 403 {
        Err(AuthError::Unauthorized)
    } else {
        Err(AuthError::UnexpectedStatus(code))
    }
}

/// Classifies the HTTP status of the lookup that checks a topic exists.
pub fn check_topic_status(code: u16) -> (r: Result<(), AuthError>)
    ensures
        r == topic_status_outcome(code),
{
    if code == 200 {
        Ok(())
    } else if code == 404 {
        Err(AuthError::TopicNotFound)
    } else if code == 403 {
        Err(AuthError::Unauthorized)
    } else {
        Err(AuthError::UnexpectedStatus(code))
    }
}

/// The content of a token source.
pub enum SourceModel {
    ServiceAccount(KeyModel),
    ManagedMetadata,
}

/// Where bearer tokens come from.
#[derive(Debug, Clone)]
pub enum TokenSource {
    /// A signed JWT assertion exchanged for tokens at the OAuth2 endpoint.
    ServiceAccount(ServiceAccountKey),
    /// The managed instance's local metadata service.
    ManagedMetadata,
}

impl View for TokenSource {
    type V = SourceModel;

    open spec fn view(&self) -> SourceModel {
        match self {
            TokenSource::ServiceAccount(k) => SourceModel::ServiceAccount(k@),
            TokenSource::ManagedMetadata => SourceModel::ManagedMetadata,
        }
    }
}

/// A resolved client identity: the project id and the one token source
/// chosen for it. It does not change once built.
#[derive(Debug, Clone)]
pub struct PubSub {
    project_id: String,
    source: TokenSource,
}

impl View for PubSub {
    type V = (Seq<char>, SourceModel);

    closed spec fn view(&self) -> (Seq<char>, SourceModel) {
        (self.project_id@, self.source@)
    }
}

/// The resource path of a topic's REST endpoint.
pub open spec fn topic_url(project_id: Seq<char>, topic: Seq<char>) -> Seq<char> {
    "https://pubsub.googleapis.com/v1/projects/"@ + project_id + "/topics/"@ + topic
}

impl PubSub {
    pub(crate) fn from_parts(project_id: String, source: TokenSource) -> (r: PubSub)
        ensures
            r@ == (project_id@, source@),
    {
        PubSub { project_id, source }
    }

    /// The project that topics of this client belong to.
    pub fn project_id(&self) -> (r: &str)
        ensures
            r@ == self@.0,
    {
        self.project_id.as_str()
    }

    /// The token source chosen for this client.
    pub fn source(&self) -> (r: &TokenSource)
        ensures
            r@ == self@.1,
    {
        &self.source
    }

    /// A handle on the topic `topic` of this client's project.
    pub fn topic(&self, topic: String) -> (r: Topic)
        ensures
            r@ == (self@.0, topic@),
    {
        Topic { project_id: self.project_id.clone(), topic }
    }
}

/// A topic of a project.
#[derive(Debug, Clone)]
pub struct Topic {
    project_id: String,
    topic: String,
}

impl View for Topic {
    type V = (Seq<char>, Seq<char>);

    closed spec fn view(&self) -> (Seq<char>, Seq<char>) {
        (self.project_id@, self.topic@)
    }
}

impl Topic {
    /// The project the topic belongs to.
    pub fn project_id(&self) -> (r: &str)
        ensures
            r@ == self@.0,
    {
        self.project_id.as_str()
    }

    /// The topic's name.
    pub fn name(&self) -> (r: &str)
        ensures
            r@ == self@.1,
    {
        self.topic.as_str()
    }

    /// The URL that a lookup of the topic is sent to.
    pub fn url(&self) -> (r: String)
        ensures
            r@ == topic_url(self@.0, self@.1),
    {
        let mut r = String::from_str("https://pubsub.googleapis.com/v1/projects/");
        r.append(self.project_id.as_str());
        r.append("/topics/");
        r.append(self.topic.as_str());
        r
    }

    /// The URL that messages for the topic are published to.
    pub fn publish_url(&self) -> (r: String)
        ensures
            r@ == topic_url(self@.0, self@.1) + ":publish"@,
    {
        let mut r = self.url();
        r.append(":publish");
        r
    }
}

} // verus!
