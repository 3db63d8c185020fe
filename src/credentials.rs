use vstd::prelude::*;
use crate::error::ConfigError;

verus! {

/// What `text` holds under the member `name` when it is read as JSON: `None`
/// when it is no JSON object, `Some(None)` when the member is missing or not
/// a string, and `Some(Some(s))` when it is the string `s`.
pub uninterp spec fn json_string_member(text: Seq<char>, name: Seq<char>) -> Option<Option<Seq<char>>>;

/// Relies on serde_json::from_str into a serde_json::Value and on
/// serde_json::Map::get: the outcome depends on the text and the member's
/// name alone.
#[verifier::external_body]
fn string_member(text: &str, name: &str) -> (r: Option<Option<String>>)
    ensures
        r is None <==> json_string_member(text@, name@) is None,
        r matches Some(None) <==> json_string_member(text@, name@) == Some(None::<Seq<char>>),
        r matches Some(Some(s)) ==> json_string_member(text@, name@) == Some(Some(s@)),
{
    match serde_json::from_str::<serde_json::Value>(text) {
        Ok(serde_json::Value::Object(map)) => match map.get(name) {
            Some(serde_json::Value::String(s)) => Some(Some(s.clone())),
            _ => Some(None),
        },
        _ => None,
    }
}

/// The content of a service-account key.
pub struct KeyModel {
    pub private_key: Seq<char>,
    pub client_email: Seq<char>,
    pub project_id: Option<Seq<char>>,
    pub token_uri: Option<Seq<char>>,
}

/// An optional member: present only when it is a string.
pub open spec fn optional_member(text: Seq<char>, name: Seq<char>) -> Option<Seq<char>> {
    match json_string_member(text, name) {
        Some(Some(s)) => Some(s),
        _ => None,
    }
}

/// The key that a key file holds: `private_key` and `client_email` must be
/// strings of a JSON object; `project_id` and `token_uri` may be left out.
pub open spec fn key_of_text(text: Seq<char>) -> Option<KeyModel> {
    match (json_string_member(text, "private_key"@), json_string_member(text, "client_email"@)) {
        (Some(Some(pk)), Some(Some(ce))) => Some(
            KeyModel {
                private_key: pk,
                client_email: ce,
                project_id: optional_member(text, "project_id"@),
                token_uri: optional_member(text, "token_uri"@),
            },
        ),
        _ => None,
    }
}

/// The view of an optional string.
pub open spec fn opt_view(o: Option<String>) -> Option<Seq<char>> {
    match o {
        Some(s) => Some(s@),
        None => None,
    }
}

/// A service-account key: the identity and private key that sign token requests.
#[derive(Debug, Clone)]
pub struct ServiceAccountKey {
    pub private_key: String,
    pub client_email: String,
    pub project_id: Option<String>,
    pub token_uri: Option<String>,
}

impl View for ServiceAccountKey {
    type V = KeyModel;

    open spec fn view(&self) -> KeyModel {
        KeyModel {
            private_key: self.private_key@,
            client_email: self.client_email@,
            project_id: opt_view(self.project_id),
            token_uri: opt_view(self.token_uri),
        }
    }
}

fn optional_string_member(text: &str, name: &str) -> (r: Option<String>)
    ensures
        opt_view(r) == optional_member(text@, name@),
{
    match string_member(text, name) {
        Some(Some(s)) => Some(s),
        _ => None,
    }
}

impl ServiceAccountKey {
    /// Reads a key from the text of a JSON key file.
    pub fn parse(text: &str) -> (r: Result<ServiceAccountKey, ConfigError>)
        ensures
            match key_of_text(text@) {
                Some(k) => r matches Ok(key) && key@ == k,
                None => r == Err::<ServiceAccountKey, ConfigError>(ConfigError::MalformedKey),
            },
    {
        let private_key = string_member(text, "private_key");
        let client_email = string_member(text, "client_email");
        match (private_key, client_email) {
            (Some(Some(private_key)), Some(Some(client_email))) => {
                let project_id = optional_string_member(text, "project_id");
                let token_uri = optional_string_member(text, "token_uri");
                Ok(ServiceAccountKey { private_key, client_email, project_id, token_uri })
            },
            _ => Err(ConfigError::MalformedKey),
        }
    }
}

} // verus!
