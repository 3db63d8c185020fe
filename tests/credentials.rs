use subby::builder::{Ambient, KeyFileSignal, UnbuiltPubSub};
use subby::client::TokenSource;
use subby::credentials::ServiceAccountKey;
use subby::error::ConfigError;

const KEY_WITH_PROJECT: &str = r#"{"private_key":"x","client_email":"a@b","project_id":"proj-1"}"#;
const KEY_WITHOUT_PROJECT: &str = r#"{"private_key":"y","client_email":"c@d"}"#;

fn ambient(key_file: KeyFileSignal, project_env: Option<&str>, metadata_project: Option<&str>) -> Ambient {
    Ambient {
        key_file,
        project_env: project_env.map(|s| s.to_string()),
        metadata_project: metadata_project.map(|s| s.to_string()),
    }
}

#[test]
fn nothing_discoverable_gives_no_credentials() {
    let config = UnbuiltPubSub::new();
    let a = ambient(KeyFileSignal::Unset, None, None);
    assert!(config.needs_metadata_probe(&a.key_file));
    let r = config.build(&a);
    assert_eq!(r.err(), Some(ConfigError::NoCredentials));
}

#[test]
fn key_file_project_id_is_used() {
    let config = UnbuiltPubSub::new();
    let a = ambient(KeyFileSignal::Contents(KEY_WITH_PROJECT.to_string()), None, None);
    let client = config.build(&a).unwrap();
    assert_eq!(client.project_id(), "proj-1");
    match client.source() {
        TokenSource::ServiceAccount(key) => {
            assert_eq!(key.private_key, "x");
            assert_eq!(key.client_email, "a@b");
        }
        TokenSource::ManagedMetadata => panic!("expected a service account"),
    }
}

#[test]
fn explicit_key_wins_over_metadata_and_key_file() {
    let mut config = UnbuiltPubSub::new();
    config.set_sa_key(KEY_WITHOUT_PROJECT).unwrap();
    let key_file = KeyFileSignal::Contents(KEY_WITH_PROJECT.to_string());
    assert!(!config.needs_metadata_probe(&key_file));
    let a = ambient(key_file, None, Some("meta-proj"));
    let r = config.build(&a);
    assert_eq!(r.err(), Some(ConfigError::NoProjectId));

    let mut config = UnbuiltPubSub::new();
    config.set_sa_key(KEY_WITH_PROJECT).unwrap();
    let a = ambient(KeyFileSignal::Unreadable, None, Some("meta-proj"));
    let client = config.build(&a).unwrap();
    assert!(matches!(client.source(), TokenSource::ServiceAccount(_)));
    assert_eq!(client.project_id(), "proj-1");
}

#[test]
fn key_file_wins_over_metadata() {
    let config = UnbuiltPubSub::new();
    let a = ambient(KeyFileSignal::Contents(KEY_WITH_PROJECT.to_string()), None, Some("meta-proj"));
    let client = config.build(&a).unwrap();
    assert!(matches!(client.source(), TokenSource::ServiceAccount(_)));
    assert_eq!(client.project_id(), "proj-1");
}

#[test]
fn metadata_is_used_when_nothing_else_is_there() {
    let config = UnbuiltPubSub::new();
    let a = ambient(KeyFileSignal::Unset, None, Some("meta-proj"));
    let client = config.build(&a).unwrap();
    assert!(matches!(client.source(), TokenSource::ManagedMetadata));
    assert_eq!(client.project_id(), "meta-proj");
}

#[test]
fn explicit_project_wins_over_every_discovered_one() {
    let mut config = UnbuiltPubSub::new();
    config.set_project_id("mine".to_string());
    let a = ambient(KeyFileSignal::Contents(KEY_WITH_PROJECT.to_string()), Some("env-proj"), None);
    assert_eq!(config.build(&a).unwrap().project_id(), "mine");

    let mut config = UnbuiltPubSub::new();
    config.set_project_id("mine".to_string());
    let a = ambient(KeyFileSignal::Unset, Some("env-proj"), Some("meta-proj"));
    assert_eq!(config.build(&a).unwrap().project_id(), "mine");
}

#[test]
fn environment_project_wins_over_key_and_metadata() {
    let config = UnbuiltPubSub::new();
    let a = ambient(KeyFileSignal::Contents(KEY_WITH_PROJECT.to_string()), Some("env-proj"), None);
    assert_eq!(config.build(&a).unwrap().project_id(), "env-proj");

    let config = UnbuiltPubSub::new();
    let a = ambient(KeyFileSignal::Unset, Some("env-proj"), Some("meta-proj"));
    assert_eq!(config.build(&a).unwrap().project_id(), "env-proj");
}

#[test]
fn unreadable_key_file_is_an_error() {
    let config = UnbuiltPubSub::new();
    let a = ambient(KeyFileSignal::Unreadable, None, Some("meta-proj"));
    assert_eq!(config.build(&a).err(), Some(ConfigError::KeyFileUnreadable));
}

#[test]
fn malformed_key_file_is_an_error() {
    let config = UnbuiltPubSub::new();
    let a = ambient(KeyFileSignal::Contents("not json".to_string()), None, Some("meta-proj"));
    assert_eq!(config.build(&a).err(), Some(ConfigError::MalformedKey));
}

#[test]
fn key_without_project_and_no_override_has_no_project_id() {
    let config = UnbuiltPubSub::new();
    let a = ambient(KeyFileSignal::Contents(KEY_WITHOUT_PROJECT.to_string()), None, None);
    assert_eq!(config.build(&a).err(), Some(ConfigError::NoProjectId));
}

#[test]
fn set_sa_key_rejects_text_without_a_key() {
    let mut config = UnbuiltPubSub::new();
    assert_eq!(config.set_sa_key(r#"{"private_key":"x"}"#), Err(ConfigError::MalformedKey));
    assert!(config.needs_metadata_probe(&KeyFileSignal::Unset));
}

#[test]
fn parse_reads_every_field() {
    let key = ServiceAccountKey::parse(
        r#"{"private_key":"pk","client_email":"e@f","project_id":"p","token_uri":"https://t"}"#,
    )
    .unwrap();
    assert_eq!(key.private_key, "pk");
    assert_eq!(key.client_email, "e@f");
    assert_eq!(key.project_id.as_deref(), Some("p"));
    assert_eq!(key.token_uri.as_deref(), Some("https://t"));

    let key = ServiceAccountKey::parse(KEY_WITHOUT_PROJECT).unwrap();
    assert_eq!(key.project_id, None);
    assert_eq!(key.token_uri, None);
}

#[test]
fn parse_rejects_missing_or_mistyped_fields() {
    assert_eq!(ServiceAccountKey::parse(r#"{"client_email":"a@b"}"#).err(), Some(ConfigError::MalformedKey));
    assert_eq!(ServiceAccountKey::parse(r#"{"private_key":1,"client_email":"a@b"}"#).err(), Some(ConfigError::MalformedKey));
    assert_eq!(ServiceAccountKey::parse(r#"["private_key"]"#).err(), Some(ConfigError::MalformedKey));
    assert_eq!(ServiceAccountKey::parse("").err(), Some(ConfigError::MalformedKey));
}
