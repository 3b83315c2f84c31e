use charted_helm_plugin::auth::{Auth, AuthDocError, Context, Credential, resolve_auth_path};
use charted_helm_plugin::config::global::Global;
use charted_helm_plugin::config::registry::{ApiVersion, JoinUrlError, Registry};
use charted_helm_plugin::config::repository::{Publish, PublishError, Repository};
use charted_helm_plugin::config::{Config, ConfigPathError, Path, resolve_config_path};

#[test]
fn url_joins() {
    let registry = Registry {
        version: ApiVersion::default(),
        url: String::from("https://charts.noelware.org"),
    };

    assert_eq!(
        Ok(String::from("https://charts.noelware.org/v1/weow/fluff")),
        registry.join_url("weow/fluff")
    );
}

#[test]
fn display_url_resolves_the_version_segment() {
    let registry = Registry {
        version: ApiVersion::V1,
        url: String::from("https://charts.noelware.org"),
    };
    assert_eq!(Ok(String::from("https://charts.noelware.org/v1")), registry.display_url());
}

#[test]
fn url_join_rejects_unparseable_base() {
    let registry = Registry { version: ApiVersion::V1, url: String::from("not a url") };
    assert!(registry.join_url("weow/fluff") == Err(JoinUrlError::Parse));
}

#[test]
fn default_document_has_one_anonymous_default_credential() {
    let doc = Auth::default_document(String::from("/tmp/auth.yaml"));
    assert!(doc.current == Context::new("default"));
    assert_eq!(doc.credentials.len(), 1);
    assert!(doc.credentials[0].0 == Context::new("default"));
    assert!(
        doc.credentials[0].1
            == Credential {
                registry: String::from("https://charts.noelware.org/api/v1"),
                repr: None,
            }
    );
    assert_eq!(doc.opened_file_from, "/tmp/auth.yaml");
}

#[test]
fn default_document_current_credential_is_anonymous() {
    let doc = Auth::default_document(String::from("auth.yaml"));
    let credential = doc.current_credential().unwrap();
    assert!(credential.repr.is_none());
    assert_eq!(credential.registry, "https://charts.noelware.org/api/v1");
}

#[test]
fn missing_current_context_is_reported_as_corruption() {
    let doc = Auth::empty(Context::new("work"), String::from("auth.yaml"));
    assert!(doc.current_credential() == Err(AuthDocError::MissingDefaultContext));
}

#[test]
fn set_current_is_visible() {
    let mut doc = Auth::default_document(String::from("auth.yaml"));
    doc.set_current(Context::new("work"));
    assert!(doc.current == Context::new("work"));
    // nothing else moved
    assert_eq!(doc.credentials.len(), 1);
    assert_eq!(doc.opened_file_from, "auth.yaml");
}

#[test]
fn insert_credential_adds_and_replaces() {
    let mut doc = Auth::default_document(String::from("auth.yaml"));
    let work = Context::new("work");
    assert!(!doc.contains_context(&work));
    doc.insert_credential(
        work.clone(),
        Credential { registry: String::from("https://example.com/api"), repr: None },
    );
    assert!(doc.contains_context(&work));
    assert_eq!(doc.credentials.len(), 2);

    // replacing keeps the key count
    doc.insert_credential(
        work.clone(),
        Credential { registry: String::from("https://other.example/api"), repr: None },
    );
    assert_eq!(doc.credentials.len(), 2);
    let credential = doc.credential_of(&work).unwrap();
    assert_eq!(credential.registry, "https://other.example/api");
}

#[test]
fn publish_toggle_false_denies_everything() {
    let config = Config::empty(Global::default(), String::from(".charted.toml"));
    let repo = Repository {
        source: String::from("./charts/x"),
        publish: Publish::Toggle(false),
        readme: None,
    };
    assert!(repo.is_publish_allowed(&config, "default") == Ok(false));
    assert!(repo.is_publish_allowed(&config, "anything") == Ok(false));
}

#[test]
fn publish_toggle_true_allows_everything() {
    let config = Config::empty(Global::default(), String::from(".charted.toml"));
    let repo = Repository {
        source: String::from("./charts/x"),
        publish: Publish::Toggle(true),
        readme: None,
    };
    assert!(repo.is_publish_allowed(&config, "nowhere-declared") == Ok(true));
}

#[test]
fn publish_list_rejects_undeclared_registry() {
    let config = Config::empty(Global::default(), String::from(".charted.toml"));
    let repo = Repository {
        source: String::from("./charts/x"),
        publish: Publish::Registry(vec![String::from("a")]),
        readme: None,
    };
    assert!(
        repo.is_publish_allowed(&config, "a")
            == Err(PublishError::UnknownRegistry { name: String::from("a") })
    );
}

#[test]
fn publish_list_answers_membership_for_declared_registries() {
    let mut config = Config::empty(Global::default(), String::from(".charted.toml"));
    config.insert_registry(
        String::from("a"),
        Registry { version: ApiVersion::V1, url: String::from("https://a.example") },
    );
    config.insert_registry(
        String::from("b"),
        Registry { version: ApiVersion::V1, url: String::from("https://b.example") },
    );
    let repo = Repository {
        source: String::from("./charts/x"),
        publish: Publish::Registry(vec![String::from("a")]),
        readme: None,
    };
    assert!(repo.is_publish_allowed(&config, "a") == Ok(true));
    assert!(repo.is_publish_allowed(&config, "b") == Ok(false));
}

#[test]
fn publish_is_truthy_only_for_the_allow_all_toggle() {
    assert!(Publish::Toggle(true).is_truthy());
    assert!(!Publish::Toggle(false).is_truthy());
    assert!(!Publish::Registry(vec![]).is_truthy());
    assert!(Publish::default().is_truthy());
}

#[test]
fn ensure_default_registry_injects_when_absent() {
    let mut config = Config::empty(Global::default(), String::from(".charted.toml"));
    config.ensure_default_registry();
    let default = config.registry_of("default").unwrap();
    assert!(default.version == ApiVersion::V1);
    assert_eq!(default.url, "https://charts.noelware.org/api");
}

#[test]
fn ensure_default_registry_keeps_a_declared_one() {
    let mut config = Config::empty(Global::default(), String::from(".charted.toml"));
    config.insert_registry(
        String::from("default"),
        Registry { version: ApiVersion::V1, url: String::from("https://mine.example") },
    );
    config.ensure_default_registry();
    assert_eq!(config.registries.len(), 1);
    let default = config.registry_of("default").unwrap();
    assert_eq!(default.url, "https://mine.example");
}

#[test]
fn repositories_are_keyed_by_path() {
    let mut config = Config::empty(Global::default(), String::from(".charted.toml"));
    let path = Path::parse("noel/ume").unwrap();
    assert!(!config.contains_repository(&path));
    config.insert_repository(
        path.clone(),
        Repository {
            source: String::from("./charts/ume"),
            publish: Publish::default(),
            readme: None,
        },
    );
    assert!(config.contains_repository(&path));
    let entry = config.repository_of(&path).unwrap();
    assert_eq!(entry.source, "./charts/ume");
    let other = Path::parse("noel/other").unwrap();
    assert!(config.repository_of(&other).is_none());
}

#[test]
fn config_path_search_fails_with_not_found() {
    assert!(resolve_config_path(None, false, false) == Err(ConfigPathError::NotFound));
}

#[test]
fn config_path_search_prefers_the_hidden_candidate() {
    assert!(resolve_config_path(None, true, true) == Ok(String::from("./.charted.toml")));
    assert!(resolve_config_path(None, false, true) == Ok(String::from("./charted.toml")));
}

#[test]
fn config_path_explicit_wins() {
    assert!(
        resolve_config_path(Some(String::from("custom.toml")), true, true)
            == Ok(String::from("custom.toml"))
    );
}

#[test]
fn auth_path_defaults_under_the_config_directory() {
    assert_eq!(
        resolve_auth_path(None, "/home/me/.config"),
        "/home/me/.config/Noelware/charted-helm-plugin/auth.yaml"
    );
    assert_eq!(resolve_auth_path(Some(String::from("here.yaml")), "/ignored"), "here.yaml");
}
