use kubetui::codec::{load_from_str, save_to_str, bundle_to_text, blank_document_text,
    ConfigError};
use kubetui::nav::{App, EditOutcome};
use kubetui::types::{Cluster, ClusterDetails, User, UserAuth, Context, Config, TempConfig};

const DOC: &str = "\
apiVersion: v1
kind: Config
clusters:
- name: dev
  cluster:
    server: https://dev.example
contexts:
- name: dev-ctx
  context:
    user: dev-user
    cluster: dev
users:
- name: dev-user
  user:
    token: abc
current-context: dev-ctx
foo: bar
";

fn config(clusters: Vec<Cluster>, users: Vec<User>, contexts: Vec<Context>) -> Config {
    Config { clusters, users, contexts, current_context: None, preferences: None }
}

fn cluster(name: &str, server: &str) -> Cluster {
    Cluster {
        name: name.to_string(),
        cluster: ClusterDetails {
            server: server.to_string(),
            certificate_authority_data: None,
        },
    }
}

#[test]
fn load_reads_every_modeled_field() {
    let cfg = load_from_str(DOC).expect("document should parse");
    assert_eq!(cfg.clusters.len(), 1);
    assert_eq!(cfg.clusters[0].name, "dev");
    assert_eq!(cfg.clusters[0].cluster.server, "https://dev.example");
    assert!(cfg.clusters[0].cluster.certificate_authority_data.is_none());
    assert_eq!(cfg.users.len(), 1);
    match &cfg.users[0].user.auth {
        UserAuth::Token { token } => assert_eq!(token, "abc"),
        _ => panic!("expected a token user"),
    }
    assert_eq!(cfg.contexts.len(), 1);
    assert_eq!(cfg.contexts[0].context.user, "dev-user");
    assert_eq!(cfg.contexts[0].context.cluster, "dev");
    assert_eq!(cfg.current_context.as_deref(), Some("dev-ctx"));
    assert!(cfg.preferences.is_none());
}

#[test]
fn load_reads_certificate_users_and_ca_data() {
    let text = "\
clusters:
- name: c
  cluster:
    server: https://c
    certificate-authority-data: Q0E=
users:
- name: u
  user:
    client-certificate-data: Q0VSVA==
    client-key-data: S0VZ
contexts: []
";
    let cfg = load_from_str(text).expect("document should parse");
    assert_eq!(
        cfg.clusters[0].cluster.certificate_authority_data.as_deref(),
        Some("Q0E=")
    );
    match &cfg.users[0].user.auth {
        UserAuth::Certificate { client_certificate_data, client_key_data } => {
            assert_eq!(client_certificate_data, "Q0VSVA==");
            assert_eq!(client_key_data, "S0VZ");
        },
        _ => panic!("expected a certificate user"),
    }
}

#[test]
fn load_rejects_missing_managed_list() {
    let text = "clusters: []\nusers: []\n";
    assert_eq!(load_from_str(text).unwrap_err(), ConfigError::Parse);
}

#[test]
fn load_rejects_non_mapping_document() {
    assert_eq!(load_from_str("- 1\n- 2\n").unwrap_err(), ConfigError::Parse);
}

#[test]
fn load_rejects_unparseable_text() {
    assert_eq!(load_from_str("{ not yaml: [").unwrap_err(), ConfigError::Parse);
}

#[test]
fn user_with_both_auth_shapes_fails() {
    let text = "\
clusters: []
contexts: []
users:
- name: u
  user:
    token: abc
    client-certificate-data: Q0VSVA==
    client-key-data: S0VZ
";
    assert_eq!(load_from_str(text).unwrap_err(), ConfigError::Parse);
}

#[test]
fn user_with_neither_auth_shape_fails() {
    let text = "\
clusters: []
contexts: []
users:
- name: u
  user:
    something-else: 1
";
    assert_eq!(load_from_str(text).unwrap_err(), ConfigError::Parse);
}

#[test]
fn user_with_partial_certificate_fails() {
    let text = "\
clusters: []
contexts: []
users:
- name: u
  user:
    client-certificate-data: Q0VSVA==
";
    assert_eq!(load_from_str(text).unwrap_err(), ConfigError::Parse);
}

#[test]
fn save_preserves_unknown_top_level_fields() {
    let cfg = load_from_str(DOC).expect("document should parse");
    let out = save_to_str(&cfg, DOC).expect("save should succeed");
    let v: serde_yaml::Value = serde_yaml::from_str(&out).expect("output should be valid");
    assert_eq!(v["foo"].as_str(), Some("bar"));
    assert_eq!(v["current-context"].as_str(), Some("dev-ctx"));
}

#[test]
fn save_preserves_nested_and_numeric_unknown_fields() {
    let existing = "\
clusters: []
users: []
contexts: []
extensions:
  count: 3
  flag: true
";
    let cfg = config(vec![], vec![], vec![]);
    let out = save_to_str(&cfg, existing).expect("save should succeed");
    let v: serde_yaml::Value = serde_yaml::from_str(&out).expect("output should be valid");
    assert_eq!(v["extensions"]["count"].as_i64(), Some(3));
    assert_eq!(v["extensions"]["flag"].as_bool(), Some(true));
}

#[test]
fn save_sets_defaults_only_when_absent() {
    let existing = "clusters: []\nusers: []\ncontexts: []\nfoo: bar\n";
    let cfg = config(vec![cluster("a", "s")], vec![], vec![]);
    let out = save_to_str(&cfg, existing).expect("save should succeed");
    let v: serde_yaml::Value = serde_yaml::from_str(&out).expect("output should be valid");
    assert_eq!(v["apiVersion"].as_str(), Some("v1"));
    assert_eq!(v["kind"].as_str(), Some("Config"));
    assert_eq!(v["foo"].as_str(), Some("bar"));
    assert_eq!(v["clusters"][0]["name"].as_str(), Some("a"));
}

#[test]
fn save_keeps_present_default_fields_untouched() {
    let existing = "apiVersion: v2beta\nkind: Special\nclusters: []\nusers: []\ncontexts: []\n";
    let cfg = config(vec![], vec![], vec![]);
    let out = save_to_str(&cfg, existing).expect("save should succeed");
    let v: serde_yaml::Value = serde_yaml::from_str(&out).expect("output should be valid");
    assert_eq!(v["apiVersion"].as_str(), Some("v2beta"));
    assert_eq!(v["kind"].as_str(), Some("Special"));
}

#[test]
fn save_requires_an_existing_parseable_document() {
    let cfg = config(vec![], vec![], vec![]);
    assert_eq!(save_to_str(&cfg, "{ not yaml: [").unwrap_err(), ConfigError::Parse);
}

#[test]
fn save_rejects_non_mapping_document_root() {
    let cfg = config(vec![cluster("a", "s")], vec![], vec![]);
    assert_eq!(save_to_str(&cfg, "- 1\n- 2\n").unwrap_err(), ConfigError::Parse);
    assert_eq!(save_to_str(&cfg, "just a scalar\n").unwrap_err(), ConfigError::Parse);
}

#[test]
fn edited_server_round_trips_through_save() {
    let cfg = load_from_str(DOC).expect("document should parse");
    let mut app = App::new(cfg);
    app.next();
    app.select();
    let mut bundle = app.selected_bundle().expect("a cluster is selected");
    bundle.cluster.cluster.server = "https://dev2.example".to_string();
    let edited = bundle_to_text(&bundle).expect("bundle should serialize");
    let outcome = app.finish_edit(true, &edited);
    assert_eq!(outcome, EditOutcome::Merged);
    let saved = save_to_str(&app.config, DOC).expect("save should succeed");
    let reloaded = load_from_str(&saved).expect("saved text should parse");
    assert_eq!(reloaded.clusters.len(), 1);
    assert_eq!(reloaded.clusters[0].name, "dev");
    assert_eq!(reloaded.clusters[0].cluster.server, "https://dev2.example");
    assert_eq!(reloaded.users.len(), 1);
    assert_eq!(reloaded.users[0].name, "dev-user");
    assert_eq!(reloaded.contexts.len(), 1);
    assert_eq!(reloaded.contexts[0].name, "dev-ctx");
}

#[test]
fn aborted_editor_save_path_is_never_reached() {
    let cfg = load_from_str(DOC).expect("document should parse");
    let mut app = App::new(cfg);
    app.next();
    app.select();
    let before = save_to_str(&app.config, DOC).expect("save should succeed");
    let outcome = app.finish_edit(false, "");
    assert_eq!(outcome, EditOutcome::Aborted);
    let after = save_to_str(&app.config, DOC).expect("save should succeed");
    assert_eq!(before, after);
}

#[test]
fn bundle_text_round_trips_unchanged() {
    let cfg = load_from_str(DOC).expect("document should parse");
    let mut app = App::new(cfg);
    app.next();
    app.select();
    let bundle = app.selected_bundle().expect("a cluster is selected");
    assert_eq!(bundle.cluster.name, "dev");
    assert_eq!(bundle.context.as_ref().map(|c| c.name.as_str()), Some("dev-ctx"));
    assert_eq!(bundle.user.as_ref().map(|u| u.name.as_str()), Some("dev-user"));
    let text = bundle_to_text(&bundle).expect("bundle should serialize");
    let outcome = app.finish_edit(true, &text);
    assert_eq!(outcome, EditOutcome::Merged);
    assert_eq!(app.config.clusters.len(), 1);
    assert_eq!(app.config.clusters[0].cluster.server, "https://dev.example");
    assert_eq!(app.config.users.len(), 1);
    assert_eq!(app.config.contexts.len(), 1);
}

#[test]
fn cluster_only_bundle_round_trips() {
    let b = TempConfig { cluster: cluster("solo", "https://solo"), context: None, user: None };
    let text = bundle_to_text(&b).expect("bundle should serialize");
    let cfg = config(vec![], vec![], vec![]);
    let mut app = App::new(cfg);
    let outcome = app.finish_edit(true, &text);
    assert_eq!(outcome, EditOutcome::Merged);
    assert_eq!(app.config.clusters.len(), 1);
    assert_eq!(app.config.clusters[0].name, "solo");
    assert!(app.config.users.is_empty());
    assert!(app.config.contexts.is_empty());
}

#[test]
fn blank_document_parses_to_empty_lists() {
    let text = blank_document_text().expect("blank document should serialize");
    let cfg = load_from_str(&text).expect("blank document should parse");
    assert!(cfg.clusters.is_empty());
    assert!(cfg.users.is_empty());
    assert!(cfg.contexts.is_empty());
}

#[test]
fn whole_document_add_appends_entries() {
    let cfg = load_from_str(DOC).expect("document should parse");
    let mut app = App::new(cfg);
    let authored = "\
clusters:
- name: extra
  cluster:
    server: https://extra
users: []
contexts: []
";
    let outcome = app.finish_add(true, authored);
    assert_eq!(outcome, EditOutcome::Merged);
    assert_eq!(app.config.clusters.len(), 2);
    assert_eq!(app.config.clusters[1].name, "extra");
}

#[test]
fn preferences_block_is_carried_through() {
    let text = "\
clusters: []
users: []
contexts: []
preferences:
  colors: true
";
    let cfg = load_from_str(text).expect("document should parse");
    assert!(cfg.preferences.is_some());
    let out = save_to_str(&cfg, text).expect("save should succeed");
    let v: serde_yaml::Value = serde_yaml::from_str(&out).expect("output should be valid");
    assert_eq!(v["preferences"]["colors"].as_bool(), Some(true));
}
