use kubetui::merge::{merge_bundle, merge_whole, build_edit_bundle};
use kubetui::types::{Cluster, ClusterDetails, User, UserDetails, UserAuth, Context,
    ContextDetails, Config, TempConfig};

fn cluster(name: &str, server: &str) -> Cluster {
    Cluster {
        name: name.to_string(),
        cluster: ClusterDetails {
            server: server.to_string(),
            certificate_authority_data: None,
        },
    }
}

fn token_user(name: &str, tok: &str) -> User {
    User {
        name: name.to_string(),
        user: UserDetails { auth: UserAuth::Token { token: tok.to_string() } },
    }
}

fn context(name: &str, user: &str, cl: &str) -> Context {
    Context {
        name: name.to_string(),
        context: ContextDetails { user: user.to_string(), cluster: cl.to_string() },
    }
}

fn config(clusters: Vec<Cluster>, users: Vec<User>, contexts: Vec<Context>) -> Config {
    Config { clusters, users, contexts, current_context: None, preferences: None }
}

fn cluster_names(c: &Config) -> Vec<String> {
    c.clusters.iter().map(|x| x.name.clone()).collect()
}

fn servers(c: &Config) -> Vec<String> {
    c.clusters.iter().map(|x| x.cluster.server.clone()).collect()
}

fn bundle(c: Cluster, ctx: Option<Context>, u: Option<User>) -> TempConfig {
    TempConfig { cluster: c, context: ctx, user: u }
}

#[test]
fn merge_bundle_twice_equals_once() {
    let mut cfg = config(
        vec![cluster("a", "s1"), cluster("b", "s2")],
        vec![token_user("u1", "t1")],
        vec![context("c1", "u1", "a")],
    );
    let b = bundle(
        cluster("b", "s2-new"),
        Some(context("c1", "u1", "b")),
        Some(token_user("u1", "t1-new")),
    );
    let b2 = bundle(
        cluster("b", "s2-new"),
        Some(context("c1", "u1", "b")),
        Some(token_user("u1", "t1-new")),
    );
    merge_bundle(&mut cfg, b);
    let names_once = cluster_names(&cfg);
    let servers_once = servers(&cfg);
    let users_once = cfg.users.len();
    let ctxs_once = cfg.contexts.len();
    merge_bundle(&mut cfg, b2);
    assert_eq!(cluster_names(&cfg), names_once);
    assert_eq!(servers(&cfg), servers_once);
    assert_eq!(cfg.users.len(), users_once);
    assert_eq!(cfg.contexts.len(), ctxs_once);
    match &cfg.users[0].user.auth {
        UserAuth::Token { token } => assert_eq!(token, "t1-new"),
        _ => panic!("expected a token user"),
    }
    assert_eq!(cfg.contexts[0].context.cluster, "b");
}

#[test]
fn merge_bundle_appends_unknown_name() {
    let mut cfg = config(vec![cluster("a", "s1")], vec![], vec![]);
    merge_bundle(&mut cfg, bundle(cluster("new", "s9"), None, None));
    assert_eq!(cluster_names(&cfg), vec!["a".to_string(), "new".to_string()]);
}

#[test]
fn merge_bundle_replaces_in_place() {
    let mut cfg = config(
        vec![cluster("a", "s1"), cluster("b", "s2"), cluster("c", "s3")],
        vec![],
        vec![],
    );
    merge_bundle(&mut cfg, bundle(cluster("b", "s2-edited"), None, None));
    assert_eq!(cfg.clusters.len(), 3);
    assert_eq!(cfg.clusters[1].name, "b");
    assert_eq!(cfg.clusters[1].cluster.server, "s2-edited");
    assert_eq!(cfg.clusters[0].cluster.server, "s1");
    assert_eq!(cfg.clusters[2].cluster.server, "s3");
}

#[test]
fn merge_bundle_without_context_or_user_leaves_lists() {
    let mut cfg = config(
        vec![cluster("a", "s1")],
        vec![token_user("u1", "t1")],
        vec![context("c1", "u1", "a")],
    );
    merge_bundle(&mut cfg, bundle(cluster("a", "s1b"), None, None));
    assert_eq!(cfg.users.len(), 1);
    assert_eq!(cfg.contexts.len(), 1);
    assert_eq!(cfg.clusters[0].cluster.server, "s1b");
}

#[test]
fn merge_whole_appends_without_dedup() {
    let mut cfg = config(vec![cluster("a", "s1")], vec![token_user("u", "t")], vec![]);
    let inc = config(
        vec![cluster("a", "s1-dup"), cluster("b", "s2")],
        vec![],
        vec![context("c", "u", "a")],
    );
    merge_whole(&mut cfg, inc);
    assert_eq!(
        cluster_names(&cfg),
        vec!["a".to_string(), "a".to_string(), "b".to_string()]
    );
    assert_eq!(cfg.users.len(), 1);
    assert_eq!(cfg.contexts.len(), 1);
}

#[test]
fn bundle_resolves_context_by_cluster_reference() {
    let cfg = config(
        vec![cluster("dev", "https://dev.example")],
        vec![token_user("dev-user", "abc"), token_user("other", "zzz")],
        vec![
            context("other-ctx", "other", "prod"),
            context("dev-ctx", "dev-user", "dev"),
        ],
    );
    let b = build_edit_bundle(&cfg, &cfg.clusters[0].clone());
    assert_eq!(b.cluster.name, "dev");
    let ctx = b.context.expect("context should resolve");
    assert_eq!(ctx.name, "dev-ctx");
    let user = b.user.expect("user should resolve");
    assert_eq!(user.name, "dev-user");
}

#[test]
fn bundle_tolerates_dangling_references() {
    let cfg = config(
        vec![cluster("dev", "https://dev.example")],
        vec![],
        vec![context("dev-ctx", "missing-user", "dev")],
    );
    let b = build_edit_bundle(&cfg, &cfg.clusters[0].clone());
    assert_eq!(b.context.as_ref().map(|c| c.name.as_str()), Some("dev-ctx"));
    assert!(b.user.is_none());
}

#[test]
fn bundle_without_matching_context_is_cluster_only() {
    let cfg = config(vec![cluster("dev", "s")], vec![], vec![context("c", "u", "prod")]);
    let b = build_edit_bundle(&cfg, &cfg.clusters[0].clone());
    assert!(b.context.is_none());
    assert!(b.user.is_none());
}

#[test]
fn find_and_remove_by_position() {
    let mut cfg = config(vec![cluster("a", "s1"), cluster("b", "s2")], vec![], vec![]);
    assert_eq!(cfg.find_cluster(&"b".to_string()), Some(1));
    assert_eq!(cfg.find_cluster(&"zzz".to_string()), None);
    cfg.remove_cluster_at(5);
    assert_eq!(cfg.clusters.len(), 2);
    cfg.remove_cluster_at(0);
    assert_eq!(cluster_names(&cfg), vec!["b".to_string()]);
}

#[test]
fn upsert_user_and_context_by_name() {
    let mut cfg = config(
        vec![],
        vec![token_user("u1", "t1"), token_user("u2", "t2")],
        vec![context("c1", "u1", "a")],
    );
    cfg.upsert_user(token_user("u2", "t2-new"));
    assert_eq!(cfg.users.len(), 2);
    match &cfg.users[1].user.auth {
        UserAuth::Token { token } => assert_eq!(token, "t2-new"),
        _ => panic!("expected a token user"),
    }
    cfg.upsert_context(context("c2", "u2", "b"));
    assert_eq!(cfg.contexts.len(), 2);
    assert_eq!(cfg.contexts[1].name, "c2");
}
