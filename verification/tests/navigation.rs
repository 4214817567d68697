use kubetui::nav::{App, Command, Action, EditOutcome};
use kubetui::types::{Cluster, ClusterDetails, User, UserDetails, UserAuth, Context,
    ContextDetails, Config};

fn cluster(name: &str, server: &str) -> Cluster {
    Cluster {
        name: name.to_string(),
        cluster: ClusterDetails {
            server: server.to_string(),
            certificate_authority_data: None,
        },
    }
}

fn token_user(name: &str, tok: &str) -> User {
    User {
        name: name.to_string(),
        user: UserDetails { auth: UserAuth::Token { token: tok.to_string() } },
    }
}

fn context(name: &str, user: &str, cl: &str) -> Context {
    Context {
        name: name.to_string(),
        context: ContextDetails { user: user.to_string(), cluster: cl.to_string() },
    }
}

fn config(clusters: Vec<Cluster>, users: Vec<User>, contexts: Vec<Context>) -> Config {
    Config { clusters, users, contexts, current_context: None, preferences: None }
}

#[test]
fn next_returns_to_start_after_len_steps() {
    let cfg = config(
        vec![cluster("a", "s1"), cluster("b", "s2"), cluster("c", "s3")],
        vec![],
        vec![],
    );
    let mut app = App::new(cfg);
    app.next();
    assert_eq!(app.highlight, Some(0));
    let start = app.highlight;
    for _ in 0..3 {
        app.next();
    }
    assert_eq!(app.highlight, start);
}

#[test]
fn previous_returns_to_start_after_len_steps() {
    let cfg = config(vec![cluster("a", "s1"), cluster("b", "s2")], vec![], vec![]);
    let mut app = App::new(cfg);
    app.next();
    app.next();
    assert_eq!(app.highlight, Some(1));
    let start = app.highlight;
    for _ in 0..2 {
        app.previous();
    }
    assert_eq!(app.highlight, start);
}

#[test]
fn next_and_previous_wrap_circularly() {
    let cfg = config(vec![cluster("a", "s1"), cluster("b", "s2"), cluster("c", "s3")],
        vec![], vec![]);
    let mut app = App::new(cfg);
    app.next();
    app.previous();
    assert_eq!(app.highlight, Some(2));
    app.next();
    assert_eq!(app.highlight, Some(0));
}

#[test]
fn empty_list_navigation_does_not_panic() {
    let mut app = App::new(config(vec![], vec![], vec![]));
    app.next();
    assert_eq!(app.highlight, None);
    app.previous();
    assert_eq!(app.highlight, None);
    let act = app.dispatch(Command::Confirm);
    assert_eq!(act, Action::Stay);
    assert!(app.show_menu);
    assert!(app.selected_cluster.is_none());
}

#[test]
fn confirm_captures_selection_and_opens_menu() {
    let cfg = config(vec![cluster("a", "s1"), cluster("b", "s2")], vec![], vec![]);
    let mut app = App::new(cfg);
    app.next();
    app.next();
    let act = app.dispatch(Command::Confirm);
    assert_eq!(act, Action::Stay);
    assert!(app.show_menu);
    assert_eq!(app.menu_highlight, Some(0));
    assert_eq!(app.selected_cluster.as_ref().map(|c| c.name.as_str()), Some("b"));
}

#[test]
fn menu_highlight_cycles_over_two_entries() {
    let cfg = config(vec![cluster("a", "s1")], vec![], vec![]);
    let mut app = App::new(cfg);
    app.next();
    app.dispatch(Command::Confirm);
    assert_eq!(app.menu_highlight, Some(0));
    app.dispatch(Command::Next);
    assert_eq!(app.menu_highlight, Some(1));
    app.dispatch(Command::Next);
    assert_eq!(app.menu_highlight, Some(0));
    app.dispatch(Command::Previous);
    assert_eq!(app.menu_highlight, Some(1));
}

#[test]
fn cancel_closes_menu_without_side_effects() {
    let cfg = config(vec![cluster("a", "s1")], vec![], vec![]);
    let mut app = App::new(cfg);
    app.next();
    app.dispatch(Command::Confirm);
    assert!(app.show_menu);
    let act = app.dispatch(Command::Cancel);
    assert_eq!(act, Action::Stay);
    assert!(!app.show_menu);
    assert_eq!(app.config.clusters.len(), 1);
}

#[test]
fn quit_and_add_are_accepted_from_browsing() {
    let mut app = App::new(config(vec![], vec![], vec![]));
    assert_eq!(app.dispatch(Command::Quit), Action::Quit);
    assert_eq!(app.dispatch(Command::AddNew), Action::RunAdd);
}

#[test]
fn delete_only_cluster_keeps_other_lists() {
    let cfg = config(
        vec![cluster("dev", "https://dev.example")],
        vec![token_user("dev-user", "abc")],
        vec![context("dev-ctx", "dev-user", "dev")],
    );
    let mut app = App::new(cfg);
    app.next();
    app.dispatch(Command::Confirm);
    app.dispatch(Command::Next);
    assert_eq!(app.menu_highlight, Some(1));
    let act = app.dispatch(Command::Confirm);
    assert_eq!(act, Action::Save);
    assert!(app.config.clusters.is_empty());
    assert_eq!(app.config.users.len(), 1);
    assert_eq!(app.config.users[0].name, "dev-user");
    assert_eq!(app.config.contexts.len(), 1);
    assert_eq!(app.config.contexts[0].name, "dev-ctx");
    assert_eq!(app.highlight, Some(0));
    assert!(!app.show_menu);
}

#[test]
fn delete_middle_cluster_steps_highlight_back() {
    let cfg = config(vec![cluster("a", "s1"), cluster("b", "s2"), cluster("c", "s3")],
        vec![], vec![]);
    let mut app = App::new(cfg);
    app.next();
    app.next();
    app.dispatch(Command::Confirm);
    app.dispatch(Command::Next);
    app.dispatch(Command::Confirm);
    assert_eq!(app.config.clusters.len(), 2);
    assert_eq!(app.config.clusters[0].name, "a");
    assert_eq!(app.config.clusters[1].name, "c");
    assert_eq!(app.highlight, Some(0));
}

#[test]
fn delete_without_highlight_asks_for_no_save() {
    let mut app = App::new(config(vec![], vec![], vec![]));
    app.dispatch(Command::Confirm);
    assert!(app.show_menu);
    assert_eq!(app.highlight, None);
    app.dispatch(Command::Next);
    assert_eq!(app.menu_highlight, Some(1));
    let act = app.dispatch(Command::Confirm);
    assert_eq!(act, Action::Stay);
    assert!(!app.show_menu);
    assert!(app.config.clusters.is_empty());
}

#[test]
fn aborted_editor_leaves_model_untouched() {
    let cfg = config(
        vec![cluster("dev", "https://dev.example")],
        vec![token_user("dev-user", "abc")],
        vec![context("dev-ctx", "dev-user", "dev")],
    );
    let mut app = App::new(cfg);
    app.next();
    app.dispatch(Command::Confirm);
    let outcome = app.finish_edit(false, "");
    assert_eq!(outcome, EditOutcome::Aborted);
    assert!(!app.show_menu);
    assert!(app.needs_redraw);
    assert_eq!(app.config.clusters.len(), 1);
    assert_eq!(app.config.clusters[0].name, "dev");
    assert_eq!(app.config.clusters[0].cluster.server, "https://dev.example");
    assert_eq!(app.config.users.len(), 1);
    assert_eq!(app.config.contexts.len(), 1);
}

#[test]
fn unparseable_edit_leaves_model_untouched() {
    let cfg = config(vec![cluster("dev", "https://dev.example")], vec![], vec![]);
    let mut app = App::new(cfg);
    app.next();
    app.select();
    let outcome = app.finish_edit(true, "{ not yaml: [");
    assert_eq!(outcome, EditOutcome::ParseFailed);
    assert_eq!(app.config.clusters.len(), 1);
    assert_eq!(app.config.clusters[0].cluster.server, "https://dev.example");
}
