use ratterm_core::app::input_k8s::{action_for, K8sAction, K8sView};
use ratterm_core::app::k8s::{
    is_fatal, ConnectedCluster, ContextEntry, DeploymentView, K8sError, K8sManager, Listing,
    PodView, ResourceKind,
};
use ratterm_core::app::keys::{KeyCode, KeyEvent, KeyModifiers};
use ratterm_core::app::state::App;

fn key(code: KeyCode) -> KeyEvent {
    KeyEvent::new(code, KeyModifiers::none())
}

#[test]
fn a_listing_reports_its_own_length() {
    assert_eq!(Listing::Pods(Vec::new()).len(), 0);
    assert_eq!(Listing::Nodes(Vec::new()).len(), 0);
}

#[test]
fn applying_a_listing_fills_the_matching_panel() {
    let mut manager = K8sManager::new(Vec::new());
    Listing::Pods(Vec::new()).apply(&mut manager);
    assert!(manager.pods().is_open());
    assert!(!manager.nodes().is_open(), "only the matching one");
}

#[test]
fn an_unreachable_cluster_is_a_fatal_error_and_a_missing_pod_is_not() {
    assert!(is_fatal(&K8sError::NoKubeconfig));
    assert!(is_fatal(&K8sError::Unreachable {
        context: "dev".to_string(),
        reason: "connection refused".to_string(),
    }));
    assert!(!is_fatal(&K8sError::UnknownContext("dev".to_string())));
}

#[test]
fn navigation_works_on_both_screens() {
    for view in [K8sView::Contexts, K8sView::Resources] {
        assert_eq!(action_for(key(KeyCode::Up), view, false), K8sAction::Up);
        assert_eq!(action_for(key(KeyCode::Down), view, false), K8sAction::Down);
        assert_eq!(
            action_for(key(KeyCode::Char('j')), view, false),
            K8sAction::Down,
            "vim keys work here too"
        );
        assert_eq!(action_for(key(KeyCode::Home), view, false), K8sAction::First);
        assert_eq!(action_for(key(KeyCode::End), view, false), K8sAction::Last);
    }
}

#[test]
fn escape_closes_from_either_screen() {
    assert_eq!(
        action_for(key(KeyCode::Esc), K8sView::Contexts, false),
        K8sAction::Close
    );
    assert_eq!(
        action_for(key(KeyCode::Esc), K8sView::Resources, false),
        K8sAction::Close
    );
}

#[test]
fn backspace_goes_back_a_screen_only_where_there_is_one() {
    assert_eq!(
        action_for(key(KeyCode::Backspace), K8sView::Resources, false),
        K8sAction::Back
    );
    assert_eq!(
        action_for(key(KeyCode::Backspace), K8sView::Contexts, false),
        K8sAction::Ignored,
        "there is nothing behind the context list"
    );
}

#[test]
fn the_resource_keys_do_nothing_on_the_context_screen() {
    for code in [
        KeyCode::Char('r'),
        KeyCode::Char('/'),
        KeyCode::Tab,
        KeyCode::Char('+'),
    ] {
        assert_eq!(
            action_for(key(code), K8sView::Contexts, false),
            K8sAction::Ignored,
            "{code:?}"
        );
    }
}

#[test]
fn the_resource_keys_work_on_the_resource_screen() {
    let view = K8sView::Resources;
    assert_eq!(action_for(key(KeyCode::Tab), view, false), K8sAction::NextKind);
    assert_eq!(
        action_for(key(KeyCode::BackTab), view, false),
        K8sAction::PreviousKind
    );
    assert_eq!(
        action_for(key(KeyCode::Char('r')), view, false),
        K8sAction::Refresh
    );
    assert_eq!(
        action_for(key(KeyCode::Char('/')), view, false),
        K8sAction::StartFilter
    );
    assert_eq!(
        action_for(key(KeyCode::Char('+')), view, false),
        K8sAction::ScaleUp
    );
    assert_eq!(
        action_for(key(KeyCode::Char('-')), view, false),
        K8sAction::ScaleDown
    );
    assert_eq!(
        action_for(key(KeyCode::Char('R')), view, false),
        K8sAction::Restart
    );
    assert_eq!(
        action_for(key(KeyCode::Delete), view, false),
        K8sAction::DeletePod
    );
}

#[test]
fn a_filter_can_contain_the_letters_that_are_otherwise_commands() {
    let view = K8sView::Resources;
    for c in ['r', 'j', 'k', 'd', 'g', 'R', '+', '-'] {
        assert_eq!(
            action_for(key(KeyCode::Char(c)), view, true),
            K8sAction::FilterChar(c),
            "typing {c} while filtering"
        );
    }
}

#[test]
fn filtering_keeps_the_navigation_keys_that_have_no_character() {
    let view = K8sView::Resources;
    assert_eq!(action_for(key(KeyCode::Up), view, true), K8sAction::Up);
    assert_eq!(action_for(key(KeyCode::Down), view, true), K8sAction::Down);
}

#[test]
fn escape_while_filtering_clears_rather_than_closing() {
    assert_eq!(
        action_for(key(KeyCode::Esc), K8sView::Resources, true),
        K8sAction::FilterClear
    );
}

#[test]
fn enter_while_filtering_finishes_the_filter() {
    assert_eq!(
        action_for(key(KeyCode::Enter), K8sView::Resources, true),
        K8sAction::FilterDone
    );
}

#[test]
fn backspace_while_filtering_edits_the_text() {
    assert_eq!(
        action_for(key(KeyCode::Backspace), K8sView::Resources, true),
        K8sAction::FilterBackspace
    );
}

#[test]
fn a_control_combination_is_not_typed_into_the_filter() {
    let mut event = key(KeyCode::Char('c'));
    event.modifiers = KeyModifiers::control();
    assert_eq!(
        action_for(event, K8sView::Resources, true),
        K8sAction::Ignored,
        "ctrl+c should not appear in the filter box"
    );
}

#[test]
fn enter_confirms_on_both_screens() {
    assert_eq!(
        action_for(key(KeyCode::Enter), K8sView::Contexts, false),
        K8sAction::Confirm
    );
    assert_eq!(
        action_for(key(KeyCode::Enter), K8sView::Resources, false),
        K8sAction::Confirm
    );
}

#[test]
fn an_unmapped_key_is_ignored_rather_than_misread() {
    assert_eq!(
        action_for(key(KeyCode::F(9)), K8sView::Resources, false),
        K8sAction::Ignored
    );
}

fn context(name: &str, defined: bool) -> ContextEntry {
    ContextEntry { name: name.to_string(), cluster_defined: defined }
}

#[test]
fn opening_the_screens_lists_the_contexts_or_says_why_not() {
    let mut app = App::new(80, 24);
    assert!(!app.is_k8s_manager_open());
    app.open_k8s_manager(Ok(vec![context("dev", true), context("prod", false)]));
    assert!(app.is_k8s_manager_open());
    assert_eq!(app.status(), "Kubernetes");
    assert!(app.k8s_is_choosing_context());
    assert_eq!(app.k8s_manager().map(|m| m.contexts.len()), Some(2));

    app.close_k8s_manager();
    assert!(!app.is_k8s_manager_open());
    assert_eq!(app.status(), "Kubernetes closed");

    app.open_k8s_manager(Err(K8sError::NoKubeconfig));
    assert_eq!(
        app.k8s_manager().and_then(|m| m.error.clone()),
        Some("no kubeconfig found".to_string())
    );
}

#[test]
fn connecting_needs_a_selected_context_with_a_defined_cluster() {
    let mut app = App::new(80, 24);
    assert_eq!(app.k8s_connect_selected(), None);

    app.open_k8s_manager(Ok(Vec::new()));
    assert_eq!(app.k8s_connect_selected(), None);
    assert_eq!(
        app.k8s_manager().and_then(|m| m.error.clone()),
        Some("No context selected".to_string())
    );

    app.open_k8s_manager(Ok(vec![context("broken", false), context("dev", true)]));
    assert_eq!(app.k8s_connect_selected(), None);
    assert_eq!(
        app.k8s_manager().and_then(|m| m.error.clone()),
        Some("context 'broken' names a cluster the kubeconfig does not define; fix the clusters entry".to_string())
    );

    if let Some(m) = app.k8s_manager_mut() {
        m.contexts.select(1);
    }
    assert_eq!(app.k8s_connect_selected(), Some("dev".to_string()));
    assert_eq!(
        app.k8s_manager().map(|m| m.status.clone()),
        Some("Connecting to dev...".to_string())
    );

    let request = app
        .k8s_connect_finished(Ok(ConnectedCluster {
            context: "dev".to_string(),
            namespaces: vec!["default".to_string()],
        }))
        .expect("a listing is asked for");
    assert_eq!(request.kind, ResourceKind::Pods);
    assert_eq!(request.namespace, None);
    assert!(!app.k8s_is_choosing_context());
}

#[test]
fn listings_fill_panels_and_a_lost_cluster_disconnects() {
    let mut app = App::new(80, 24);
    app.open_k8s_manager(Ok(vec![context("dev", true)]));
    assert!(app.k8s_refresh().is_none());
    assert_eq!(
        app.k8s_manager().and_then(|m| m.error.clone()),
        Some("Not connected to a cluster".to_string())
    );
    app.k8s_connect_finished(Ok(ConnectedCluster {
        context: "dev".to_string(),
        namespaces: Vec::new(),
    }));

    app.k8s_listing_arrived(Ok(Listing::Pods(vec![
        PodView { name: "web-1".to_string(), namespace: "default".to_string() },
        PodView { name: "web-2".to_string(), namespace: "default".to_string() },
    ])));
    let m = app.k8s_manager().expect("open");
    assert!(m.pods().is_open());
    assert_eq!(m.pods().len(), 2);
    assert_eq!(m.status, "2 pods");
    assert!(m.error.is_none());

    app.k8s_listing_arrived(Err(K8sError::Request("pods \"x\" not found".to_string())));
    assert!(app.k8s_manager().map(|m| m.connected.is_some()).unwrap_or(false));

    app.k8s_listing_arrived(Err(K8sError::Unreachable {
        context: "dev".to_string(),
        reason: "timeout".to_string(),
    }));
    let m = app.k8s_manager().expect("open");
    assert!(m.connected.is_none());
    assert_eq!(
        m.error,
        Some("Disconnected: cluster 'dev' unreachable: timeout".to_string())
    );
    assert!(app.k8s_is_choosing_context());
}

#[test]
fn kinds_cycle_and_actions_target_the_selected_row() {
    let mut app = App::new(80, 24);
    app.open_k8s_manager(Ok(vec![context("dev", true)]));
    app.k8s_connect_finished(Ok(ConnectedCluster {
        context: "dev".to_string(),
        namespaces: Vec::new(),
    }));

    assert!(app.k8s_delete_selected_pod().is_none());
    assert_eq!(
        app.k8s_manager().and_then(|m| m.error.clone()),
        Some("Select a pod to delete".to_string())
    );

    let request = app.k8s_next_kind().expect("connected");
    assert_eq!(request.kind, ResourceKind::Deployments);
    app.k8s_listing_arrived(Ok(Listing::Deployments(vec![DeploymentView {
        name: "api".to_string(),
        namespace: "prod".to_string(),
        desired: 3,
    }])));
    let target = app.k8s_restart_selected().expect("a deployment is selected");
    assert_eq!(target.name, "api");
    assert_eq!(target.namespace, "prod");

    let again = app.k8s_action_finished(Ok(()), "Restarted api".to_string());
    assert!(again.is_some());
    assert_eq!(app.k8s_manager().map(|m| m.status.clone()), Some("Restarted api".to_string()));

    app.k8s_action_finished(Err(K8sError::Request("forbidden".to_string())), "x".to_string());
    assert_eq!(
        app.k8s_manager().and_then(|m| m.error.clone()),
        Some("forbidden".to_string())
    );

    assert_eq!(app.k8s_previous_kind().map(|r| r.kind), Some(ResourceKind::Pods));
    assert_eq!(app.k8s_previous_kind().map(|r| r.kind), Some(ResourceKind::Events));
    assert_eq!(ResourceKind::Events.label(), "Events");

    app.k8s_show_contexts();
    assert!(app.k8s_is_choosing_context());
    app.k8s_show_resources();
    assert!(!app.k8s_is_choosing_context());
}

#[test]
fn the_resource_screen_needs_a_connection() {
    let mut app = App::new(80, 24);
    app.open_k8s_manager(Ok(Vec::new()));
    app.k8s_show_resources();
    assert!(app.k8s_is_choosing_context());
    assert_eq!(
        app.k8s_manager().and_then(|m| m.error.clone()),
        Some("Connect to a context first".to_string())
    );
}

#[test]
fn errors_describe_themselves() {
    assert_eq!(
        K8sError::SshTunnel { host: "bastion".to_string(), reason: "refused".to_string() }.message(),
        "SSH tunnel to bastion failed: refused"
    );
    assert_eq!(
        K8sError::UnknownContext("qa".to_string()).message(),
        "unknown context 'qa'"
    );
}

fn app_with_deployment(desired: i32) -> App {
    let mut app = App::new(80, 24);
    app.open_k8s_manager(Ok(vec![context("dev", true)]));
    app.k8s_connect_finished(Ok(ConnectedCluster {
        context: "dev".to_string(),
        namespaces: Vec::new(),
    }));
    app.k8s_next_kind();
    app.k8s_listing_arrived(Ok(Listing::Deployments(vec![DeploymentView {
        name: "api".to_string(),
        namespace: "prod".to_string(),
        desired,
    }])));
    app
}

#[test]
fn scaling_moves_one_replica_within_the_bounds() {
    let mut app = app_with_deployment(3);
    let up = app.k8s_scale_selected(true, 10).expect("scalable");
    assert_eq!(up.object.name, "api");
    assert_eq!(up.object.namespace, "prod");
    assert_eq!(up.replicas, 4);
    assert_eq!(up.done, "Scaled api to 4");
    let down = app.k8s_scale_selected(false, 10).expect("scalable");
    assert_eq!(down.replicas, 2);
    assert_eq!(down.done, "Scaled api to 2");
}

#[test]
fn scaling_past_a_bound_only_reports_it() {
    let mut app = app_with_deployment(0);
    assert!(app.k8s_scale_selected(false, 10).is_none());
    assert_eq!(
        app.k8s_manager().map(|m| m.status.clone()),
        Some("api is already at 0".to_string())
    );
    let mut app = app_with_deployment(10);
    assert!(app.k8s_scale_selected(true, 10).is_none());
    assert_eq!(
        app.k8s_manager().map(|m| m.status.clone()),
        Some("api is already at 10".to_string())
    );
}

#[test]
fn scaling_needs_a_selected_deployment() {
    let mut app = App::new(80, 24);
    app.open_k8s_manager(Ok(vec![context("dev", true)]));
    app.k8s_connect_finished(Ok(ConnectedCluster {
        context: "dev".to_string(),
        namespaces: Vec::new(),
    }));
    assert!(app.k8s_scale_selected(true, 10).is_none());
    assert_eq!(
        app.k8s_manager().and_then(|m| m.error.clone()),
        Some("Select a deployment to scale".to_string())
    );
}
