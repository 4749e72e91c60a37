use ratterm_core::app::docker_hosts::{
    docker_credentials_login, docker_host_choice, DockerHost, HostChoice, HostDisplay, ListedHost,
    SavedLogin,
};
use ratterm_core::app::state::App;

fn remote(id: Option<u32>, creds: bool) -> HostDisplay {
    HostDisplay {
        display_name: "Build box".to_string(),
        is_local: false,
        has_credentials: creds,
        host_id: id,
    }
}

fn login(user: &str, password: Option<&str>) -> SavedLogin {
    SavedLogin {
        hostname: "10.0.0.5".to_string(),
        port: 2222,
        username: user.to_string(),
        password: password.map(|p| p.to_string()),
    }
}

fn status_of(choice: &HostChoice) -> String {
    match choice {
        HostChoice::AskCredentials { status, .. } => status.clone(),
        HostChoice::Connect { status, .. } => status.clone(),
        HostChoice::Failed(s) => s.clone(),
        other => panic!("no status in {:?}", other),
    }
}

#[test]
fn local_and_missing_hosts() {
    assert!(matches!(docker_host_choice(None, None), HostChoice::Nothing));
    let local = HostDisplay {
        display_name: "Local".to_string(),
        is_local: true,
        has_credentials: false,
        host_id: None,
    };
    assert!(matches!(docker_host_choice(Some(local), None), HostChoice::Local));
    let choice = docker_host_choice(Some(remote(None, true)), None);
    assert_eq!(status_of(&choice), "Error: Remote host with no host_id");
}

#[test]
fn remote_hosts_without_a_usable_login_ask_for_credentials() {
    let choice = docker_host_choice(Some(remote(Some(7), false)), None);
    assert!(matches!(choice, HostChoice::AskCredentials { host_id: 7, .. }));
    assert_eq!(
        status_of(&choice),
        "No credentials saved for Build box - please enter credentials"
    );
    let choice = docker_host_choice(Some(remote(Some(7), true)), None);
    assert_eq!(status_of(&choice), "SSH host 7 or credentials not found");
    let choice = docker_host_choice(Some(remote(Some(7), true)), Some(login("", Some("pw"))));
    assert_eq!(status_of(&choice), "Username is empty - prompting for credentials");
    let choice = docker_host_choice(Some(remote(Some(7), true)), Some(login("ana", None)));
    assert_eq!(status_of(&choice), "Password is required - prompting for credentials");
    let choice = docker_host_choice(Some(remote(Some(7), true)), Some(login("ana", Some(""))));
    assert_eq!(status_of(&choice), "Password is required - prompting for credentials");
}

#[test]
fn a_complete_saved_login_connects() {
    let choice = docker_host_choice(Some(remote(Some(7), true)), Some(login("ana", Some("pw"))));
    match choice {
        HostChoice::Connect {
            host_id,
            hostname,
            port,
            username,
            display_name,
            password,
            status,
        } => {
            assert_eq!(host_id, 7);
            assert_eq!(hostname, "10.0.0.5");
            assert_eq!(port, 2222);
            assert_eq!(username, "ana");
            assert_eq!(display_name, "Build box");
            assert_eq!(password, "pw");
            assert_eq!(status, "Switching to: ana@10.0.0.5 (discovering...)");
        }
        other => panic!("unexpected {:?}", other),
    }
}

#[test]
fn typed_credentials_make_a_login_once_complete() {
    let host = || {
        Some(ListedHost {
            hostname: "10.0.0.5".to_string(),
            display_name: "Build box".to_string(),
        })
    };
    assert!(docker_credentials_login(String::new(), "pw".into(), false, Some(3), host(), None).is_none());
    assert!(docker_credentials_login("ana".into(), String::new(), false, Some(3), host(), None).is_none());
    assert!(docker_credentials_login("ana".into(), "pw".into(), false, None, host(), None).is_none());
    assert!(docker_credentials_login("ana".into(), "pw".into(), false, Some(3), None, None).is_none());
    let l = docker_credentials_login("ana".into(), "pw".into(), true, Some(3), host(), None).unwrap();
    assert_eq!(l.port, 22);
    assert!(l.save);
    assert_eq!(l.status, "Connecting to ana@10.0.0.5...");
    let l = docker_credentials_login("ana".into(), "pw".into(), false, Some(3), host(), Some(2200)).unwrap();
    assert_eq!(l.port, 2200);
    assert_eq!(l.host_id, 3);
    assert_eq!(l.display_name, "Build box");
}

#[test]
fn the_docker_host_can_be_set_and_named() {
    let mut app = App::new(80, 24);
    assert_eq!(*app.docker_selected_host(), DockerHost::Local);
    assert_eq!(app.docker_host_display_name(), "Local");
    app.docker_set_remote_host(4, "10.0.0.9", 22, "bob", "pw", None);
    assert_eq!(app.status(), "Set Docker host: bob@10.0.0.9 (pwd=true)");
    assert_eq!(app.docker_host_display_name(), "10.0.0.9");
    app.docker_set_remote_host(4, "10.0.0.9", 22, "bob", "pw", Some("Lab"));
    assert_eq!(app.status(), "Set Docker host: bob@Lab (pwd=true)");
    assert_eq!(app.docker_host_display_name(), "Lab");
    match app.docker_selected_host() {
        DockerHost::Remote { host_id, port, password, .. } => {
            assert_eq!(*host_id, 4);
            assert_eq!(*port, 22);
            assert_eq!(password.as_deref(), Some("pw"));
        }
        DockerHost::Local => panic!("expected a remote host"),
    }
    app.docker_set_local_host();
    assert_eq!(app.status(), "Set Docker host: Local");
    assert_eq!(*app.docker_selected_host(), DockerHost::Local);
}
