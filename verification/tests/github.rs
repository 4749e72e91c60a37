use ratterm_core::addons::github::{
    addon_directory_names, addon_path, build_addon, cache_is_fresh, config_urls, default_description,
    download_error, has_install_script, limit_entries, listing_error, readme_description,
    readme_urls, script_url, scripts_path, AddonGitHubClient, GitHubEntry, MAX_ADDONS,
    MAX_FILES_PER_ADDON,
};
use ratterm_core::addons::types::{AddonError, AddonMetadata, Platform, ScriptType};

fn entry(name: &str, kind: &str, url: Option<&str>) -> GitHubEntry {
    GitHubEntry {
        name: name.to_string(),
        path: format!("scripts/linux/{}", name),
        entry_type: kind.to_string(),
        size: 0,
        download_url: url.map(|u| u.to_string()),
    }
}

#[test]
fn test_client_creation() {
    let client = AddonGitHubClient::new("hastur-dev/installer-repo", "main");
    assert_eq!(client.repository(), "hastur-dev/installer-repo");
    assert_eq!(client.branch(), "main");
}

#[test]
fn test_set_repository() {
    let mut client = AddonGitHubClient::new("hastur-dev/installer-repo", "main");
    client.set_repository("other/repo", "dev");
    assert_eq!(client.repository(), "other/repo");
    assert_eq!(client.branch(), "dev");
}

#[test]
fn contents_addresses_name_the_repository_path_and_branch() {
    let client = AddonGitHubClient::new("owner/repo", "dev");
    assert_eq!(
        client.contents_url(""),
        "https://api.github.com/repos/owner/repo/contents?ref=dev"
    );
    assert_eq!(
        client.contents_url("scripts/linux"),
        "https://api.github.com/repos/owner/repo/contents/scripts/linux?ref=dev"
    );
    assert_eq!(scripts_path("linux"), "scripts/linux");
    assert_eq!(addon_path("linux", "nodejs"), "scripts/linux/nodejs");
}

#[test]
fn response_statuses_map_to_errors() {
    assert!(listing_error(200, "200 OK", None).is_none());
    assert!(matches!(listing_error(404, "404 Not Found", None), Some(AddonError::RepositoryNotFound)));
    assert!(matches!(
        listing_error(403, "403 Forbidden", Some("0")),
        Some(AddonError::RateLimitExceeded)
    ));
    match listing_error(403, "403 Forbidden", Some("12")) {
        Some(AddonError::NetworkError(m)) => assert_eq!(m, "GitHub API error: 403 Forbidden"),
        other => panic!("unexpected {:?}", other),
    }
    match listing_error(500, "500 Internal Server Error", None) {
        Some(AddonError::NetworkError(m)) => {
            assert_eq!(m, "GitHub API error: 500 Internal Server Error")
        }
        other => panic!("unexpected {:?}", other),
    }
    assert!(download_error(204, "204 No Content").is_none());
    match download_error(404, "404 Not Found") {
        Some(AddonError::NetworkError(m)) => assert_eq!(m, "Failed to fetch content: 404 Not Found"),
        other => panic!("unexpected {:?}", other),
    }
}

#[test]
fn listings_are_cut_and_directories_picked() {
    let many: Vec<GitHubEntry> = (0..30).map(|i| entry(&format!("f{}", i), "file", None)).collect();
    let cut = limit_entries(many);
    assert_eq!(cut.len(), MAX_FILES_PER_ADDON);
    assert_eq!(cut[19].name, "f19");

    let listing = vec![
        entry("README.md", "file", None),
        entry("nodejs", "dir", None),
        entry("python", "dir", None),
        entry("notes.txt", "file", None),
    ];
    assert_eq!(addon_directory_names(&listing), vec!["nodejs".to_string(), "python".to_string()]);

    let dirs: Vec<GitHubEntry> = (0..150).map(|i| entry(&format!("d{}", i), "dir", None)).collect();
    let names = addon_directory_names(&dirs);
    assert_eq!(names.len(), MAX_ADDONS);
    assert_eq!(names[99], "d99");
}

#[test]
fn an_addon_directory_is_read_for_its_scripts_and_files() {
    let listing = vec![
        entry("install-linux.sh", "file", Some("https://raw/install-linux.sh")),
        entry("readme.md", "file", Some("https://raw/readme.md")),
        entry("README.md", "file", Some("https://raw/README.md")),
        entry("config.yml", "file", Some("https://raw/config.yml")),
        entry("README.txt", "file", None),
    ];
    assert!(has_install_script(&listing, Platform::Linux));
    assert!(!has_install_script(&listing, Platform::Windows));
    assert_eq!(
        readme_urls(&listing),
        vec!["https://raw/README.md".to_string(), "https://raw/readme.md".to_string()]
    );
    assert_eq!(config_urls(&listing), vec!["https://raw/config.yml".to_string()]);
    assert_eq!(script_url(&listing, "nodejs", Platform::Linux).unwrap(), "https://raw/install-linux.sh");
    match script_url(&listing, "nodejs", Platform::MacOs) {
        Err(AddonError::ScriptNotFound(id, t)) => {
            assert_eq!(id, "nodejs");
            assert_eq!(t, ScriptType::Install);
        }
        other => panic!("unexpected {:?}", other),
    }
    let no_url = vec![entry("install-linux.sh", "file", None)];
    assert!(matches!(
        script_url(&no_url, "vim", Platform::Linux),
        Err(AddonError::ScriptNotFound(_, _))
    ));
}

#[test]
fn a_readme_describes_with_its_first_plain_line() {
    let text = "# Node.js\n\n  Installs Node.js and npm.  \nMore text\n";
    assert_eq!(readme_description(text), Some("Installs Node.js and npm.".to_string()));
    assert_eq!(readme_description("# Title\n## Sub\n\n"), None);
    let late = format!("{}late line\n", "#\n".repeat(10));
    assert_eq!(readme_description(&late), None);
    let long = "x".repeat(300);
    assert_eq!(readme_description(&long).map(|d| d.len()), Some(200));
    assert_eq!(readme_description("line\r\nnext"), Some("line".to_string()));
    assert_eq!(default_description("vim"), "Add-on: vim");
}

#[test]
fn an_addon_is_built_from_what_its_directory_gave() {
    let plain = build_addon("node-js".to_string(), true, "Add-on: node-js".to_string(), None);
    assert_eq!(plain.id, "node-js");
    assert_eq!(plain.name, "Node Js");
    assert_eq!(plain.description, "Add-on: node-js");
    assert!(plain.has_install);
    let meta = AddonMetadata {
        name: Some("Node".to_string()),
        description: None,
        detect_commands: vec!["node".to_string()],
    };
    let with_meta = build_addon("node-js".to_string(), false, "From README".to_string(), Some(meta));
    assert_eq!(with_meta.name, "Node");
    assert_eq!(with_meta.description, "From README");
    assert!(!with_meta.has_install);
    assert!(with_meta.metadata.is_some());
}

#[test]
fn a_cached_list_is_used_only_while_fresh_and_not_forced() {
    assert!(cache_is_fresh(false, Some(0)));
    assert!(cache_is_fresh(false, Some(299_999_999_999)));
    assert!(!cache_is_fresh(false, Some(300_000_000_000)));
    assert!(!cache_is_fresh(true, Some(0)));
    assert!(!cache_is_fresh(false, None));
}
