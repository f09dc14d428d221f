use modman::modrinth::{
    check_api_status, check_download_status, is_success_status, search_url, versions_url,
};

#[test]
fn search_url_is_exact() {
    assert_eq!(
        search_url("sodium"),
        "https://api.modrinth.com/v2/search?query=sodium&facets=[[\"project_type:mod\"]]"
    );
}

#[test]
fn versions_url_without_filters() {
    assert_eq!(
        versions_url("AANobbMI", None, None),
        "https://api.modrinth.com/v2/project/AANobbMI/version"
    );
}

#[test]
fn versions_url_with_loader_filter() {
    assert_eq!(
        versions_url("x", Some("forge"), None),
        "https://api.modrinth.com/v2/project/x/version?loaders=[\"forge\"]"
    );
}

#[test]
fn versions_url_with_game_version_filter() {
    assert_eq!(
        versions_url("x", None, Some("1.20")),
        "https://api.modrinth.com/v2/project/x/version?game_versions=[\"1.20\"]"
    );
}

#[test]
fn versions_url_with_both_filters() {
    assert_eq!(
        versions_url("AANobbMI", Some("fabric"), Some("1.20.1")),
        "https://api.modrinth.com/v2/project/AANobbMI/version?loaders=[\"fabric\"]&game_versions=[\"1.20.1\"]"
    );
}

#[test]
fn success_statuses_are_the_two_hundreds() {
    assert!(is_success_status(200));
    assert!(is_success_status(204));
    assert!(is_success_status(299));
    assert!(!is_success_status(199));
    assert!(!is_success_status(300));
    assert!(!is_success_status(404));
}

#[test]
fn api_status_check_carries_the_status() {
    assert_eq!(check_api_status(200), Ok(()));
    assert_eq!(
        check_api_status(404),
        Err("Modrinth API error: 404".to_string())
    );
    assert_eq!(
        check_api_status(503),
        Err("Modrinth API error: 503".to_string())
    );
}

#[test]
fn download_status_check_carries_the_status() {
    assert_eq!(check_download_status(206), Ok(()));
    assert_eq!(
        check_download_status(500),
        Err("Download failed: 500".to_string())
    );
}
