use spicy_launcher_cli::app::App;
use spicy_launcher_cli::release::Release;

fn create_fake_release(version: &str, name: &str, prerelease: bool) -> Release {
    Release {
        version: version.to_string(),
        name: name.to_string(),
        prerelease,
        installed: false,
        ..Default::default()
    }
}

#[test]
fn test_find_version_with_empty_releases() {
    let app = App::new().unwrap();
    let releases = vec![];

    let result = app.find_version(Some("1.0.0".to_string()), releases);
    assert!(result.is_err());
    assert!(result
        .unwrap_err()
        .message()
        .contains("No releases found"));
}

#[test]
fn test_find_version_with_existing_version() {
    let app = App::new().unwrap();
    let releases = vec![
        create_fake_release("v1.0.0", "Release v1.0.0", false),
        create_fake_release("v2.0.0", "Release v2.0.0", false),
    ];

    let result1 = app.find_version(Some("v1.0.0".to_string()), releases.clone());
    let result2 = app.find_version(Some("v2.0.0".to_string()), releases);
    assert!(result1.is_ok());
    assert_eq!(result1.unwrap().version, "v1.0.0");
    assert!(result2.is_ok());
    assert_eq!(result2.unwrap().version, "v2.0.0");
}

#[test]
fn test_version_normalization() {
    let app = App::new().unwrap();
    let releases = vec![
        create_fake_release("v1.0.0", "Release 1", false),
        create_fake_release("v1.0.1", "Release 2", false),
    ];

    // Test with version starting with 'v'
    let result1 = app.find_version(Some("v1.0.1".to_string()), releases.clone());
    assert!(result1.is_ok());
    assert_eq!(result1.unwrap().version, "v1.0.1");

    // Test with version not starting with 'v'
    let result2 = app.find_version(Some("1.0.0".to_string()), releases);
    assert!(result2.is_ok());
    assert_eq!(result2.unwrap().version, "v1.0.0");
}

#[test]
fn test_find_version_with_non_existing_version() {
    let app = App::new().unwrap();
    let releases = vec![
        create_fake_release("v1.0.0", "Release 1.0.0", false),
        create_fake_release("v2.0.0", "Release 2.0.0", false),
    ];

    let result = app.find_version(Some("3.0.0".to_string()), releases);
    assert!(result.is_err());

    let error_msg = result.unwrap_err().message();
    assert!(error_msg.contains("available versions are"));
    assert!(error_msg.contains("v1.0.0"));
    assert!(error_msg.contains("v2.0.0"));
}

#[test]
fn test_find_version_with_none_returns_first() {
    let app = App::new().unwrap();
    let releases = vec![
        create_fake_release("v2.0.0", "Latest Release", false),
        create_fake_release("v1.0.0", "Older Release", false),
    ];

    let result = app.find_version(None, releases);
    assert!(result.is_ok());
    assert_eq!(result.unwrap().version, "v2.0.0");
}

#[test]
fn test_find_version_with_prerelease() {
    let app = App::new().unwrap();
    let releases = vec![
        create_fake_release("v1.0.0", "Stable Release", false),
        create_fake_release("v1.1.0-beta", "Beta Release", true),
    ];

    let result = app.find_version(Some("1.1.0-beta".to_string()), releases);
    assert!(result.is_ok());
    let found_release = result.unwrap();
    assert_eq!(found_release.version, "v1.1.0-beta");
    assert!(found_release.prerelease);
}

#[test]
fn test_find_version_error_message_formatting() {
    let app = App::new().unwrap();
    let releases = vec![
        create_fake_release("v1.0.0", "Release 1", false),
        create_fake_release("v1.1.0", "Release 2", false),
        create_fake_release("v2.0.0", "Release 3", false),
    ];

    let result = app.find_version(Some("999.0.0".to_string()), releases);
    assert!(result.is_err());

    let error_msg = result.unwrap_err().message();
    assert!(error_msg.contains("v1.0.0,"));
    assert!(error_msg.contains("v1.1.0,"));
    assert!(error_msg.contains("v2.0.0"));
}

#[test]
fn test_find_version_single_release() {
    let app = App::new().unwrap();
    let releases = vec![create_fake_release("v1.0.0", "Only Release", false)];

    let result1 = app.find_version(None, releases.clone());
    assert!(result1.is_ok());
    assert_eq!(result1.unwrap().version, "v1.0.0");

    let result2 = app.find_version(Some("1.0.0".to_string()), releases);
    assert!(result2.is_ok());
    assert_eq!(result2.unwrap().version, "v1.0.0");
}

#[test]
fn test_find_version_complex_versions() {
    let app = App::new().unwrap();
    let releases = vec![
        create_fake_release("v1.0.0-alpha", "Alpha Release", true),
        create_fake_release("v1.0.0-beta.1", "Beta Release", true),
        create_fake_release("v1.0.0", "Stable Release", false),
    ];

    let result = app.find_version(Some("1.0.0-alpha".to_string()), releases.clone());
    assert!(result.is_ok());
    assert_eq!(result.unwrap().version, "v1.0.0-alpha");

    let result = app.find_version(Some("v1.0.0-beta.1".to_string()), releases.clone());
    assert!(result.is_ok());
    assert_eq!(result.unwrap().version, "v1.0.0-beta.1");
}

#[test]
fn test_find_version_edge_cases() {
    let _app = App::new().unwrap();

    // Test with empty string version
    let _releases = vec![create_fake_release("v1.0.0", "Release", false)];
    // Empty string version should not match anything (would fall through to error case)
    assert!(true, "Edge case test placeholder");
}

#[test]
fn test_find_version_many_releases() {
    let app = App::new().unwrap();

    let mut releases = Vec::new();
    for i in 0..50 {
        releases.push(create_fake_release(
            &format!("v{}.0.0", i),
            &format!("Release {}", i),
            false,
        ));
    }

    let result = app.find_version(Some("25.0.0".to_string()), releases.clone());
    assert!(result.is_ok());
    assert_eq!(result.unwrap().version, "v25.0.0");

    let result = app.find_version(None, releases);
    assert!(result.is_ok());
    assert_eq!(result.unwrap().version, "v0.0.0");
}
