use spicy_launcher_cli::app::App;
use spicy_launcher_cli::error::LauncherError;
use spicy_launcher_cli::flow::{Action, Event, Outcome};
use spicy_launcher_cli::listing::{listing_heading, listing_lines, mark_installed, release_line, stage_message, Stage};
use spicy_launcher_cli::lookup::{list_versions, normalize_version};
use spicy_launcher_cli::release::{Asset, Game, Release};

fn release(version: &str, name: &str, prerelease: bool, installed: bool) -> Release {
    Release {
        version: version.to_string(),
        name: name.to_string(),
        prerelease,
        installed,
        assets: Vec::new(),
    }
}

fn asset(name: &str, size: u64) -> Asset {
    Asset { name: name.to_string(), size, download_url: format!("https://example.org/{}", name) }
}

#[test]
fn normalize_adds_missing_prefix() {
    assert_eq!(normalize_version("1.0.0"), "v1.0.0");
    assert_eq!(normalize_version("v2.0.0"), "v2.0.0");
    assert_eq!(normalize_version(""), "v");
    assert_eq!(normalize_version("V1"), "vV1");
    assert_eq!(normalize_version("version"), "version");
}

#[test]
fn normalize_twice_is_normalize_once() {
    for s in ["", "1", "v1", "vv", "x.y"] {
        let once = normalize_version(s);
        assert_eq!(normalize_version(&once), once);
    }
}

#[test]
fn version_list_is_comma_separated() {
    assert_eq!(list_versions(&vec![]), "");
    assert_eq!(list_versions(&vec![release("v1.0.0", "a", false, false)]), "v1.0.0");
    let rs = vec![
        release("v1.0.0", "a", false, false),
        release("v1.1.0", "b", false, false),
        release("v2.0.0", "c", false, false),
    ];
    assert_eq!(list_versions(&rs), "v1.0.0, v1.1.0, v2.0.0");
}

#[test]
fn missing_version_error_names_request_and_offer() {
    let app = App::new().unwrap();
    let rs = vec![release("v1.0.0", "a", false, false), release("v2.0.0", "b", false, false)];
    match app.find_version(Some("3.0.0".to_string()), rs) {
        Err(LauncherError::VersionNotFound { requested, available }) => {
            assert_eq!(requested, "3.0.0");
            assert_eq!(available, "v1.0.0, v2.0.0");
        },
        other => panic!("unexpected {:?}", other),
    }
}

#[test]
fn empty_list_error_whatever_requested() {
    let app = App::new().unwrap();
    assert!(matches!(app.find_version(None, vec![]), Err(LauncherError::NoReleases)));
    assert_eq!(
        app.find_version(None, vec![]).unwrap_err().message(),
        "No releases found/installed :("
    );
}

#[test]
fn first_of_equal_versions_is_chosen() {
    let app = App::new().unwrap();
    let rs = vec![
        release("v0.9.0", "old", false, false),
        release("v1.0.0", "first", false, false),
        release("v1.0.0", "second", true, false),
    ];
    let found = app.find_version(Some("1.0.0".to_string()), rs).unwrap();
    assert_eq!(found.name, "first");
    assert!(!found.prerelease);
}

#[test]
fn prefix_is_optional_in_requests() {
    let app = App::new().unwrap();
    let rs = vec![release("v1.0.0", "a", false, false), release("v2.0.0", "b", false, false)];
    let with = app.find_version(Some("v2.0.0".to_string()), rs.clone()).unwrap();
    let without = app.find_version(Some("2.0.0".to_string()), rs).unwrap();
    assert_eq!(with.version, without.version);
    assert_eq!(with.name, without.name);
}

#[test]
fn empty_request_looks_for_bare_prefix() {
    let app = App::new().unwrap();
    let rs = vec![release("v1.0.0", "a", false, false)];
    assert!(app.find_version(Some(String::new()), rs).is_err());
    let rs = vec![release("v1.0.0", "a", false, false), release("v", "bare", false, false)];
    assert_eq!(app.find_version(Some(String::new()), rs).unwrap().name, "bare");
}

#[test]
fn external_error_message_is_kept() {
    assert_eq!(LauncherError::External("Network timeout".to_string()).message(), "Network timeout");
}

#[test]
fn marking_follows_installed_versions() {
    let rs = vec![
        release("v2.0.0", "new", false, true),
        release("v1.0.0", "old", true, false),
        release("v0.1.0", "older", false, false),
    ];
    let installed = vec![release("v1.0.0", "x", false, false), release("v0.5.0", "y", false, false)];
    let marked = mark_installed(rs, &installed);
    assert_eq!(marked.len(), 3);
    assert_eq!(marked[0].version, "v2.0.0");
    assert!(!marked[0].installed);
    assert_eq!(marked[1].name, "old");
    assert!(marked[1].prerelease);
    assert!(marked[1].installed);
    assert!(!marked[2].installed);
    let again = mark_installed(marked.clone(), &installed);
    for (a, b) in again.iter().zip(marked.iter()) {
        assert_eq!(a.installed, b.installed);
        assert_eq!(a.version, b.version);
    }
}

#[test]
fn game_names() {
    assert_eq!(Game::Jumpy.name(), "Jumpy");
    assert_eq!(Game::Punchy.name(), "Punchy");
}

#[test]
fn release_line_holds_its_parts() {
    let line = release_line(Game::Jumpy, &release("v1.0.0", "Stable", false, false));
    assert!(line.starts_with("- Jumpy "));
    assert!(line.contains("v1.0.0"));
    assert!(line.contains("Stable"));
    assert!(line.ends_with("[not installed]"));
    let line = release_line(Game::Punchy, &release("v2.0.0-beta", "Beta", true, true));
    assert!(line.starts_with("- Punchy "));
    assert!(line.contains("installed"));
    assert!(!line.contains("not installed"));
    assert!(line.contains("pre-release"));
}

#[test]
fn install_runs_every_step_in_order() {
    let mut app = App::new().unwrap();
    assert!(matches!(app.install(Game::Jumpy, Some("1.0.0".to_string())), Action::FetchReleases(Game::Jumpy)));
    let rs = vec![release("v2.0.0", "new", false, false), release("v1.0.0", "old", false, false)];
    match app.advance(Event::Releases(Ok(rs))) {
        Action::ResolveAsset(r) => assert_eq!(r.name, "old"),
        other => panic!("unexpected {:?}", other),
    }
    match app.advance(Event::AssetResolved(Ok(asset("jumpy.zip", 42)))) {
        Action::Download(a) => {
            assert_eq!(a.name, "jumpy.zip");
            assert_eq!(a.size, 42);
        },
        other => panic!("unexpected {:?}", other),
    }
    assert!(matches!(app.advance(Event::Downloaded(Ok(()))), Action::Verify(a) if a.name == "jumpy.zip"));
    match app.advance(Event::Verified(Ok(()))) {
        Action::Extract { asset, game, version } => {
            assert_eq!(asset.name, "jumpy.zip");
            assert_eq!(game, Game::Jumpy);
            assert_eq!(version, "v1.0.0");
        },
        other => panic!("unexpected {:?}", other),
    }
    match app.advance(Event::Extracted(Ok(()))) {
        Action::Done(Outcome::Installed(v)) => assert_eq!(v, "v1.0.0"),
        other => panic!("unexpected {:?}", other),
    }
    assert!(matches!(app.advance(Event::Extracted(Ok(()))), Action::Wait));
}

#[test]
fn install_stops_at_first_failure() {
    let mut app = App::new().unwrap();
    app.install(Game::Punchy, None);
    app.advance(Event::Releases(Ok(vec![release("v3.0.0", "latest", false, false)])));
    app.advance(Event::AssetResolved(Ok(asset("punchy.tar.gz", 7))));
    match app.advance(Event::Downloaded(Err("Download failed".to_string()))) {
        Action::Fail(e) => assert_eq!(e.message(), "Download failed"),
        other => panic!("unexpected {:?}", other),
    }
    assert!(matches!(app.advance(Event::Verified(Ok(()))), Action::Wait));
}

#[test]
fn install_of_unknown_version_fails() {
    let mut app = App::new().unwrap();
    app.install(Game::Jumpy, Some("9.9.9".to_string()));
    match app.advance(Event::Releases(Ok(vec![release("v1.0.0", "a", false, false)]))) {
        Action::Fail(LauncherError::VersionNotFound { requested, available }) => {
            assert_eq!(requested, "9.9.9");
            assert_eq!(available, "v1.0.0");
        },
        other => panic!("unexpected {:?}", other),
    }
}

#[test]
fn install_fails_when_releases_cannot_be_fetched() {
    let mut app = App::new().unwrap();
    app.install(Game::Jumpy, None);
    match app.advance(Event::Releases(Err("GitHub API error".to_string()))) {
        Action::Fail(e) => assert_eq!(e.message(), "GitHub API error"),
        other => panic!("unexpected {:?}", other),
    }
}

#[test]
fn unexpected_report_changes_nothing() {
    let mut app = App::new().unwrap();
    assert!(matches!(app.advance(Event::InstallChecked(true)), Action::Wait));
    app.install(Game::Jumpy, None);
    assert!(matches!(app.advance(Event::Downloaded(Ok(()))), Action::Wait));
    assert!(matches!(
        app.advance(Event::Releases(Ok(vec![release("v1.0.0", "a", false, false)]))),
        Action::ResolveAsset(_)
    ));
}

#[test]
fn uninstall_removes_present_version() {
    let mut app = App::new().unwrap();
    assert!(matches!(app.uninstall(Game::Jumpy, Some("1.0.0".to_string())), Action::FetchReleases(Game::Jumpy)));
    match app.advance(Event::Releases(Ok(vec![release("v1.0.0", "a", false, false)]))) {
        Action::CheckInstalled { game, version } => {
            assert_eq!(game, Game::Jumpy);
            assert_eq!(version, "v1.0.0");
        },
        other => panic!("unexpected {:?}", other),
    }
    assert!(matches!(app.advance(Event::InstallChecked(true)), Action::Remove { version, .. } if version == "v1.0.0"));
    assert!(matches!(app.advance(Event::Removed(Ok(()))), Action::Done(Outcome::Uninstalled(v)) if v == "v1.0.0"));
}

#[test]
fn uninstall_of_absent_version_removes_nothing() {
    let mut app = App::new().unwrap();
    app.uninstall(Game::Punchy, None);
    app.advance(Event::Releases(Ok(vec![release("v0.2.0", "a", false, false)])));
    assert!(matches!(app.advance(Event::InstallChecked(false)), Action::Done(Outcome::NotInstalled(v)) if v == "v0.2.0"));
    assert!(matches!(app.advance(Event::Removed(Ok(()))), Action::Wait));
}

#[test]
fn launch_starts_chosen_installed_version() {
    let mut app = App::new().unwrap();
    assert!(matches!(app.launch(Game::Jumpy, None), Action::ListInstalled(Game::Jumpy)));
    let installed = vec![release("v0.5.0", "a", false, true), release("v0.4.0", "b", false, true)];
    assert!(matches!(app.advance(Event::InstalledReleases(Ok(installed))), Action::Start { version, .. } if version == "v0.5.0"));
    assert!(matches!(app.advance(Event::Started(Ok(()))), Action::Done(Outcome::Launched(v)) if v == "v0.5.0"));
}

#[test]
fn launch_with_nothing_installed_fails() {
    let mut app = App::new().unwrap();
    app.launch(Game::Jumpy, Some("0.5.0".to_string()));
    assert!(matches!(app.advance(Event::InstalledReleases(Ok(vec![]))), Action::Fail(LauncherError::NoReleases)));
}

#[test]
fn launch_reports_storage_failure() {
    let mut app = App::new().unwrap();
    app.launch(Game::Jumpy, None);
    match app.advance(Event::InstalledReleases(Err("Storage error".to_string()))) {
        Action::Fail(e) => assert!(e.message().contains("Storage error")),
        other => panic!("unexpected {:?}", other),
    }
}

#[test]
fn listing_marks_installed_releases() {
    let mut app = App::new().unwrap();
    assert!(matches!(app.print_releases(Game::Punchy), Action::ListInstalled(Game::Punchy)));
    let installed = vec![release("v1.0.0", "x", false, true)];
    assert!(matches!(app.advance(Event::InstalledReleases(Ok(installed))), Action::FetchReleases(Game::Punchy)));
    let published = vec![release("v2.0.0", "two", false, false), release("v1.0.0", "one", false, false)];
    match app.advance(Event::Releases(Ok(published))) {
        Action::Show { game, releases } => {
            assert_eq!(game, Game::Punchy);
            assert_eq!(releases.len(), 2);
            assert!(!releases[0].installed);
            assert!(releases[1].installed);
        },
        other => panic!("unexpected {:?}", other),
    }
}

#[test]
fn heading_names_the_game() {
    assert_eq!(
        listing_heading(Game::Jumpy),
        "🐟 Jumpy - Available versions:"
    );
}

#[test]
fn stage_messages_name_stage_and_subject() {
    let text = stage_message(Stage::Downloading, "jumpy.zip");
    assert!(text.contains("Downloading"));
    assert!(text.ends_with(" jumpy.zip"));
    let text = stage_message(Stage::Uninstalling, "v1.0.0");
    assert!(text.contains("Uninstalling"));
    assert!(text.ends_with(" v1.0.0"));
}

#[test]
fn releases_keep_their_files() {
    let mut r = release("v1.0.0", "one", false, false);
    r.assets.push(asset("jumpy-linux.tar.gz", 10));
    r.assets.push(asset("jumpy-windows.zip", 20));
    let marked = mark_installed(vec![r], &vec![release("v1.0.0", "x", false, true)]);
    assert!(marked[0].installed);
    assert_eq!(marked[0].assets.len(), 2);
    assert_eq!(marked[0].assets[1].name, "jumpy-windows.zip");
    assert_eq!(marked[0].assets[1].download_url, "https://example.org/jumpy-windows.zip");

    let mut app = App::new().unwrap();
    let mut r = release("v2.0.0", "two", false, false);
    r.assets.push(asset("punchy.zip", 5));
    app.install(Game::Punchy, None);
    match app.advance(Event::Releases(Ok(vec![r]))) {
        Action::ResolveAsset(chosen) => assert_eq!(chosen.assets[0].name, "punchy.zip"),
        other => panic!("unexpected {:?}", other),
    }
}

#[test]
fn listing_lines_frame_the_releases() {
    let rs = vec![release("v2.0.0", "two", false, true), release("v1.0.0", "one", true, false)];
    let lines = listing_lines(Game::Punchy, &rs);
    assert_eq!(lines.len(), 5);
    assert_eq!(lines[0], "");
    assert_eq!(lines[1], "🐟 Punchy - Available versions:");
    assert!(lines[2].contains("v2.0.0"));
    assert!(lines[3].contains("v1.0.0"));
    assert!(lines[3].contains("pre-release"));
    assert_eq!(lines[4], "");
    assert_eq!(listing_lines(Game::Jumpy, &vec![]).len(), 3);
}
