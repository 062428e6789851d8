use spicy_launcher_cli::app::App;
use spicy_launcher_cli::listing::{listing_lines, release_line, stage_message, Stage};
use spicy_launcher_cli::release::{Game, Release};

fn release(version: &str, name: &str, prerelease: bool, installed: bool) -> Release {
    Release {
        version: version.to_string(),
        name: name.to_string(),
        prerelease,
        installed,
        assets: Vec::new(),
    }
}

#[test]
fn texts_with_and_without_colors() {
    let app = App::new().unwrap();
    let rs = vec![release("v1.0.0", "a", false, false), release("v2.0.0", "b", false, false)];

    colored::control::set_override(true);
    let err = app.find_version(Some("999.0.0".to_string()), rs.clone()).unwrap_err();
    assert_eq!(
        err.message(),
        "Version \u{1b}[31m999.0.0\u{1b}[0m not found, available versions are: \u{1b}[34mv1.0.0, v2.0.0\u{1b}[0m"
    );
    assert_eq!(
        release_line(Game::Jumpy, &release("v1.1.0-beta", "Beta", true, true)),
        "- Jumpy \u{1b}[34mv1.1.0-beta\u{1b}[0m (\u{1b}[32mBeta\u{1b}[0m) [\u{1b}[32minstalled\u{1b}[0m] [\u{1b}[33mpre-release\u{1b}[0m]"
    );

    assert_eq!(stage_message(Stage::Verifying, "a.zip"), "\u{1b}[33mVerifying\u{1b}[0m a.zip");

    let lone = app.find_version(Some("\u{1b}x".to_string()), rs.clone()).unwrap_err();
    assert_eq!(
        lone.message(),
        "Version \u{1b}[31m\u{1b}x\u{1b}[0m not found, available versions are: \u{1b}[34mv1.0.0, v2.0.0\u{1b}[0m"
    );

    colored::control::set_override(false);
    assert_eq!(stage_message(Stage::Extracting, "a.zip"), "Extracting a.zip");
    let lone = app.find_version(Some("\u{1b}x".to_string()), rs.clone()).unwrap_err();
    assert_eq!(
        lone.message(),
        "Version \u{1b}x not found, available versions are: v1.0.0, v2.0.0"
    );
    assert_eq!(
        err.message(),
        "Version 999.0.0 not found, available versions are: v1.0.0, v2.0.0"
    );
    assert_eq!(
        release_line(Game::Punchy, &release("v1.0.0", "Stable", false, false)),
        "- Punchy v1.0.0 (Stable) [not installed]"
    );
    assert_eq!(
        listing_lines(Game::Jumpy, &vec![release("v1.0.0", "Stable", false, true)]),
        vec![
            String::new(),
            "🐟 Jumpy - Available versions:".to_string(),
            "- Jumpy v1.0.0 (Stable) [installed]".to_string(),
            String::new(),
        ]
    );
}
