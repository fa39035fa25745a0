use satu_toko::chrome::{
    candidate_paths, find_chrome_executable, get_chrome_version, is_listed, locator_command,
};
use satu_toko::system::{parse_os, Os};

fn texts(items: &[&str]) -> Vec<String> {
    items.iter().map(|s| s.to_string()).collect()
}

#[test]
fn operating_systems_by_name() {
    assert_eq!(parse_os("linux"), Some(Os::Linux));
    assert_eq!(parse_os("macos"), Some(Os::Macos));
    assert_eq!(parse_os("windows"), Some(Os::Windows));
    assert_eq!(parse_os("freebsd"), None);
    assert_eq!(parse_os("Linux"), None);
    assert_eq!(parse_os(""), None);
}

#[test]
fn candidates_on_linux() {
    assert_eq!(
        candidate_paths(Os::Linux, &None),
        texts(&[
            "/usr/bin/google-chrome",
            "/usr/bin/google-chrome-stable",
            "/usr/bin/chromium",
            "/usr/bin/chromium-browser"
        ])
    );
}

#[test]
fn candidates_on_windows_include_the_user_directory() {
    assert_eq!(
        candidate_paths(Os::Windows, &Some("budi".to_string())),
        texts(&[
            r"C:\Program Files\Google\Chrome\Application\chrome.exe",
            r"C:\Program Files (x86)\Google\Chrome\Application\chrome.exe",
            r"C:\Users\budi\AppData\Local\Google\Chrome\Application\chrome.exe"
        ])
    );
    assert_eq!(candidate_paths(Os::Windows, &None).len(), 2);
}

#[test]
fn candidates_on_macos() {
    assert_eq!(
        candidate_paths(Os::Macos, &Some("budi".to_string())),
        texts(&["/Applications/Google Chrome.app/Contents/MacOS/Google Chrome"])
    );
}

#[test]
fn locator_commands() {
    assert_eq!(
        locator_command(Os::Linux),
        Some(("which".to_string(), "google-chrome".to_string()))
    );
    assert_eq!(
        locator_command(Os::Windows),
        Some(("where".to_string(), "chrome.exe".to_string()))
    );
    assert_eq!(locator_command(Os::Macos), None);
}

#[test]
fn listed_paths() {
    let paths = texts(&["/a", "/b"]);
    assert!(is_listed(&paths, "/b"));
    assert!(!is_listed(&paths, "/c"));
    assert!(!is_listed(&Vec::new(), "/a"));
}

#[test]
fn the_first_existing_candidate_wins() {
    let existing = texts(&["/usr/bin/chromium-browser", "/usr/bin/chromium"]);
    assert_eq!(
        find_chrome_executable("linux", &None, &existing, "/opt/chrome\n"),
        Ok("/usr/bin/chromium".to_string())
    );
}

#[test]
fn the_locator_is_used_when_no_candidate_exists() {
    assert_eq!(
        find_chrome_executable("linux", &None, &Vec::new(), "  /opt/google/chrome/chrome\n"),
        Ok("/opt/google/chrome/chrome".to_string())
    );
    assert_eq!(
        find_chrome_executable("windows", &None, &Vec::new(), "C:\\chrome.exe\r\n"),
        Ok("C:\\chrome.exe".to_string())
    );
}

#[test]
fn no_browser_is_an_error() {
    assert_eq!(
        find_chrome_executable("linux", &None, &texts(&["/somewhere/else"]), " \n"),
        Err("Chrome executable not found".to_string())
    );
    // macOS has no locator: what is handed in as its output does not count.
    assert_eq!(
        find_chrome_executable("macos", &None, &Vec::new(), "/usr/local/bin/chrome"),
        Err("Chrome executable not found".to_string())
    );
}

#[test]
fn unsupported_system_is_an_error() {
    assert_eq!(
        find_chrome_executable("freebsd", &None, &texts(&["/usr/bin/chromium"]), "/x"),
        Err("Unsupported OS!".to_string())
    );
}

#[test]
fn browser_version_prefers_the_registry() {
    let registry = Some("    version    REG_SZ    121.0.1.2\r\n".to_string());
    assert_eq!(get_chrome_version(&registry, "Google Chrome 120.0.6099.109"), Ok("121.0.1.2".to_string()));
    assert_eq!(
        get_chrome_version(&Some("ERROR".to_string()), "Google Chrome 120.0.6099.109"),
        Ok("120.0.6099.109".to_string())
    );
    assert_eq!(
        get_chrome_version(&None, "Google Chrome 120.0.6099.109\n"),
        Ok("120.0.6099.109".to_string())
    );
    assert_eq!(
        get_chrome_version(&None, ""),
        Err("Could not parse Chrome version".to_string())
    );
}
