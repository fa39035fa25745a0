use satu_toko::install::DriverInstallation;
use satu_toko::session::{
    chrome_arguments, decimal, get_chrome_and_driver_info, launch_plan, open_chrome_with_driver,
    pick_port, poll_until, Poll,
};
use satu_toko::system::Os;

fn installation(patched: bool) -> DriverInstallation {
    DriverInstallation {
        os: Os::Linux,
        install_dir: "/data/chromedriver".to_string(),
        browser_major_version: "120".to_string(),
        driver_version: "120.0.6099.71".to_string(),
        executable_path: "/data/chromedriver/chromedriver_PATCHED".to_string(),
        patched,
    }
}

const USER_AGENT: &str = "user-agent=Mozilla/5.0 (Windows NT 10.0; Win64; x64) AppleWebKit/537.36 (KHTML, like Gecko) Chrome/102.0.0.0 Safari/537.36";

#[test]
fn numbers_in_decimal() {
    assert_eq!(decimal(0), "0");
    assert_eq!(decimal(7), "7");
    assert_eq!(decimal(10), "10");
    assert_eq!(decimal(5000), "5000");
    assert_eq!(decimal(8999), "8999");
    assert_eq!(decimal(1234567890), "1234567890");
    assert_eq!(decimal(usize::MAX), usize::MAX.to_string());
}

#[test]
fn browser_arguments_without_profile() {
    assert_eq!(
        chrome_arguments(""),
        vec![
            "--no-sandbox",
            "--disable-dev-shm-usage",
            "--disable-blink-features=AutomationControlled",
            "window-size=1920,1080",
            USER_AGENT,
            "disable-infobars"
        ]
    );
}

#[test]
fn browser_arguments_with_profile() {
    let arguments = chrome_arguments("/home/budi/.config/chrome");
    assert_eq!(arguments.len(), 7);
    assert_eq!(arguments[0], "--user-data-dir=/home/budi/.config/chrome");
    assert_eq!(arguments[1], "--no-sandbox");
}

#[test]
fn plan_for_a_port() {
    let plan = launch_plan(&installation(true), "", 5123).unwrap();
    assert_eq!(plan.executable, "/data/chromedriver/chromedriver_PATCHED");
    assert_eq!(plan.working_dir, "/data/chromedriver");
    assert_eq!(plan.driver_arguments, vec!["--port=5123"]);
    assert_eq!(plan.settle_ms, 2000);
    assert_eq!(plan.endpoint, "http://localhost:5123");
    assert_eq!(plan.browser_arguments, chrome_arguments(""));
    assert_eq!(plan.excluded_switches, vec!["enable-automation"]);
}

#[test]
fn unpatched_driver_is_not_started() {
    assert_eq!(launch_plan(&installation(false), "", 5123), Err("Driver is not patched".to_string()));
    assert_eq!(
        open_chrome_with_driver(&installation(false), ""),
        Err("Driver is not patched".to_string())
    );
}

#[test]
fn ports_lie_in_their_range() {
    for _ in 0..2000 {
        let port = pick_port();
        assert!((5000..9000).contains(&port), "{}", port);
    }
}

#[test]
fn session_is_opened_on_a_port_of_the_range() {
    for _ in 0..200 {
        let plan = open_chrome_with_driver(&installation(true), "/profile").unwrap();
        let port: usize = plan.endpoint.strip_prefix("http://localhost:").unwrap().parse().unwrap();
        assert!((5000..9000).contains(&port));
        assert_eq!(plan, launch_plan(&installation(true), "/profile", port).unwrap());
    }
}

#[test]
fn versions_of_browser_and_driver() {
    assert_eq!(
        get_chrome_and_driver_info(&None, "Google Chrome 120.0.6099.109", "ChromeDriver 120.0.6099.71 (x)"),
        Ok(("120.0.6099.109".to_string(), "120.0.6099.71".to_string()))
    );
    assert_eq!(
        get_chrome_and_driver_info(&None, "", "ChromeDriver 120.0.6099.71 (x)"),
        Err("Failed to get Chrome version: Could not parse Chrome version".to_string())
    );
    assert_eq!(
        get_chrome_and_driver_info(&None, "Google Chrome 120.0.6099.109", "ChromeDriver"),
        Err("Could not parse chromedriver version".to_string())
    );
}

#[test]
fn bounded_wait() {
    assert_eq!(poll_until(true, 0, 500, 6000), Poll::Found);
    assert_eq!(poll_until(true, 7000, 500, 6000), Poll::Found);
    assert_eq!(poll_until(false, 0, 500, 6000), Poll::Wait { millis: 500 });
    assert_eq!(poll_until(false, 5999, 500, 6000), Poll::Wait { millis: 500 });
    assert_eq!(poll_until(false, 6000, 500, 6000), Poll::TimedOut);
    assert_eq!(poll_until(false, 0, 500, 0), Poll::TimedOut);
}
