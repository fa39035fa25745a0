//! Starting the driver and opening a browser session: the command line of
//! the driver, the port it listens on, and the profile of the browser. Also
//! the one decision of a bounded wait.

use vstd::prelude::*;
use crate::chrome::{chrome_version, get_chrome_version};
use crate::install::{DriverInstallation, DriverInstallationView};
use crate::patch::random_below;
use crate::text::{join2, opt_view};
use crate::version::{driver_version_in, parse_driver_version};

verus! {

/// The lowest port that a driver is given.
pub open spec fn first_port() -> int {
    5000
}

/// The port behind the highest that a driver is given.
pub open spec fn end_port() -> int {
    9000
}

/// The text of a digit.
pub open spec fn digit_text(d: int) -> Seq<char> {
    if d == 0 {
        "0"@
    } else if d == 1 {
        "1"@
    } else if d == 2 {
        "2"@
    } else if d == 3 {
        "3"@
    } else if d == 4 {
        "4"@
    } else if d == 5 {
        "5"@
    } else if d == 6 {
        "6"@
    } else if d == 7 {
        "7"@
    } else if d == 8 {
        "8"@
    } else {
        "9"@
    }
}

/// A number in decimal digits.
pub open spec fn decimal_text(n: nat) -> Seq<char>
    decreases n,
{
    if n < 10 {
        digit_text(n as int)
    } else {
        decimal_text(n / 10) + digit_text((n % 10) as int)
    }
}

/// The text of a digit.
fn digit(d: usize) -> (r: &'static str)
    requires
        d < 10,
    ensures
        r@ == digit_text(d as int),
{
    if d == 0 {
        "0"
    } else if d == 1 {
        "1"
    } else if d == 2 {
        "2"
    } else if d == 3 {
        "3"
    } else if d == 4 {
        "4"
    } else if d == 5 {
        "5"
    } else if d == 6 {
        "6"
    } else if d == 7 {
        "7"
    } else if d == 8 {
        "8"
    } else {
        "9"
    }
}

/// A number in decimal digits.
pub fn decimal(n: usize) -> (r: String)
    ensures
        r@ == decimal_text(n as nat),
    decreases n,
{
    if n < 10 {
        String::from_str(digit(n))
    } else {
        let mut r = decimal(n / 10);
        r.append(digit(n % 10));
        r
    }
}

/// The user agent that the browser reports.
pub open spec fn user_agent() -> Seq<char> {
    "user-agent=Mozilla/5.0 (Windows NT 10.0; Win64; x64) AppleWebKit/537.36 (KHTML, like Gecko) Chrome/102.0.0.0 Safari/537.36"@
}

/// The arguments that the browser is started with. A profile directory is
/// named first, where one is given.
pub open spec fn browser_arguments(profile: Seq<char>) -> Seq<Seq<char>> {
    let fixed = seq![
        "--no-sandbox"@,
        "--disable-dev-shm-usage"@,
        "--disable-blink-features=AutomationControlled"@,
        "window-size=1920,1080"@,
        user_agent(),
        "disable-infobars"@,
    ];
    if profile.len() > 0 {
        seq!["--user-data-dir="@ + profile] + fixed
    } else {
        fixed
    }
}

/// How a driver is started and a session opened.
#[derive(Debug, PartialEq, Eq)]
pub struct LaunchPlan {
    /// The driver to run.
    pub executable: String,
    /// The directory to run it in.
    pub working_dir: String,
    /// The arguments to run it with.
    pub driver_arguments: Vec<String>,
    /// How long the driver is given before the session is opened.
    pub settle_ms: u64,
    /// Where the driver listens.
    pub endpoint: String,
    /// The arguments that the browser is started with.
    pub browser_arguments: Vec<String>,
    /// The switches that the browser is started without.
    pub excluded_switches: Vec<String>,
}

/// The mathematical value of a `LaunchPlan`.
pub struct LaunchPlanView {
    pub executable: Seq<char>,
    pub working_dir: Seq<char>,
    pub driver_arguments: Seq<Seq<char>>,
    pub settle_ms: u64,
    pub endpoint: Seq<char>,
    pub browser_arguments: Seq<Seq<char>>,
    pub excluded_switches: Seq<Seq<char>>,
}

impl View for LaunchPlan {
    type V = LaunchPlanView;

    open spec fn view(&self) -> LaunchPlanView {
        LaunchPlanView {
            executable: self.executable@,
            working_dir: self.working_dir@,
            driver_arguments: self.driver_arguments.deep_view(),
            settle_ms: self.settle_ms,
            endpoint: self.endpoint@,
            browser_arguments: self.browser_arguments.deep_view(),
            excluded_switches: self.excluded_switches.deep_view(),
        }
    }
}

/// The plan for a patched driver, a profile directory (empty for none) and a
/// port; an error for a driver that is not patched.
pub open spec fn planned(
    installation: DriverInstallationView,
    profile: Seq<char>,
    port: nat,
) -> Result<LaunchPlanView, Seq<char>> {
    if installation.patched {
        Ok(
            LaunchPlanView {
                executable: installation.executable_path,
                working_dir: installation.install_dir,
                driver_arguments: seq!["--port="@ + decimal_text(port)],
                settle_ms: 2000,
                endpoint: "http://localhost:"@ + decimal_text(port),
                browser_arguments: browser_arguments(profile),
                excluded_switches: seq!["enable-automation"@],
            },
        )
    } else {
        Err("Driver is not patched"@)
    }
}

/// The view of a plan or an error.
pub open spec fn plan_result(r: Result<LaunchPlan, String>) -> Result<LaunchPlanView, Seq<char>> {
    match r {
        Ok(plan) => Ok(plan@),
        Err(e) => Err(e@),
    }
}

/// The arguments that the browser is started with.
pub fn chrome_arguments(profile: &str) -> (r: Vec<String>)
    ensures
        r.deep_view() == browser_arguments(profile@),
{
    let mut r: Vec<String> = Vec::new();
    if profile.unicode_len() > 0 {
        r.push(join2("--user-data-dir=", profile));
    }
    r.push(String::from_str("--no-sandbox"));
    r.push(String::from_str("--disable-dev-shm-usage"));
    r.push(String::from_str("--disable-blink-features=AutomationControlled"));
    r.push(String::from_str("window-size=1920,1080"));
    r.push(
        String::from_str(
            "user-agent=Mozilla/5.0 (Windows NT 10.0; Win64; x64) AppleWebKit/537.36 (KHTML, like Gecko) Chrome/102.0.0.0 Safari/537.36",
        ),
    );
    r.push(String::from_str("disable-infobars"));
    assert(r.deep_view() =~= browser_arguments(profile@));
    r
}

/// How to start the driver of an installation on a port and open a session
/// with a profile directory (empty for none).
pub fn launch_plan(installation: &DriverInstallation, profile: &str, port: usize) -> (r: Result<
    LaunchPlan,
    String,
>)
    ensures
        plan_result(r) == planned(installation@, profile@, port as nat),
{
    if !installation.patched {
        return Err(String::from_str("Driver is not patched"));
    }
    let number = decimal(port);
    let mut driver_arguments: Vec<String> = Vec::new();
    driver_arguments.push(join2("--port=", number.as_str()));
    assert(driver_arguments.deep_view() =~= seq!["--port="@ + decimal_text(port as nat)]);
    let mut excluded_switches: Vec<String> = Vec::new();
    excluded_switches.push(String::from_str("enable-automation"));
    assert(excluded_switches.deep_view() =~= seq!["enable-automation"@]);
    Ok(
        LaunchPlan {
            executable: installation.executable_path.clone(),
            working_dir: installation.install_dir.clone(),
            driver_arguments,
            settle_ms: 2000,
            endpoint: join2("http://localhost:", number.as_str()),
            browser_arguments: chrome_arguments(profile),
            excluded_switches,
        },
    )
}

/// A port for a driver, drawn at random between the first and the end port.
pub fn pick_port() -> (port: usize)
    ensures
        first_port() <= port < end_port(),
{
    5000 + random_below(4000)
}

/// How to start the driver of an installation on a port drawn at random,
/// and open a session with a profile directory (empty for none).
pub fn open_chrome_with_driver(installation: &DriverInstallation, profile: &str) -> (r: Result<
    LaunchPlan,
    String,
>)
    ensures
        exists|port: nat|
            first_port() <= port < end_port() && plan_result(r) == #[trigger] planned(
                installation@,
                profile@,
                port,
            ),
{
    let port = pick_port();
    let r = launch_plan(installation, profile, port);
    assert(plan_result(r) == planned(installation@, profile@, port as nat));
    r
}

/// The versions of browser and driver: the browser's as `chrome_version`
/// gives it, the driver's from what the driver printed.
pub open spec fn versions(
    registry_output: Option<Seq<char>>,
    version_output: Seq<char>,
    driver_output: Seq<char>,
) -> Result<(Seq<char>, Seq<char>), Seq<char>> {
    match chrome_version(registry_output, version_output) {
        Err(e) => Err("Failed to get Chrome version: "@ + e),
        Ok(browser) => match driver_version_in(driver_output) {
            None => Err("Could not parse chromedriver version"@),
            Some(driver) => Ok((browser, driver)),
        },
    }
}

/// The view of a pair of versions or an error.
pub open spec fn versions_result(r: Result<(String, String), String>) -> Result<
    (Seq<char>, Seq<char>),
    Seq<char>,
> {
    match r {
        Ok(pair) => Ok((pair.0@, pair.1@)),
        Err(e) => Err(e@),
    }
}

/// The versions of browser and driver, from what the registry query (where
/// there is one), the browser and the driver printed.
pub fn get_chrome_and_driver_info(
    registry_output: &Option<String>,
    version_output: &str,
    driver_output: &str,
) -> (r: Result<(String, String), String>)
    ensures
        versions_result(r) == versions(opt_view(*registry_output), version_output@, driver_output@),
{
    match get_chrome_version(registry_output, version_output) {
        Err(e) => Err(join2("Failed to get Chrome version: ", e.as_str())),
        Ok(browser) => match parse_driver_version(driver_output) {
            None => Err(String::from_str("Could not parse chromedriver version")),
            Some(driver) => Ok((browser, driver)),
        },
    }
}

/// What a bounded wait does next.
#[derive(Clone, Copy, Debug, PartialEq, Eq, Structural)]
pub enum Poll {
    /// What was waited for is there.
    Found,
    /// The time is up. This is no error: the caller goes on without.
    TimedOut,
    /// Look again after so many milliseconds.
    Wait { millis: u64 },
}

/// A bounded wait ends when what is waited for is there, or else when the
/// time that has passed reaches the timeout; until then it waits one
/// interval and looks again.
pub open spec fn poll_decision(found: bool, elapsed_ms: u64, interval_ms: u64, timeout_ms: u64) -> Poll {
    if found {
        Poll::Found
    } else if elapsed_ms >= timeout_ms {
        Poll::TimedOut
    } else {
        Poll::Wait { millis: interval_ms }
    }
}

/// What a bounded wait does after a look: `found` says whether what is
/// waited for was there, `elapsed_ms` how long the wait has lasted.
pub fn poll_until(found: bool, elapsed_ms: u64, interval_ms: u64, timeout_ms: u64) -> (r: Poll)
    ensures
        r == poll_decision(found, elapsed_ms, interval_ms, timeout_ms),
{
    if found {
        Poll::Found
    } else if elapsed_ms >= timeout_ms {
        Poll::TimedOut
    } else {
        Poll::Wait { millis: interval_ms }
    }
}

} // verus!
