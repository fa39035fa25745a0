//! Finding the installed browser and its version. The caller looks at the
//! disk and runs the commands; which path is taken, and what the outputs
//! mean, is decided here.

use vstd::prelude::*;
use crate::system::{os_named, parse_os, Os};
use crate::text::{join3, opt_view, same, trim, trimmed};
use crate::version::{
    browser_version_in,
    parse_browser_version,
    parse_registry_version,
    registry_version,
};

verus! {

/// The view of a result that holds a text either way.
pub open spec fn text_result(r: Result<String, String>) -> Result<Seq<char>, Seq<char>> {
    match r {
        Ok(s) => Ok(s@),
        Err(e) => Err(e@),
    }
}

/// The places where the browser is looked for, in the order in which they
/// are tried. The last place on Windows lies in the user's directory and is
/// left out where the user's name is not known.
pub open spec fn chrome_candidates(os: Os, username: Option<Seq<char>>) -> Seq<Seq<char>> {
    match os {
        Os::Windows => {
            let fixed = seq![
                "C:\\Program Files\\Google\\Chrome\\Application\\chrome.exe"@,
                "C:\\Program Files (x86)\\Google\\Chrome\\Application\\chrome.exe"@,
            ];
            match username {
                Some(user) => fixed.push(
                    "C:\\Users\\"@ + user
                        + "\\AppData\\Local\\Google\\Chrome\\Application\\chrome.exe"@,
                ),
                None => fixed,
            }
        },
        Os::Macos => seq!["/Applications/Google Chrome.app/Contents/MacOS/Google Chrome"@],
        Os::Linux => seq![
            "/usr/bin/google-chrome"@,
            "/usr/bin/google-chrome-stable"@,
            "/usr/bin/chromium"@,
            "/usr/bin/chromium-browser"@,
        ],
    }
}

/// The command that looks the browser up on the search path, and its
/// argument; macOS has none.
pub open spec fn locator(os: Os) -> Option<(Seq<char>, Seq<char>)> {
    match os {
        Os::Windows => Some(("where"@, "chrome.exe"@)),
        Os::Linux => Some(("which"@, "google-chrome"@)),
        Os::Macos => None,
    }
}

/// Offset of the first candidate at or after `i` that is among `existing`,
/// or -1.
pub open spec fn first_present(
    candidates: Seq<Seq<char>>,
    existing: Seq<Seq<char>>,
    i: int,
) -> int
    decreases candidates.len() - i,
{
    if i < 0 || i >= candidates.len() {
        -1
    } else if existing.contains(candidates[i]) {
        i
    } else {
        first_present(candidates, existing, i + 1)
    }
}

/// The browser's path: the first candidate that exists; else what the
/// locator printed, trimmed, if that is anything; else an error. An
/// operating system that is not supported is an error before all.
pub open spec fn chrome_choice(
    os_name: Seq<char>,
    username: Option<Seq<char>>,
    existing: Seq<Seq<char>>,
    located: Seq<char>,
) -> Result<Seq<char>, Seq<char>> {
    match os_named(os_name) {
        None => Err("Unsupported OS!"@),
        Some(os) => {
            let candidates = chrome_candidates(os, username);
            let at = first_present(candidates, existing, 0);
            if at >= 0 {
                Ok(candidates[at])
            } else if locator(os) is Some && trimmed(located).len() > 0 {
                Ok(trimmed(located))
            } else {
                Err("Chrome executable not found"@)
            }
        },
    }
}

/// The browser's version: the one in the registry listing, if there is a
/// listing and it gives one; else the last word of what the browser
/// printed; an error where it printed no word.
pub open spec fn chrome_version(
    registry_output: Option<Seq<char>>,
    version_output: Seq<char>,
) -> Result<Seq<char>, Seq<char>> {
    if registry_output is Some && registry_version(registry_output->0) is Some {
        Ok(registry_version(registry_output->0)->0)
    } else {
        match browser_version_in(version_output) {
            Some(v) => Ok(v),
            None => Err("Could not parse Chrome version"@),
        }
    }
}

/// The places where the browser is looked for, in order.
pub fn candidate_paths(os: Os, username: &Option<String>) -> (r: Vec<String>)
    ensures
        r.deep_view() == chrome_candidates(os, opt_view(*username)),
{
    let mut r: Vec<String> = Vec::new();
    match os {
        Os::Windows => {
            r.push(String::from_str("C:\\Program Files\\Google\\Chrome\\Application\\chrome.exe"));
            r.push(
                String::from_str(
                    "C:\\Program Files (x86)\\Google\\Chrome\\Application\\chrome.exe",
                ),
            );
            match username {
                Some(user) => {
                    r.push(
                        join3(
                            "C:\\Users\\",
                            user.as_str(),
                            "\\AppData\\Local\\Google\\Chrome\\Application\\chrome.exe",
                        ),
                    );
                },
                None => {},
            }
        },
        Os::Macos => {
            r.push(String::from_str("/Applications/Google Chrome.app/Contents/MacOS/Google Chrome"));
        },
        Os::Linux => {
            r.push(String::from_str("/usr/bin/google-chrome"));
            r.push(String::from_str("/usr/bin/google-chrome-stable"));
            r.push(String::from_str("/usr/bin/chromium"));
            r.push(String::from_str("/usr/bin/chromium-browser"));
        },
    }
    assert(r.deep_view() =~= chrome_candidates(os, opt_view(*username)));
    r
}

/// The command that looks the browser up on the search path, and its
/// argument.
pub fn locator_command(os: Os) -> (r: Option<(String, String)>)
    ensures
        r is Some == locator(os) is Some,
        r matches Some(c) ==> locator(os) == Some((c.0@, c.1@)),
{
    match os {
        Os::Windows => Some((String::from_str("where"), String::from_str("chrome.exe"))),
        Os::Linux => Some((String::from_str("which"), String::from_str("google-chrome"))),
        Os::Macos => None,
    }
}

/// Whether `path` is one of `paths`.
pub fn is_listed(paths: &Vec<String>, path: &str) -> (b: bool)
    ensures
        b == paths.deep_view().contains(path@),
{
    let mut i: usize = 0;
    while i < paths.len()
        invariant
            i <= paths.len(),
            forall|j: int| 0 <= j < i ==> paths.deep_view()[j] != path@,
        decreases paths.len() - i,
    {
        if same(paths[i].as_str(), path) {
            assert(paths.deep_view()[i as int] == path@);
            return true;
        }
        i += 1;
    }
    false
}

/// The browser's path. `os` is the name of the operating system, `existing`
/// the candidate paths at which a file was found, `located` what the locator
/// command printed (empty where it was not run or failed).
pub fn find_chrome_executable(
    os: &str,
    username: &Option<String>,
    existing: &Vec<String>,
    located: &str,
) -> (r: Result<String, String>)
    ensures
        text_result(r) == chrome_choice(os@, opt_view(*username), existing.deep_view(), located@),
{
    let system = match parse_os(os) {
        Some(system) => system,
        None => {
            return Err(String::from_str("Unsupported OS!"));
        },
    };
    let candidates = candidate_paths(system, username);
    let mut i: usize = 0;
    while i < candidates.len()
        invariant
            i <= candidates.len(),
            os_named(os@) == Some(system),
            candidates.deep_view() == chrome_candidates(system, opt_view(*username)),
            first_present(candidates.deep_view(), existing.deep_view(), 0) == first_present(
                candidates.deep_view(),
                existing.deep_view(),
                i as int,
            ),
        decreases candidates.len() - i,
    {
        if is_listed(existing, candidates[i].as_str()) {
            assert(candidates.deep_view()[i as int] == candidates[i as int]@);
            return Ok(candidates[i].clone());
        }
        i += 1;
    }
    if locator_command(system).is_some() {
        let path = trim(located);
        if path.as_str().unicode_len() > 0 {
            return Ok(path);
        }
    }
    Err(String::from_str("Chrome executable not found"))
}

/// The browser's version. `registry_output` is what the registry query
/// printed, where there is a registry and the query succeeded;
/// `version_output` is what the browser printed when asked for its version.
pub fn get_chrome_version(registry_output: &Option<String>, version_output: &str) -> (r: Result<
    String,
    String,
>)
    ensures
        text_result(r) == chrome_version(opt_view(*registry_output), version_output@),
{
    match registry_output {
        Some(listing) => {
            match parse_registry_version(listing.as_str()) {
                Some(v) => {
                    return Ok(v);
                },
                None => {},
            }
        },
        None => {},
    }
    match parse_browser_version(version_output) {
        Some(v) => Ok(v),
        None => Err(String::from_str("Could not parse Chrome version")),
    }
}

} // verus!
