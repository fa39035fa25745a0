//! Providing a patched driver that fits the installed browser, as a state
//! machine. The caller performs each `InstallAction` and reports what
//! happened as an `InstallEvent`; `Installer::step` decides what to do next.
//! A patched driver that is there and fits is used as it is; otherwise a
//! driver is fetched and patched.

use vstd::prelude::*;
use crate::system::{os_named, parse_os, Os};
use crate::text::join2;
use crate::version::{
    driver_version_in,
    fits,
    is_compatible,
    major_minor_of,
    major_minor_version,
    major_of,
    major_version,
    parse_driver_version,
};

verus! {

/// A driver that is ready to run.
#[derive(Debug, PartialEq, Eq)]
pub struct DriverInstallation {
    pub os: Os,
    pub install_dir: String,
    pub browser_major_version: String,
    pub driver_version: String,
    pub executable_path: String,
    pub patched: bool,
}

/// The mathematical value of a `DriverInstallation`.
pub struct DriverInstallationView {
    pub os: Os,
    pub install_dir: Seq<char>,
    pub browser_major_version: Seq<char>,
    pub driver_version: Seq<char>,
    pub executable_path: Seq<char>,
    pub patched: bool,
}

impl View for DriverInstallation {
    type V = DriverInstallationView;

    open spec fn view(&self) -> DriverInstallationView {
        DriverInstallationView {
            os: self.os,
            install_dir: self.install_dir@,
            browser_major_version: self.browser_major_version@,
            driver_version: self.driver_version@,
            executable_path: self.executable_path@,
            patched: self.patched,
        }
    }
}

/// What went wrong.
#[derive(Clone, Copy, Debug, PartialEq, Eq, Structural)]
pub enum InstallErrorKind {
    /// The install directory, or a driver that does not fit, could not be
    /// removed.
    RemoveFailed,
    /// No browser, or no version of it, was found.
    BrowserNotFound,
    /// No driver could be fetched.
    DriverFetchFailed,
    /// The driver could not be patched.
    PatchFailed,
}

/// Why there is no driver.
#[derive(Debug, PartialEq, Eq)]
pub struct InstallError {
    pub kind: InstallErrorKind,
    /// What the failed action reported.
    pub detail: String,
}

/// The mathematical value of an `InstallError`.
pub struct InstallErrorView {
    pub kind: InstallErrorKind,
    pub detail: Seq<char>,
}

impl View for InstallError {
    type V = InstallErrorView;

    open spec fn view(&self) -> InstallErrorView {
        InstallErrorView { kind: self.kind, detail: self.detail@ }
    }
}

/// The error as one line of text.
pub open spec fn error_text(error: InstallErrorView) -> Seq<char> {
    match error.kind {
        InstallErrorKind::RemoveFailed => "Failed to remove existing chromedriver: "@
            + error.detail,
        InstallErrorKind::BrowserNotFound => "Failed to get Chrome version: "@ + error.detail,
        InstallErrorKind::DriverFetchFailed => error.detail,
        InstallErrorKind::PatchFailed => error.detail,
    }
}

impl InstallError {
    /// The error as one line of text.
    pub fn message(&self) -> (r: String)
        ensures
            r@ == error_text(self@),
    {
        match self.kind {
            InstallErrorKind::RemoveFailed => join2(
                "Failed to remove existing chromedriver: ",
                self.detail.as_str(),
            ),
            InstallErrorKind::BrowserNotFound => join2(
                "Failed to get Chrome version: ",
                self.detail.as_str(),
            ),
            InstallErrorKind::DriverFetchFailed => self.detail.clone(),
            InstallErrorKind::PatchFailed => self.detail.clone(),
        }
    }
}

/// What the caller is asked to do.
#[derive(Debug, PartialEq, Eq)]
pub enum InstallAction {
    /// Remove the directory and all that is in it; report `Done` also where
    /// there was none.
    RemoveDirectory { path: String },
    /// Find the browser and its version; report it as `Text`.
    ResolveBrowser,
    /// Report as `Found` whether there is a file at the path.
    ProbeDriver { path: String },
    /// Run the driver at the path, asking for its version; report what it
    /// printed as `Text`.
    ReadDriverVersion { path: String },
    /// Remove the file at the path; report `Failed` where it is still there.
    Discard { path: String },
    /// Fetch the driver for a browser whose version begins with `version`
    /// and write it to `target`; report the driver's version as `Text`.
    Fetch { version: String, os: Os, target: String },
    /// Patch the driver at `source` and write the result to `target`.
    Patch { source: String, target: String },
    /// The driver is ready.
    Ready { installation: DriverInstallation },
    /// There is no driver.
    Fail { error: InstallError },
}

/// What the caller reports back.
#[derive(Debug, PartialEq, Eq)]
pub enum InstallEvent {
    /// The action was performed and has nothing to report.
    Done,
    /// The action was performed and reports a text.
    Text(String),
    /// The answer to a question.
    Found(bool),
    /// The action could not be performed.
    Failed(String),
}

/// The mathematical value of an `InstallAction`.
pub enum InstallActionView {
    RemoveDirectory { path: Seq<char> },
    ResolveBrowser,
    ProbeDriver { path: Seq<char> },
    ReadDriverVersion { path: Seq<char> },
    Discard { path: Seq<char> },
    Fetch { version: Seq<char>, os: Os, target: Seq<char> },
    Patch { source: Seq<char>, target: Seq<char> },
    Ready { installation: DriverInstallationView },
    Fail { error: InstallErrorView },
}

/// The mathematical value of an `InstallEvent`.
pub enum InstallEventView {
    Done,
    Text(Seq<char>),
    Found(bool),
    Failed(Seq<char>),
}

impl View for InstallAction {
    type V = InstallActionView;

    open spec fn view(&self) -> InstallActionView {
        match self {
            InstallAction::RemoveDirectory { path } => InstallActionView::RemoveDirectory {
                path: path@,
            },
            InstallAction::ResolveBrowser => InstallActionView::ResolveBrowser,
            InstallAction::ProbeDriver { path } => InstallActionView::ProbeDriver { path: path@ },
            InstallAction::ReadDriverVersion { path } => InstallActionView::ReadDriverVersion {
                path: path@,
            },
            InstallAction::Discard { path } => InstallActionView::Discard { path: path@ },
            InstallAction::Fetch { version, os, target } => InstallActionView::Fetch {
                version: version@,
                os: *os,
                target: target@,
            },
            InstallAction::Patch { source, target } => InstallActionView::Patch {
                source: source@,
                target: target@,
            },
            InstallAction::Ready { installation } => InstallActionView::Ready {
                installation: installation@,
            },
            InstallAction::Fail { error } => InstallActionView::Fail { error: error@ },
        }
    }
}

impl View for InstallEvent {
    type V = InstallEventView;

    open spec fn view(&self) -> InstallEventView {
        match self {
            InstallEvent::Done => InstallEventView::Done,
            InstallEvent::Text(s) => InstallEventView::Text(s@),
            InstallEvent::Found(b) => InstallEventView::Found(*b),
            InstallEvent::Failed(s) => InstallEventView::Failed(s@),
        }
    }
}

/// Where an installation stands.
#[derive(Clone, Copy, Debug, PartialEq, Eq, Structural)]
pub enum InstallStage {
    Start,
    Removing,
    Resolving,
    Probing,
    Reading,
    Discarding,
    Fetching,
    Patching,
    Ready,
    Failed,
}

/// The state of an installation as a mathematical value.
pub struct InstallerView {
    pub os: Os,
    pub install_dir: Seq<char>,
    /// Whether what is installed is removed first.
    pub redownload: bool,
    pub stage: InstallStage,
    /// The browser's version, once it is known.
    pub browser_version: Seq<char>,
    /// The driver's version, once it is known.
    pub driver_version: Seq<char>,
    /// What went wrong, once something has.
    pub error: InstallErrorView,
}

/// What a failed action reported.
pub open spec fn detail_of(event: InstallEventView) -> Seq<char> {
    match event {
        InstallEventView::Failed(e) => e,
        _ => Seq::empty(),
    }
}

impl InstallerView {
    /// An installation that has not begun.
    pub open spec fn initial(os: Os, install_dir: Seq<char>, redownload: bool) -> Self {
        InstallerView {
            os,
            install_dir,
            redownload,
            stage: InstallStage::Start,
            browser_version: Seq::empty(),
            driver_version: Seq::empty(),
            error: InstallErrorView { kind: InstallErrorKind::BrowserNotFound, detail: Seq::empty() },
        }
    }

    /// Where the driver is written as it is downloaded.
    pub open spec fn driver_path(self) -> Seq<char> {
        self.os.spec_path(self.install_dir, self.os.spec_driver_file())
    }

    /// Where the patched driver is written.
    pub open spec fn patched_path(self) -> Seq<char> {
        self.os.spec_path(self.install_dir, self.os.spec_patched_file())
    }

    /// The driver that is ready.
    pub open spec fn installation(self) -> DriverInstallationView {
        DriverInstallationView {
            os: self.os,
            install_dir: self.install_dir,
            browser_major_version: major_of(self.browser_version),
            driver_version: self.driver_version,
            executable_path: self.patched_path(),
            patched: true,
        }
    }

    /// The request to fetch a driver.
    pub open spec fn fetch(self) -> (Self, InstallActionView) {
        (
            InstallerView { stage: InstallStage::Fetching, ..self },
            InstallActionView::Fetch {
                version: major_minor_of(self.browser_version),
                os: self.os,
                target: self.driver_path(),
            },
        )
    }

    /// The end without a driver.
    pub open spec fn fail(self, kind: InstallErrorKind, event: InstallEventView) -> (
        Self,
        InstallActionView,
    ) {
        let error = InstallErrorView { kind, detail: detail_of(event) };
        (
            InstallerView { stage: InstallStage::Failed, error, ..self },
            InstallActionView::Fail { error },
        )
    }

    /// The end with a driver.
    pub open spec fn ready(self) -> (Self, InstallActionView) {
        (
            InstallerView { stage: InstallStage::Ready, ..self },
            InstallActionView::Ready { installation: self.installation() },
        )
    }

    /// The request to find the browser.
    pub open spec fn resolve(self) -> (Self, InstallActionView) {
        (InstallerView { stage: InstallStage::Resolving, ..self }, InstallActionView::ResolveBrowser)
    }

    /// One step of the installation: the state after the event, and what is
    /// asked next.
    pub open spec fn step(self, event: InstallEventView) -> (Self, InstallActionView) {
        match self.stage {
            InstallStage::Start => {
                if self.redownload {
                    (
                        InstallerView { stage: InstallStage::Removing, ..self },
                        InstallActionView::RemoveDirectory { path: self.install_dir },
                    )
                } else {
                    self.resolve()
                }
            },
            InstallStage::Removing => {
                if event is Failed {
                    self.fail(InstallErrorKind::RemoveFailed, event)
                } else {
                    self.resolve()
                }
            },
            InstallStage::Resolving => {
                match event {
                    InstallEventView::Text(version) => (
                        InstallerView {
                            stage: InstallStage::Probing,
                            browser_version: version,
                            ..self
                        },
                        InstallActionView::ProbeDriver { path: self.patched_path() },
                    ),
                    _ => self.fail(InstallErrorKind::BrowserNotFound, event),
                }
            },
            InstallStage::Probing => {
                if event == InstallEventView::Found(true) {
                    (
                        InstallerView { stage: InstallStage::Reading, ..self },
                        InstallActionView::ReadDriverVersion { path: self.patched_path() },
                    )
                } else {
                    self.fetch()
                }
            },
            InstallStage::Reading => {
                if event is Text && driver_version_in(event->Text_0) is Some && major_of(
                    self.browser_version,
                ).len() > 0 && fits(
                    driver_version_in(event->Text_0)->0,
                    major_of(self.browser_version),
                ) {
                    InstallerView {
                        driver_version: driver_version_in(event->Text_0)->0,
                        ..self
                    }.ready()
                } else {
                    (
                        InstallerView { stage: InstallStage::Discarding, ..self },
                        InstallActionView::Discard { path: self.patched_path() },
                    )
                }
            },
            InstallStage::Discarding => {
                if event is Failed {
                    self.fail(InstallErrorKind::RemoveFailed, event)
                } else {
                    self.fetch()
                }
            },
            InstallStage::Fetching => {
                match event {
                    InstallEventView::Text(version) => (
                        InstallerView {
                            stage: InstallStage::Patching,
                            driver_version: version,
                            ..self
                        },
                        InstallActionView::Patch {
                            source: self.driver_path(),
                            target: self.patched_path(),
                        },
                    ),
                    _ => self.fail(InstallErrorKind::DriverFetchFailed, event),
                }
            },
            InstallStage::Patching => {
                if event is Failed {
                    self.fail(InstallErrorKind::PatchFailed, event)
                } else {
                    self.ready()
                }
            },
            InstallStage::Ready => self.ready(),
            InstallStage::Failed => (self, InstallActionView::Fail { error: self.error }),
        }
    }
}

/// An installation in progress.
pub struct Installer {
    os: Os,
    install_dir: String,
    redownload: bool,
    stage: InstallStage,
    browser_version: String,
    driver_version: String,
    error_kind: InstallErrorKind,
    error_detail: String,
}

impl View for Installer {
    type V = InstallerView;

    closed spec fn view(&self) -> InstallerView {
        InstallerView {
            os: self.os,
            install_dir: self.install_dir@,
            redownload: self.redownload,
            stage: self.stage,
            browser_version: self.browser_version@,
            driver_version: self.driver_version@,
            error: InstallErrorView { kind: self.error_kind, detail: self.error_detail@ },
        }
    }
}

/// The machine that an operating system's name and a directory give, or the
/// error for a system that is not supported.
pub open spec fn installer_for(os_name: Seq<char>, install_dir: Seq<char>, redownload: bool) -> Result<
    InstallerView,
    Seq<char>,
> {
    match os_named(os_name) {
        Some(os) => Ok(InstallerView::initial(os, install_dir, redownload)),
        None => Err("Unsupported OS!"@),
    }
}

impl Installer {
    /// An installation that has not begun, for the system with this name.
    fn new(os_name: &str, install_dir: &str, redownload: bool) -> (r: Result<Installer, String>)
        ensures
            r is Ok == installer_for(os_name@, install_dir@, redownload) is Ok,
            r matches Ok(i) ==> installer_for(os_name@, install_dir@, redownload) == Ok::<
                InstallerView,
                Seq<char>,
            >(i@),
            r matches Err(e) ==> installer_for(os_name@, install_dir@, redownload) == Err::<
                InstallerView,
                Seq<char>,
            >(e@),
    {
        match parse_os(os_name) {
            Some(os) => Ok(
                Installer {
                    os,
                    install_dir: String::from_str(install_dir),
                    redownload,
                    stage: InstallStage::Start,
                    browser_version: String::new(),
                    driver_version: String::new(),
                    error_kind: InstallErrorKind::BrowserNotFound,
                    error_detail: String::new(),
                },
            ),
            None => Err(String::from_str("Unsupported OS!")),
        }
    }

    /// Where the driver is written as it is downloaded.
    fn driver_path(&self) -> (r: String)
        ensures
            r@ == self@.driver_path(),
    {
        let file = self.os.driver_file();
        self.os.path(self.install_dir.as_str(), file.as_str())
    }

    /// Where the patched driver is written.
    fn patched_path(&self) -> (r: String)
        ensures
            r@ == self@.patched_path(),
    {
        let file = self.os.patched_file();
        self.os.path(self.install_dir.as_str(), file.as_str())
    }

    /// Asks for a driver to be fetched.
    fn fetch(&mut self) -> (action: InstallAction)
        ensures
            (final(self)@, action@) == old(self)@.fetch(),
    {
        self.stage = InstallStage::Fetching;
        InstallAction::Fetch {
            version: major_minor_version(self.browser_version.as_str()),
            os: self.os,
            target: self.driver_path(),
        }
    }

    /// Ends without a driver.
    fn fail(&mut self, kind: InstallErrorKind, event: InstallEvent) -> (action: InstallAction)
        ensures
            (final(self)@, action@) == old(self)@.fail(kind, event@),
    {
        let detail = match event {
            InstallEvent::Failed(e) => e,
            _ => String::new(),
        };
        self.stage = InstallStage::Failed;
        self.error_kind = kind;
        self.error_detail = detail.clone();
        InstallAction::Fail { error: InstallError { kind, detail } }
    }

    /// Ends with a driver.
    fn ready(&mut self) -> (action: InstallAction)
        ensures
            (final(self)@, action@) == old(self)@.ready(),
    {
        self.stage = InstallStage::Ready;
        InstallAction::Ready {
            installation: DriverInstallation {
                os: self.os,
                install_dir: self.install_dir.clone(),
                browser_major_version: major_version(self.browser_version.as_str()),
                driver_version: self.driver_version.clone(),
                executable_path: self.patched_path(),
                patched: true,
            },
        }
    }

    /// Asks for the browser to be found.
    fn resolve(&mut self) -> (action: InstallAction)
        ensures
            (final(self)@, action@) == old(self)@.resolve(),
    {
        self.stage = InstallStage::Resolving;
        InstallAction::ResolveBrowser
    }

    /// Whether the installation has ended, with a driver or without.
    pub fn is_over(&self) -> (b: bool)
        ensures
            b == (self@.stage == InstallStage::Ready || self@.stage == InstallStage::Failed),
    {
        match self.stage {
            InstallStage::Ready => true,
            InstallStage::Failed => true,
            _ => false,
        }
    }

    /// Takes what happened and says what to do next. The first step begins
    /// the installation, whatever its event. Once it has answered `Ready` or
    /// `Fail` it gives that answer again.
    pub fn step(&mut self, event: InstallEvent) -> (action: InstallAction)
        ensures
            (final(self)@, action@) == old(self)@.step(event@),
            action matches InstallAction::Ready { installation } ==> installation.patched,
    {
        match self.stage {
            InstallStage::Start => {
                if self.redownload {
                    self.stage = InstallStage::Removing;
                    InstallAction::RemoveDirectory { path: self.install_dir.clone() }
                } else {
                    self.resolve()
                }
            },
            InstallStage::Removing => {
                match event {
                    InstallEvent::Failed(_) => self.fail(InstallErrorKind::RemoveFailed, event),
                    _ => self.resolve(),
                }
            },
            InstallStage::Resolving => {
                match event {
                    InstallEvent::Text(version) => {
                        let path = self.patched_path();
                        self.browser_version = version;
                        self.stage = InstallStage::Probing;
                        InstallAction::ProbeDriver { path }
                    },
                    _ => self.fail(InstallErrorKind::BrowserNotFound, event),
                }
            },
            InstallStage::Probing => {
                match event {
                    InstallEvent::Found(true) => {
                        self.stage = InstallStage::Reading;
                        InstallAction::ReadDriverVersion { path: self.patched_path() }
                    },
                    _ => self.fetch(),
                }
            },
            InstallStage::Reading => {
                let version = match &event {
                    InstallEvent::Text(output) => parse_driver_version(output.as_str()),
                    _ => None,
                };
                let major = major_version(self.browser_version.as_str());
                match version {
                    Some(v) => {
                        if major.as_str().unicode_len() > 0 && is_compatible(
                            v.as_str(),
                            major.as_str(),
                        ) {
                            self.driver_version = v;
                            return self.ready();
                        }
                    },
                    None => {},
                }
                self.stage = InstallStage::Discarding;
                InstallAction::Discard { path: self.patched_path() }
            },
            InstallStage::Discarding => {
                match event {
                    InstallEvent::Failed(_) => self.fail(InstallErrorKind::RemoveFailed, event),
                    _ => self.fetch(),
                }
            },
            InstallStage::Fetching => {
                match event {
                    InstallEvent::Text(version) => {
                        let source = self.driver_path();
                        let target = self.patched_path();
                        self.driver_version = version;
                        self.stage = InstallStage::Patching;
                        InstallAction::Patch { source, target }
                    },
                    _ => self.fail(InstallErrorKind::DriverFetchFailed, event),
                }
            },
            InstallStage::Patching => {
                match event {
                    InstallEvent::Failed(_) => self.fail(InstallErrorKind::PatchFailed, event),
                    _ => self.ready(),
                }
            },
            InstallStage::Ready => self.ready(),
            InstallStage::Failed => InstallAction::Fail {
                error: InstallError { kind: self.error_kind, detail: self.error_detail.clone() },
            },
        }
    }
}

/// The installation that provides a driver for the browser, using the one
/// that is installed if it fits. `os` is the name of the operating system,
/// `install_dir` the directory that holds the driver.
pub fn ensure_chromedriver(os: &str, install_dir: &str) -> (r: Result<Installer, String>)
    ensures
        r is Ok == installer_for(os@, install_dir@, false) is Ok,
        r matches Ok(i) ==> installer_for(os@, install_dir@, false) == Ok::<InstallerView, Seq<char>>(
            i@,
        ),
        r matches Err(e) ==> installer_for(os@, install_dir@, false) == Err::<
            InstallerView,
            Seq<char>,
        >(e@),
{
    Installer::new(os, install_dir, false)
}

/// The installation that removes what is installed and provides a driver
/// anew.
pub fn redownload_chromedriver(os: &str, install_dir: &str) -> (r: Result<Installer, String>)
    ensures
        r is Ok == installer_for(os@, install_dir@, true) is Ok,
        r matches Ok(i) ==> installer_for(os@, install_dir@, true) == Ok::<InstallerView, Seq<char>>(
            i@,
        ),
        r matches Err(e) ==> installer_for(os@, install_dir@, true) == Err::<
            InstallerView,
            Seq<char>,
        >(e@),
{
    Installer::new(os, install_dir, true)
}

/// Where a patched driver is there and fits the browser, the installation
/// is ready after three questions, none of which goes to the network: the
/// browser's version, whether the driver is there, and the driver's version.
pub proof fn lemma_fitting_driver_is_kept(
    os: Os,
    install_dir: Seq<char>,
    first: InstallEventView,
    browser_version: Seq<char>,
    output: Seq<char>,
)
    requires
        driver_version_in(output) is Some,
        major_of(browser_version).len() > 0,
        fits(driver_version_in(output)->0, major_of(browser_version)),
    ensures
        ({
            let s0 = InstallerView::initial(os, install_dir, false);
            let (s1, a1) = s0.step(first);
            let (s2, a2) = s1.step(InstallEventView::Text(browser_version));
            let (s3, a3) = s2.step(InstallEventView::Found(true));
            let (s4, a4) = s3.step(InstallEventView::Text(output));
            &&& a1 == InstallActionView::ResolveBrowser
            &&& a2 == InstallActionView::ProbeDriver { path: s0.patched_path() }
            &&& a3 == InstallActionView::ReadDriverVersion { path: s0.patched_path() }
            &&& a4 is Ready
            &&& a4->installation.patched
            &&& a4->installation.executable_path == s0.patched_path()
            &&& a4->installation.driver_version == driver_version_in(output)->0
            &&& s4.stage == InstallStage::Ready
        }),
{
}

/// A patched driver that is there is kept only where its major version is
/// the browser's, whole component against whole component, and the
/// browser's is not empty; any other is discarded, as is one whose version
/// cannot be read.
pub proof fn lemma_only_fitting_driver_is_kept(s: InstallerView, event: InstallEventView)
    requires
        s.stage == InstallStage::Reading,
    ensures
        s.step(event).1 is Ready <==> event is Text && driver_version_in(event->Text_0) is Some
            && major_of(s.browser_version).len() > 0 && major_of(
            driver_version_in(event->Text_0)->0,
        ) == major_of(s.browser_version),
        !(s.step(event).1 is Ready) ==> s.step(event).1 == (InstallActionView::Discard {
            path: s.patched_path(),
        }),
{
}

/// A driver is fetched only where none is installed or the installed one was
/// discarded, and every step from a ready installation answers `Ready`. A
/// driver that cannot be discarded ends the installation.
pub proof fn lemma_fetch_only_when_needed(s: InstallerView, event: InstallEventView)
    ensures
        s.step(event).1 is Fetch ==> (s.stage == InstallStage::Probing && event
            != InstallEventView::Found(true)) || (s.stage == InstallStage::Discarding && !(event
            is Failed)),
        s.stage == InstallStage::Ready ==> s.step(event).1 is Ready && s.step(event).0 == s,
        s.step(event).1 matches InstallActionView::Ready { installation } ==> installation.patched,
        s.stage == InstallStage::Discarding && event is Failed ==> s.step(event).1 is Fail
            && s.step(event).1->error.kind == InstallErrorKind::RemoveFailed,
{
}

} // verus!
