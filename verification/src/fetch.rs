//! Choosing and unpacking a driver: which release of the catalog fits the
//! browser, which of its downloads fits the machine, and which entry of the
//! downloaded archive is the driver.

use std::io::Cursor;
use std::io::Read;
use vstd::prelude::*;
use zip::result::ZipError;
use zip::ZipArchive;
use crate::system::Os;
use crate::text::{contains, ends_with, has_substring, join3, starts_with};

verus! {

/// One download of a release.
#[derive(Debug, PartialEq, Eq)]
pub struct Download {
    /// The tag of the system that the download is for.
    pub platform: String,
    pub url: String,
}

/// One release of the catalog with its driver downloads.
#[derive(Debug, PartialEq, Eq)]
pub struct Release {
    pub version: String,
    pub downloads: Vec<Download>,
}

/// The mathematical value of a `Download`.
pub struct DownloadView {
    pub platform: Seq<char>,
    pub url: Seq<char>,
}

/// The mathematical value of a `Release`.
pub struct ReleaseView {
    pub version: Seq<char>,
    pub downloads: Seq<DownloadView>,
}

impl View for Download {
    type V = DownloadView;

    open spec fn view(&self) -> DownloadView {
        DownloadView { platform: self.platform@, url: self.url@ }
    }
}

impl DeepView for Download {
    type V = DownloadView;

    open spec fn deep_view(&self) -> DownloadView {
        self@
    }
}

impl View for Release {
    type V = ReleaseView;

    open spec fn view(&self) -> ReleaseView {
        ReleaseView { version: self.version@, downloads: self.downloads.deep_view() }
    }
}

impl DeepView for Release {
    type V = ReleaseView;

    open spec fn deep_view(&self) -> ReleaseView {
        self@
    }
}

/// Why no driver could be fetched.
#[derive(Clone, Copy, Debug, PartialEq, Eq, Structural)]
pub enum FetchError {
    /// The catalog or the archive could not be downloaded.
    Network,
    /// The catalog is no catalog.
    MalformedCatalog,
    /// The catalog lists no release.
    EmptyCatalog,
    /// The chosen release has no download for this system.
    NoPlatformEntry,
    /// The archive cannot be read.
    BadArchive,
    /// The archive holds no driver.
    NoExecutable,
}

/// The error as one line of text, for the system with this download tag and
/// this driver file name.
pub open spec fn fetch_error_text(error: FetchError, tag: Seq<char>, file: Seq<char>) -> Seq<char> {
    match error {
        FetchError::Network => "Failed to download chromedriver"@,
        FetchError::MalformedCatalog => "versions not found in JSON"@,
        FetchError::EmptyCatalog => "no versions in JSON"@,
        FetchError::NoPlatformEntry => "no "@ + tag + " chromedriver in JSON"@,
        FetchError::BadArchive => "Failed to open zip archive"@,
        FetchError::NoExecutable => "Failed to find chromedriver in archive: "@ + file
            + " not found"@,
    }
}

impl FetchError {
    /// The error as one line of text, for the system with this download tag
    /// and this driver file name.
    pub fn message(self, tag: &str, file: &str) -> (r: String)
        ensures
            r@ == fetch_error_text(self, tag@, file@),
    {
        match self {
            FetchError::Network => String::from_str("Failed to download chromedriver"),
            FetchError::MalformedCatalog => String::from_str("versions not found in JSON"),
            FetchError::EmptyCatalog => String::from_str("no versions in JSON"),
            FetchError::NoPlatformEntry => join3("no ", tag, " chromedriver in JSON"),
            FetchError::BadArchive => String::from_str("Failed to open zip archive"),
            FetchError::NoExecutable => join3(
                "Failed to find chromedriver in archive: ",
                file,
                " not found",
            ),
        }
    }
}

/// The address of the catalog.
pub open spec fn spec_catalog_url() -> Seq<char> {
    "https://googlechromelabs.github.io/chrome-for-testing/known-good-versions-with-downloads.json"@
}

/// Offset of the first release at or after `i` whose version begins with
/// `prefix`, or -1.
pub open spec fn matching_release(releases: Seq<ReleaseView>, prefix: Seq<char>, i: int) -> int
    decreases releases.len() - i,
{
    if i < 0 || i >= releases.len() {
        -1
    } else if prefix.is_prefix_of(releases[i].version) {
        i
    } else {
        matching_release(releases, prefix, i + 1)
    }
}

/// Offset of the release to take: the first whose version begins with
/// `prefix`, or, as the catalog may lag behind the browser, the first of
/// all; -1 for an empty catalog.
pub open spec fn chosen_release(releases: Seq<ReleaseView>, prefix: Seq<char>) -> int {
    let at = matching_release(releases, prefix, 0);
    if at >= 0 {
        at
    } else if releases.len() > 0 {
        0
    } else {
        -1
    }
}

/// Offset of the first download at or after `i` whose platform holds `tag`,
/// or -1.
pub open spec fn matching_download(downloads: Seq<DownloadView>, tag: Seq<char>, i: int) -> int
    decreases downloads.len() - i,
{
    if i < 0 || i >= downloads.len() {
        -1
    } else if has_substring(downloads[i].platform, tag) {
        i
    } else {
        matching_download(downloads, tag, i + 1)
    }
}

/// The address to download the driver from, or why there is none.
pub open spec fn selected_url(
    releases: Seq<ReleaseView>,
    prefix: Seq<char>,
    tag: Seq<char>,
) -> Result<Seq<char>, FetchError> {
    let r = chosen_release(releases, prefix);
    if r < 0 {
        Err(FetchError::EmptyCatalog)
    } else {
        let d = matching_download(releases[r].downloads, tag, 0);
        if d < 0 {
            Err(FetchError::NoPlatformEntry)
        } else {
            Ok(releases[r].downloads[d].url)
        }
    }
}

/// An entry of an archive is the driver if its name ends with the driver's
/// file name and does not name a directory.
pub open spec fn is_driver_entry(name: Seq<char>, file: Seq<char>) -> bool {
    file.is_suffix_of(name) && !"/"@.is_suffix_of(name)
}

/// Offset of the first name at or after `i` that is the driver's, or -1.
pub open spec fn first_driver_entry(names: Seq<Seq<char>>, file: Seq<char>, i: int) -> int
    decreases names.len() - i,
{
    if i < 0 || i >= names.len() {
        -1
    } else if is_driver_entry(names[i], file) {
        i
    } else {
        first_driver_entry(names, file, i + 1)
    }
}

/// The address of the catalog.
pub fn catalog_url() -> (r: String)
    ensures
        r@ == spec_catalog_url(),
{
    String::from_str(
        "https://googlechromelabs.github.io/chrome-for-testing/known-good-versions-with-downloads.json",
    )
}

/// The release to take for a browser whose version begins with `prefix`.
pub fn choose_release(releases: &Vec<Release>, prefix: &str) -> (r: Option<usize>)
    ensures
        r matches Some(i) ==> chosen_release(releases.deep_view(), prefix@) == i && i
            < releases.len(),
        r is None ==> chosen_release(releases.deep_view(), prefix@) == -1,
{
    let mut i: usize = 0;
    while i < releases.len()
        invariant
            i <= releases.len(),
            matching_release(releases.deep_view(), prefix@, 0) == matching_release(
                releases.deep_view(),
                prefix@,
                i as int,
            ),
        decreases releases.len() - i,
    {
        if starts_with(releases[i].version.as_str(), prefix) {
            return Some(i);
        }
        i += 1;
    }
    if releases.len() > 0 {
        Some(0)
    } else {
        None
    }
}

/// The download of a release for the system with this tag.
pub fn choose_download(downloads: &Vec<Download>, tag: &str) -> (r: Option<usize>)
    ensures
        r matches Some(i) ==> matching_download(downloads.deep_view(), tag@, 0) == i && i
            < downloads.len(),
        r is None ==> matching_download(downloads.deep_view(), tag@, 0) == -1,
{
    let mut i: usize = 0;
    while i < downloads.len()
        invariant
            i <= downloads.len(),
            matching_download(downloads.deep_view(), tag@, 0) == matching_download(
                downloads.deep_view(),
                tag@,
                i as int,
            ),
        decreases downloads.len() - i,
    {
        if contains(downloads[i].platform.as_str(), tag) {
            return Some(i);
        }
        i += 1;
    }
    None
}

/// The address to download the driver from: that of the first download for
/// the system with this tag, in the release chosen for the browser.
pub fn select_download(releases: &Vec<Release>, prefix: &str, tag: &str) -> (r: Result<
    String,
    FetchError,
>)
    ensures
        r is Ok == selected_url(releases.deep_view(), prefix@, tag@) is Ok,
        r matches Ok(url) ==> selected_url(releases.deep_view(), prefix@, tag@) == Ok::<
            Seq<char>,
            FetchError,
        >(url@),
        r matches Err(e) ==> selected_url(releases.deep_view(), prefix@, tag@) == Err::<
            Seq<char>,
            FetchError,
        >(e),
{
    match choose_release(releases, prefix) {
        None => Err(FetchError::EmptyCatalog),
        Some(i) => {
            let release = &releases[i];
            assert(releases.deep_view()[i as int] == release@);
            match choose_download(&release.downloads, tag) {
                None => Err(FetchError::NoPlatformEntry),
                Some(d) => {
                    assert(release.downloads.deep_view()[d as int] == release.downloads[d as int]@);
                    Ok(release.downloads[d].url.clone())
                },
            }
        },
    }
}

/// Whether an entry with this name is the driver.
pub fn is_driver_entry_name(name: &str, file: &str) -> (b: bool)
    ensures
        b == is_driver_entry(name@, file@),
{
    ends_with(name, file) && !ends_with(name, "/")
}

/// Declares `zip::ZipArchive`, the reader of an archive. Nothing is known
/// of what is inside a value.
#[verifier::external_type_specification]
#[verifier::external_body]
#[verifier::reject_recursive_types(R)]
pub struct ExZipArchive<R>(ZipArchive<R>);

/// Declares `std::io::Cursor`, which reads from bytes in memory. Nothing is
/// known of what is inside a value.
#[verifier::external_type_specification]
#[verifier::external_body]
#[verifier::reject_recursive_types(T)]
pub struct ExCursor<T>(Cursor<T>);

/// Declares `zip::result::ZipError`, the error of the archive reader.
/// Nothing is known of what is inside a value.
#[verifier::external_type_specification]
#[verifier::external_body]
pub struct ExZipError(ZipError);

/// The bytes that an archive reads from.
pub uninterp spec fn archive_bytes(archive: ZipArchive<Cursor<Vec<u8>>>) -> Seq<u8>;

/// Whether bytes open as an archive.
pub uninterp spec fn archive_opens(bytes: Seq<u8>) -> bool;

/// The names that the directory of an archive lists, in the order of the
/// directory, given the archive's bytes.
pub uninterp spec fn listed_names(bytes: Seq<u8>) -> Seq<Seq<char>>;

/// Whether the entry with this number is found in the bytes of an archive,
/// where the directory says that it lies.
pub uninterp spec fn entry_found(bytes: Seq<u8>, index: int) -> bool;

/// What looking an entry up by its name and reading it to its end gives,
/// given the archive's bytes: the entry's content, or `None` where the
/// lookup or the reading fails.
pub uninterp spec fn content_in(bytes: Seq<u8>, name: Seq<char>) -> Option<Seq<u8>>;

/// Calls `ZipArchive::new` on a `Cursor` over the bytes of an archive.
/// Trusted: whether the archive opens depends on the bytes alone, and is
/// given the name `archive_opens`; an archive that opens reads from these
/// bytes.
#[verifier::external_body]
fn open_archive(bytes: Vec<u8>) -> (r: Result<ZipArchive<Cursor<Vec<u8>>>, ZipError>)
    ensures
        r is Ok == archive_opens(bytes@),
        r matches Ok(archive) ==> archive_bytes(archive) == bytes@,
{
    ZipArchive::new(Cursor::new(bytes))
}

/// Calls `ZipArchive::len`. Trusted: it is the number of entries that the
/// directory lists.
#[verifier::external_body]
fn archive_len(archive: &ZipArchive<Cursor<Vec<u8>>>) -> (n: usize)
    ensures
        n == listed_names(archive_bytes(*archive)).len(),
{
    archive.len()
}

/// Calls `ZipArchive::by_index_raw` and `ZipFile::name`. Trusted: the bytes
/// stay as they are; whether the entry is found depends on the bytes and
/// the number alone, and is given the name `entry_found`; an entry that is
/// found is one of the directory, and its name is the one that the
/// directory gives.
#[verifier::external_body]
fn entry_name(archive: &mut ZipArchive<Cursor<Vec<u8>>>, index: usize) -> (r: Result<
    String,
    ZipError,
>)
    ensures
        archive_bytes(*final(archive)) == archive_bytes(*old(archive)),
        r is Ok == entry_found(archive_bytes(*old(archive)), index as int),
        r matches Ok(name) ==> index < listed_names(archive_bytes(*old(archive))).len() && name@
            == listed_names(archive_bytes(*old(archive)))[index as int],
{
    Ok(archive.by_index_raw(index)?.name().to_string())
}

/// Calls `ZipArchive::by_name_decrypt` without a password and reads the
/// entry to its end with `Read::read_to_end`. Trusted: the bytes stay as
/// they are; what comes back depends on the bytes and the name alone, and is
/// given the name `content_in`. An entry that asks for a password is an
/// error. Where several entries have the name, the lookup takes the last of
/// them.
#[verifier::external_body]
fn entry_bytes(archive: &mut ZipArchive<Cursor<Vec<u8>>>, name: &str) -> (r: Result<
    Vec<u8>,
    ZipError,
>)
    ensures
        archive_bytes(*final(archive)) == archive_bytes(*old(archive)),
        r is Ok == content_in(archive_bytes(*old(archive)), name@) is Some,
        r matches Ok(content) ==> content_in(archive_bytes(*old(archive)), name@) == Some(
            content@,
        ),
{
    let mut contents = Vec::new();
    match archive.by_name_decrypt(name, &[])? {
        Ok(mut file) => {
            file.read_to_end(&mut contents)?;
            Ok(contents)
        },
        Err(_) => Err(ZipError::UnsupportedArchive("Password required to decrypt file")),
    }
}

/// Every entry before number `n` is found.
pub open spec fn found_up_to(bytes: Seq<u8>, n: int) -> bool {
    forall|i: int| 0 <= i < n ==> #[trigger] entry_found(bytes, i)
}

/// The name of the driver's entry in an archive that opens: that of the
/// first entry whose name fits. The entries are looked at in order, up to
/// that one, and one that is not found makes the archive bad; where all are
/// found and no name fits, there is no driver.
pub open spec fn driver_name_in(bytes: Seq<u8>, file: Seq<char>) -> Result<Seq<char>, FetchError> {
    let names = listed_names(bytes);
    let at = first_driver_entry(names, file, 0);
    if at >= 0 {
        if found_up_to(bytes, at + 1) {
            Ok(names[at])
        } else {
            Err(FetchError::BadArchive)
        }
    } else if found_up_to(bytes, names.len() as int) {
        Err(FetchError::NoExecutable)
    } else {
        Err(FetchError::BadArchive)
    }
}

/// The driver in the bytes of an archive: what the lookup by name gives for
/// the name of the driver's entry. Bytes that do not open, an entry on the
/// way that is not found and a content that cannot be read make the archive
/// bad.
pub open spec fn driver_in(bytes: Seq<u8>, file: Seq<char>) -> Result<Seq<u8>, FetchError> {
    if !archive_opens(bytes) {
        Err(FetchError::BadArchive)
    } else {
        match driver_name_in(bytes, file) {
            Err(e) => Err(e),
            Ok(name) => match content_in(bytes, name) {
                Some(content) => Ok(content),
                None => Err(FetchError::BadArchive),
            },
        }
    }
}

/// The view of bytes or an error.
pub open spec fn bytes_result(r: Result<Vec<u8>, FetchError>) -> Result<Seq<u8>, FetchError> {
    match r {
        Ok(bytes) => Ok(bytes@),
        Err(e) => Err(e),
    }
}

/// The view of a name or an error.
pub open spec fn name_result(r: Result<String, FetchError>) -> Result<Seq<char>, FetchError> {
    match r {
        Ok(name) => Ok(name@),
        Err(e) => Err(e),
    }
}

/// `first_driver_entry` finds an entry at or after `i`, within the names.
pub proof fn lemma_first_driver_entry(names: Seq<Seq<char>>, file: Seq<char>, i: int)
    requires
        0 <= i,
    ensures
        first_driver_entry(names, file, i) == -1 || i <= first_driver_entry(names, file, i)
            < names.len(),
    decreases names.len() - i,
{
    if i < names.len() && !is_driver_entry(names[i], file) {
        lemma_first_driver_entry(names, file, i + 1);
    }
}

/// The name of the driver's entry in an archive.
fn find_driver_entry(archive: &mut ZipArchive<Cursor<Vec<u8>>>, file: &str) -> (r: Result<
    String,
    FetchError,
>)
    ensures
        archive_bytes(*final(archive)) == archive_bytes(*old(archive)),
        name_result(r) == driver_name_in(archive_bytes(*old(archive)), file@),
{
    let n = archive_len(archive);
    let ghost bytes = archive_bytes(*archive);
    let ghost names = listed_names(bytes);
    let mut i: usize = 0;
    while i < n
        invariant
            i <= n,
            n == names.len(),
            names == listed_names(bytes),
            bytes == archive_bytes(*archive),
            bytes == archive_bytes(*old(archive)),
            found_up_to(bytes, i as int),
            first_driver_entry(names, file@, 0) == first_driver_entry(names, file@, i as int),
        decreases n - i,
    {
        proof {
            lemma_first_driver_entry(names, file@, i as int);
        }
        match entry_name(archive, i) {
            Ok(name) => {
                if is_driver_entry_name(name.as_str(), file) {
                    assert(found_up_to(bytes, i + 1));
                    return Ok(name);
                }
            },
            Err(_) => {
                let ghost at = first_driver_entry(names, file@, 0);
                assert(!entry_found(bytes, i as int));
                assert(at >= 0 ==> !found_up_to(bytes, at + 1));
                assert(at < 0 ==> !found_up_to(bytes, names.len() as int));
                return Err(FetchError::BadArchive);
            },
        }
        i += 1;
    }
    Err(FetchError::NoExecutable)
}

/// The driver's bytes out of a downloaded archive. The driver's entry is
/// the first whose name ends with the driver's file name, wherever in the
/// archive it lies; its content is what a lookup by that name gives.
pub fn extract_driver(archive: Vec<u8>, os: Os) -> (r: Result<Vec<u8>, FetchError>)
    ensures
        bytes_result(r) == driver_in(archive@, os.spec_driver_file()),
{
    let mut opened = match open_archive(archive) {
        Ok(opened) => opened,
        Err(_) => {
            return Err(FetchError::BadArchive);
        },
    };
    let file = os.driver_file();
    let name = match find_driver_entry(&mut opened, file.as_str()) {
        Ok(name) => name,
        Err(e) => {
            return Err(e);
        },
    };
    match entry_bytes(&mut opened, name.as_str()) {
        Ok(bytes) => Ok(bytes),
        Err(_) => Err(FetchError::BadArchive),
    }
}

} // verus!
