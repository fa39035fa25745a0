use satu_toko::fetch::{
    catalog_url, choose_download, choose_release, extract_driver, is_driver_entry_name,
    select_download, Download, FetchError, Release,
};
use satu_toko::system::Os;
use std::io::{Cursor, Write};

fn release(version: &str, downloads: &[(&str, &str)]) -> Release {
    Release {
        version: version.to_string(),
        downloads: downloads
            .iter()
            .map(|(platform, url)| Download { platform: platform.to_string(), url: url.to_string() })
            .collect(),
    }
}

fn catalog() -> Vec<Release> {
    vec![
        release("113.0.5672.0", &[("linux64", "https://dl/113/linux64.zip")]),
        release(
            "120.0.6099.71",
            &[
                ("linux64", "https://dl/120.71/linux64.zip"),
                ("mac-arm64", "https://dl/120.71/mac-arm64.zip"),
                ("mac-x64", "https://dl/120.71/mac-x64.zip"),
                ("win32", "https://dl/120.71/win32.zip"),
                ("win64", "https://dl/120.71/win64.zip"),
            ],
        ),
        release("120.0.6099.109", &[("linux64", "https://dl/120.109/linux64.zip")]),
        release("121.0.6100.0", &[]),
    ]
}

fn archive(entries: &[(&str, &[u8])]) -> Vec<u8> {
    let mut writer = zip::ZipWriter::new(Cursor::new(Vec::new()));
    let options =
        zip::write::FileOptions::default().compression_method(zip::CompressionMethod::Deflated);
    for (name, contents) in entries {
        if name.ends_with('/') {
            writer.add_directory(*name, options).unwrap();
        } else {
            writer.start_file(*name, options).unwrap();
            writer.write_all(contents).unwrap();
        }
    }
    writer.finish().unwrap().into_inner()
}

#[test]
fn catalog_address() {
    assert_eq!(
        catalog_url(),
        "https://googlechromelabs.github.io/chrome-for-testing/known-good-versions-with-downloads.json"
    );
}

#[test]
fn the_first_release_with_the_prefix_is_chosen() {
    assert_eq!(choose_release(&catalog(), "120.0"), Some(1));
    assert_eq!(choose_release(&catalog(), "120.0.6099.1"), Some(2));
    assert_eq!(choose_release(&catalog(), "121"), Some(3));
}

#[test]
fn without_a_match_the_first_release_is_chosen() {
    assert_eq!(choose_release(&catalog(), "999"), Some(0));
    assert_eq!(choose_release(&Vec::new(), "120"), None);
}

#[test]
fn the_first_download_for_the_platform_is_chosen() {
    let releases = catalog();
    assert_eq!(choose_download(&releases[1].downloads, "win64"), Some(4));
    assert_eq!(choose_download(&releases[1].downloads, "mac-"), Some(1));
    assert_eq!(choose_download(&releases[1].downloads, "linux32"), None);
    assert_eq!(choose_download(&releases[3].downloads, "linux64"), None);
}

#[test]
fn download_address_for_browser_and_platform() {
    assert_eq!(
        select_download(&catalog(), "120.0", "mac-x64"),
        Ok("https://dl/120.71/mac-x64.zip".to_string())
    );
    assert_eq!(
        select_download(&catalog(), "130.0", "linux64"),
        Ok("https://dl/113/linux64.zip".to_string())
    );
}

#[test]
fn no_download_for_the_platform_is_an_error() {
    assert_eq!(select_download(&catalog(), "120.0.6099.109", "win64"), Err(FetchError::NoPlatformEntry));
    assert_eq!(select_download(&catalog(), "130", "win64"), Err(FetchError::NoPlatformEntry));
}

#[test]
fn empty_catalog_is_an_error() {
    assert_eq!(select_download(&Vec::new(), "120", "linux64"), Err(FetchError::EmptyCatalog));
}

#[test]
fn driver_entries_by_name() {
    assert!(is_driver_entry_name("chromedriver-linux64/chromedriver", "chromedriver"));
    assert!(is_driver_entry_name("chromedriver", "chromedriver"));
    assert!(is_driver_entry_name("chromedriver-win64/chromedriver.exe", "chromedriver.exe"));
    assert!(!is_driver_entry_name("chromedriver-linux64/LICENSE.chromedriver.txt", "chromedriver"));
    assert!(!is_driver_entry_name("chromedriver-win64/chromedriver.exe", "chromedriver"));
    assert!(!is_driver_entry_name("chromedriver/", "chromedriver"));
    assert!(!is_driver_entry_name("x/", "/"));
}

#[test]
fn the_driver_is_taken_out_of_a_nested_archive() {
    let bytes = archive(&[
        ("chromedriver-linux64/", b""),
        ("chromedriver-linux64/LICENSE.txt", b"license"),
        ("chromedriver-linux64/chromedriver", b"\x7fELF cdc_adoQpoasnfa76pfcZLmcfl_Array"),
        ("other/chromedriver", b"second"),
    ]);
    assert_eq!(
        extract_driver(bytes, Os::Linux),
        Ok(b"\x7fELF cdc_adoQpoasnfa76pfcZLmcfl_Array".to_vec())
    );
}

#[test]
fn the_first_entry_with_the_name_wins() {
    let bytes = archive(&[
        ("a/chromedriver.exe", b"first"),
        ("b/chromedriver.exe", b"second"),
        ("chromedriver", b"not for windows"),
    ]);
    assert_eq!(extract_driver(bytes.clone(), Os::Windows), Ok(b"first".to_vec()));
    assert_eq!(extract_driver(bytes.clone(), Os::Macos), Ok(b"not for windows".to_vec()));
    assert_eq!(extract_driver(bytes, Os::Linux), Ok(b"not for windows".to_vec()));
}

#[test]
fn entries_match_by_the_end_of_their_name() {
    let bytes = archive(&[
        ("chromedriver-linux64/LICENSE.chromedriver", b"license"),
        ("chromedriver-linux64/chromedriver", b"driver"),
    ]);
    assert_eq!(extract_driver(bytes, Os::Linux), Ok(b"license".to_vec()));
}

#[test]
fn archive_without_driver_is_an_error() {
    let bytes = archive(&[("readme.txt", b"hello"), ("chromedriver/", b"")]);
    assert_eq!(extract_driver(bytes, Os::Linux), Err(FetchError::NoExecutable));
    assert_eq!(extract_driver(archive(&[]), Os::Linux), Err(FetchError::NoExecutable));
}

#[test]
fn bytes_that_are_no_archive_are_an_error() {
    assert_eq!(extract_driver(b"<html>not found</html>".to_vec(), Os::Linux), Err(FetchError::BadArchive));
    assert_eq!(extract_driver(Vec::new(), Os::Linux), Err(FetchError::BadArchive));
}

#[test]
fn damaged_entry_is_an_error() {
    let mut bytes = archive(&[("chromedriver", &[7u8; 4000])]);
    // Spoil the compressed data: the checksum no longer fits.
    for b in bytes[40..60].iter_mut() {
        *b ^= 0xff;
    }
    assert_eq!(extract_driver(bytes, Os::Linux), Err(FetchError::BadArchive));
}

#[test]
fn errors_as_text() {
    assert_eq!(FetchError::Network.message("linux64", "chromedriver"), "Failed to download chromedriver");
    assert_eq!(FetchError::MalformedCatalog.message("linux64", "chromedriver"), "versions not found in JSON");
    assert_eq!(FetchError::EmptyCatalog.message("linux64", "chromedriver"), "no versions in JSON");
    assert_eq!(FetchError::NoPlatformEntry.message("win64", "chromedriver.exe"), "no win64 chromedriver in JSON");
    assert_eq!(FetchError::BadArchive.message("win64", "chromedriver.exe"), "Failed to open zip archive");
    assert_eq!(FetchError::NoExecutable.message("win64", "chromedriver.exe"), "Failed to find chromedriver in archive: chromedriver.exe not found");
}

#[test]
fn entries_of_one_name_give_the_content_of_the_last() {
    let bytes = archive(&[
        ("x/chromedriver", b"first"),
        ("readme", b"text"),
        ("x/chromedriver", b"last"),
    ]);
    assert_eq!(extract_driver(bytes, Os::Linux), Ok(b"last".to_vec()));
}

#[test]
fn entry_that_is_not_found_before_the_driver_is_an_error() {
    let mut bytes = archive(&[("readme", b"text"), ("chromedriver", b"driver")]);
    // Spoil the signature of the first entry's header.
    bytes[0] = b'X';
    assert_eq!(extract_driver(bytes, Os::Linux), Err(FetchError::BadArchive));
}

#[test]
fn entry_that_is_not_found_behind_the_driver_does_not_matter() {
    let first = archive(&[("chromedriver", b"driver")]);
    let mut bytes = archive(&[("chromedriver", b"driver"), ("readme", b"text")]);
    // Spoil the signature of the second entry's header; it begins where the
    // data of the first entry ends.
    let second = bytes
        .windows(4)
        .enumerate()
        .filter(|(_, w)| *w == b"PK\x03\x04")
        .map(|(i, _)| i)
        .nth(1)
        .unwrap();
    assert!(second > 0 && second < first.len());
    bytes[second] = b'X';
    assert_eq!(extract_driver(bytes, Os::Linux), Ok(b"driver".to_vec()));
}
