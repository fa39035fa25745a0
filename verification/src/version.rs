//! Version strings: what the browser and the driver print about themselves,
//! and when a driver fits a browser.

use vstd::prelude::*;
use crate::text::{
    final_word,
    find,
    find_first,
    head,
    last_word,
    lemma_find_first,
    nth_word,
    same,
    tail,
    trim,
    trimmed,
    word,
};

verus! {

/// `s` up to its first `.`, or all of it.
pub open spec fn major_of(s: Seq<char>) -> Seq<char> {
    let i = find_first(s, "."@);
    if i >= 0 {
        s.take(i)
    } else {
        s
    }
}

/// `s` up to its second `.`, or all of it.
pub open spec fn major_minor_of(s: Seq<char>) -> Seq<char> {
    let i = find_first(s, "."@);
    if 0 <= i < s.len() {
        let j = find_first(s.skip(i + 1), "."@);
        if j >= 0 {
            s.take(i + 1 + j)
        } else {
            s
        }
    } else {
        s
    }
}

/// `s` up to its first line break, or all of it.
pub open spec fn first_line(s: Seq<char>) -> Seq<char> {
    let i = find_first(s, "\n"@);
    if i >= 0 {
        s.take(i)
    } else {
        s
    }
}

/// The version that a driver reports: the second word of the first line of
/// what it prints.
pub open spec fn driver_version_in(output: Seq<char>) -> Option<Seq<char>> {
    nth_word(first_line(output), 1)
}

/// The version that a browser reports: the last word of what it prints.
pub open spec fn browser_version_in(output: Seq<char>) -> Option<Seq<char>> {
    last_word(output)
}

/// A driver fits a browser when its major version is the browser's.
pub open spec fn fits(driver_version: Seq<char>, browser_major: Seq<char>) -> bool {
    major_of(driver_version) == browser_major
}

/// The value that one line of a registry listing gives: what stands between
/// the type tag and the next such tag or the end of the line, trimmed.
pub open spec fn registry_value(line: Seq<char>) -> Option<Seq<char>> {
    let tag = "REG_SZ"@;
    let i = find_first(line, tag);
    if i >= 0 && i + tag.len() <= line.len() {
        let rest = line.skip(i + tag.len());
        let j = find_first(rest, tag);
        Some(
            trimmed(
                if j >= 0 {
                    rest.take(j)
                } else {
                    rest
                },
            ),
        )
    } else {
        None
    }
}

/// The value of the first line of a registry listing that gives one.
pub open spec fn registry_version(output: Seq<char>) -> Option<Seq<char>>
    decreases output.len(),
{
    let n = find_first(output, "\n"@);
    let line = if n >= 0 {
        output.take(n)
    } else {
        output
    };
    match registry_value(line) {
        Some(v) => Some(v),
        None => if 0 <= n < output.len() {
            registry_version(output.skip(n + 1))
        } else {
            None
        },
    }
}

/// The major version: `version` up to its first `.`.
pub fn major_version(version: &str) -> (r: String)
    ensures
        r@ == major_of(version@),
{
    proof {
        lemma_find_first(version@, "."@);
    }
    match find(version, ".") {
        Some(i) => head(version, i),
        None => String::from_str(version),
    }
}

/// Major and minor version: `version` up to its second `.`.
pub fn major_minor_version(version: &str) -> (r: String)
    ensures
        r@ == major_minor_of(version@),
{
    proof {
        lemma_find_first(version@, "."@);
        reveal_strlit(".");
    }
    match find(version, ".") {
        Some(i) => {
            let rest = tail(version, i + 1);
            proof {
                lemma_find_first(rest@, "."@);
            }
            match find(rest.as_str(), ".") {
                Some(j) => head(version, i + 1 + j),
                None => String::from_str(version),
            }
        },
        None => String::from_str(version),
    }
}

/// The version in what a driver prints when asked for it.
pub fn parse_driver_version(output: &str) -> (r: Option<String>)
    ensures
        r is Some == driver_version_in(output@) is Some,
        r matches Some(v) ==> driver_version_in(output@) == Some(v@),
{
    proof {
        lemma_find_first(output@, "\n"@);
    }
    let line = match find(output, "\n") {
        Some(i) => head(output, i),
        None => String::from_str(output),
    };
    word(line.as_str(), 1)
}

/// The version in what a browser prints when asked for it.
pub fn parse_browser_version(output: &str) -> (r: Option<String>)
    ensures
        r is Some == browser_version_in(output@) is Some,
        r matches Some(v) ==> browser_version_in(output@) == Some(v@),
{
    final_word(output)
}

/// Whether a driver of this version fits a browser of this major version.
pub fn is_compatible(driver_version: &str, browser_major: &str) -> (b: bool)
    ensures
        b == fits(driver_version@, browser_major@),
{
    let major = major_version(driver_version);
    same(major.as_str(), browser_major)
}

/// The value that one line of a registry listing gives.
pub fn parse_registry_line(line: &str) -> (r: Option<String>)
    ensures
        r is Some == registry_value(line@) is Some,
        r matches Some(v) ==> registry_value(line@) == Some(v@),
{
    proof {
        lemma_find_first(line@, "REG_SZ"@);
    }
    match find(line, "REG_SZ") {
        Some(i) => {
            let k = "REG_SZ".unicode_len();
            let rest = tail(line, i + k);
            proof {
                lemma_find_first(rest@, "REG_SZ"@);
            }
            let value = match find(rest.as_str(), "REG_SZ") {
                Some(j) => head(rest.as_str(), j),
                None => rest,
            };
            Some(trim(value.as_str()))
        },
        None => None,
    }
}

/// The browser version in a registry listing.
pub fn parse_registry_version(output: &str) -> (r: Option<String>)
    ensures
        r is Some == registry_version(output@) is Some,
        r matches Some(v) ==> registry_version(output@) == Some(v@),
{
    let mut rest = String::from_str(output);
    loop
        invariant
            registry_version(output@) == registry_version(rest@),
        decreases rest@.len(),
    {
        proof {
            lemma_find_first(rest@, "\n"@);
            reveal_strlit("\n");
        }
        let n = find(rest.as_str(), "\n");
        let line = match n {
            Some(i) => head(rest.as_str(), i),
            None => rest.clone(),
        };
        match parse_registry_line(line.as_str()) {
            Some(v) => {
                return Some(v);
            },
            None => {},
        }
        match n {
            Some(i) => {
                rest = tail(rest.as_str(), i + 1);
            },
            None => {
                return None;
            },
        }
    }
}

} // verus!
