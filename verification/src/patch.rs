//! Scrambling the marker that gives a stock driver away. A driver binary
//! holds, here and there, the four bytes `cdc_` followed by an identifier
//! that pages look for. The 18 bytes behind every such marker are replaced
//! by random letters; nothing else changes, so the binary keeps its size and
//! its offsets.

use rand::Rng;
use vstd::prelude::*;

verus! {

/// The length of the marker.
pub open spec fn marker_len() -> int {
    4
}

/// How many bytes behind a marker are replaced.
pub open spec fn window_len() -> int {
    18
}

/// The marker `cdc_` stands in `buf` at offset `i`.
pub open spec fn marked_at(buf: Seq<u8>, i: int) -> bool {
    &&& 0 <= i
    &&& i + marker_len() <= buf.len()
    &&& buf[i] == 0x63
    &&& buf[i + 1] == 0x64
    &&& buf[i + 2] == 0x63
    &&& buf[i + 3] == 0x5f
}

/// Offset `k` lies in the window behind the marker at offset `i`.
pub open spec fn behind(i: int, k: int) -> bool {
    i + marker_len() <= k < i + marker_len() + window_len()
}

/// Offset `k` lies in the window behind some marker of `buf`.
pub open spec fn in_window(buf: Seq<u8>, k: int) -> bool {
    exists|i: int| marked_at(buf, i) && #[trigger] behind(i, k)
}

/// How many markers begin before offset `n`.
pub open spec fn marker_count(buf: Seq<u8>, n: int) -> nat
    decreases n,
{
    if n <= 0 {
        0
    } else {
        marker_count(buf, n - 1) + if marked_at(buf, n - 1) {
            1nat
        } else {
            0nat
        }
    }
}

/// `patched` is `contents` with the window behind every marker scrambled:
/// it is as long as `contents`, holds a letter wherever a window of
/// `contents` lies, and the byte of `contents` everywhere else.
pub open spec fn scrambled(contents: Seq<u8>, patched: Seq<u8>) -> bool {
    &&& patched.len() == contents.len()
    &&& forall|k: int|
        0 <= k < contents.len() && !in_window(contents, k) ==> #[trigger] patched[k] == contents[k]
    &&& forall|p: int, k: int|
        marked_at(contents, p) && #[trigger] behind(p, k) && k < contents.len() ==> is_letter(
            #[trigger] patched[k],
        )
}

/// A buffer without markers counts none.
pub proof fn lemma_no_markers(buf: Seq<u8>, n: int)
    requires
        forall|i: int| !marked_at(buf, i),
    ensures
        marker_count(buf, n) == 0,
    decreases n,
{
    if n > 0 {
        lemma_no_markers(buf, n - 1);
    }
}

/// An ASCII letter.
pub open spec fn is_letter(b: u8) -> bool {
    0x41 <= b <= 0x5A || 0x61 <= b <= 0x7A
}

/// The letter with number `draw` of the alphabet `a` to `z`, `A` to `Z`.
pub open spec fn letter_of(draw: int) -> u8 {
    if draw < 26 {
        (0x61 + draw) as u8
    } else {
        (0x41 + draw - 26) as u8
    }
}

/// How many letters the alphabet has.
pub open spec fn alphabet_len() -> int {
    52
}

/// Calls `rand::thread_rng` and `Rng::gen_range` on the range from 0 up to,
/// not including, `n`. Trusted: the number that comes back lies in that
/// range. Which number it is depends on chance.
#[verifier::external_body]
pub(crate) fn random_below(n: usize) -> (r: usize)
    requires
        n > 0,
    ensures
        r < n,
{
    rand::thread_rng().gen_range(0..n)
}

/// Whether the marker stands in `buf` at offset `i`.
pub fn is_marker_at(buf: &Vec<u8>, i: usize) -> (b: bool)
    ensures
        b == marked_at(buf@, i as int),
{
    buf.len() >= 4 && i <= buf.len() - 4 && buf[i] == 0x63 && buf[i + 1] == 0x64 && buf[i + 2]
        == 0x63 && buf[i + 3] == 0x5f
}

/// The offsets of all markers in `buf`, in rising order.
pub fn find_markers(buf: &Vec<u8>) -> (positions: Vec<usize>)
    ensures
        positions.len() == marker_count(buf@, buf.len() as int),
        forall|j: int| 0 <= j < positions.len() ==> marked_at(buf@, #[trigger] positions[j] as int),
        forall|i: int| marked_at(buf@, i) ==> positions@.contains(i as usize),
        forall|a: int, b: int| 0 <= a < b < positions.len() ==> positions[a] < positions[b],
{
    let mut positions: Vec<usize> = Vec::new();
    let mut i: usize = 0;
    while i < buf.len()
        invariant
            i <= buf.len(),
            positions.len() == marker_count(buf@, i as int),
            forall|j: int|
                0 <= j < positions.len() ==> marked_at(buf@, #[trigger] positions[j] as int)
                    && positions[j] < i,
            forall|k: int| 0 <= k < i && marked_at(buf@, k) ==> positions@.contains(k as usize),
            forall|a: int, b: int| 0 <= a < b < positions.len() ==> positions[a] < positions[b],
        decreases buf.len() - i,
    {
        if is_marker_at(buf, i) {
            let ghost before = positions@;
            positions.push(i);
            assert(positions@[before.len() as int] == i);
            assert forall|k: int| 0 <= k < i + 1 && marked_at(buf@, k) implies positions@.contains(
                k as usize,
            ) by {
                if k < i {
                    let j = choose|j: int| 0 <= j < before.len() && before[j] == k as usize;
                    assert(positions@[j] == k as usize);
                }
            }
        }
        i += 1;
    }
    positions
}

/// The letter that a draw stands for.
pub fn letter(draw: usize) -> (b: u8)
    requires
        draw < alphabet_len(),
    ensures
        b == letter_of(draw as int),
        is_letter(b),
{
    if draw < 26 {
        0x61u8 + (draw as u8)
    } else {
        0x41u8 + ((draw - 26) as u8)
    }
}

/// Writes the letter of a draw at offset `at`, if `buf` reaches that far.
pub fn scramble_byte(buf: &mut Vec<u8>, at: usize, draw: usize)
    requires
        draw < alphabet_len(),
    ensures
        at < old(buf).len() ==> final(buf)@ == old(buf)@.update(at as int, letter_of(draw as int)),
        at >= old(buf).len() ==> final(buf)@ == old(buf)@,
{
    if at < buf.len() {
        buf.set(at, letter(draw));
    }
}

/// A patched driver.
#[derive(Debug, PartialEq, Eq)]
pub struct Patched {
    /// The driver's bytes with every window scrambled.
    pub bytes: Vec<u8>,
    /// How many markers were found.
    pub patches: usize,
}

/// Scrambles the window behind every marker of `contents`, and counts the
/// markers. The markers are those of `contents` as it was handed in; a
/// window that reaches beyond the end is cut off there. Where there is no
/// marker, nothing changes.
pub fn patch_driver(contents: &Vec<u8>) -> (r: Patched)
    ensures
        scrambled(contents@, r.bytes@),
        r.patches == marker_count(contents@, contents.len() as int),
        r.patches == 0 ==> r.bytes@ == contents@,
{
    let n = contents.len();
    let mut bytes: Vec<u8> = contents.clone();
    assert(bytes@ =~= contents@);
    let mut patches: usize = 0;
    let mut i: usize = 0;
    while i < n
        invariant
            i <= n,
            n == contents.len(),
            bytes.len() == n,
            patches == marker_count(contents@, i as int),
            patches <= i,
            forall|k: int|
                0 <= k < n && !in_window(contents@, k) ==> #[trigger] bytes[k] == contents[k],
            forall|k: int, m: int|
                0 <= m < i && marked_at(contents@, m) && #[trigger] behind(m, k) && k < n
                    ==> is_letter(#[trigger] bytes[k]),
            patches == 0 ==> bytes@ == contents@,
        decreases n - i,
    {
        if is_marker_at(contents, i) {
            let end: usize = if n - i < 22 {
                n
            } else {
                i + 22
            };
            let mut x: usize = i + 4;
            while x < end
                invariant
                    i + 4 <= x <= end <= n,
                    end <= i + 22,
                    end == n || end == i + 22,
                    n == contents.len(),
                    bytes.len() == n,
                    marked_at(contents@, i as int),
                    forall|k: int|
                        0 <= k < n && !in_window(contents@, k) ==> #[trigger] bytes[k]
                            == contents[k],
                    forall|k: int, m: int|
                        0 <= m < i && marked_at(contents@, m) && #[trigger] behind(m, k) && k < n
                            ==> is_letter(#[trigger] bytes[k]),
                    forall|k: int| i + 4 <= k < x ==> is_letter(#[trigger] bytes[k]),
                decreases end - x,
            {
                let draw = random_below(52);
                assert(behind(i as int, x as int));
                scramble_byte(&mut bytes, x, draw);
                x += 1;
            }
            patches += 1;
        }
        i += 1;
    }
    Patched { bytes, patches }
}

/// Patching what holds no marker changes nothing and counts no patch: a
/// second patch of a buffer whose markers are gone is idle.
pub proof fn lemma_unmarked_is_unchanged(contents: Seq<u8>, patched: Seq<u8>)
    requires
        scrambled(contents, patched),
        forall|i: int| !marked_at(contents, i),
    ensures
        patched == contents,
        marker_count(contents, contents.len() as int) == 0,
{
    lemma_no_markers(contents, contents.len() as int);
    assert forall|k: int| 0 <= k < contents.len() implies patched[k] == contents[k] by {
        assert(!in_window(contents, k));
    }
    assert(patched =~= contents);
}

/// Two markers so close that the window of the first reaches into the
/// second or its window: both windows are scrambled, each as far as the
/// buffer reaches, and the buffer keeps its length.
pub proof fn lemma_overlapping_windows(contents: Seq<u8>, patched: Seq<u8>, first: int, second: int)
    requires
        scrambled(contents, patched),
        marked_at(contents, first),
        marked_at(contents, second),
        first < second < first + marker_len() + window_len(),
    ensures
        patched.len() == contents.len(),
        forall|k: int|
            (behind(first, k) || behind(second, k)) && k < contents.len() ==> is_letter(
                #[trigger] patched[k],
            ),
{
}

} // verus!
