//! Character-sequence utilities. Every function takes and returns ordinary
//! strings; the contracts are stated over their views as `Seq<char>`.

use vstd::prelude::*;

verus! {

/// True for the code points that carry the Unicode `White_Space` property.
pub open spec fn is_space(c: char) -> bool {
    let n = c as u32;
    ||| 0x09 <= n <= 0x0D
    ||| n == 0x20
    ||| n == 0x85
    ||| n == 0xA0
    ||| n == 0x1680
    ||| 0x2000 <= n <= 0x200A
    ||| n == 0x2028
    ||| n == 0x2029
    ||| n == 0x202F
    ||| n == 0x205F
    ||| n == 0x3000
}

/// `p` occurs in `s` at offset `i`.
pub open spec fn occurs_at(s: Seq<char>, p: Seq<char>, i: int) -> bool {
    &&& 0 <= i
    &&& i + p.len() <= s.len()
    &&& s.subrange(i, i + p.len()) == p
}

/// `p` occurs somewhere in `s`.
pub open spec fn has_substring(s: Seq<char>, p: Seq<char>) -> bool {
    exists|i: int| occurs_at(s, p, i)
}

/// Offset of the first occurrence of `p` in `s` at or after `i`, or -1.
pub open spec fn find_from(s: Seq<char>, p: Seq<char>, i: int) -> int
    decreases s.len() - i,
{
    if i < 0 || i + p.len() > s.len() {
        -1
    } else if occurs_at(s, p, i) {
        i
    } else if i >= s.len() {
        -1
    } else {
        find_from(s, p, i + 1)
    }
}

/// Offset of the first occurrence of `p` in `s`, or -1.
pub open spec fn find_first(s: Seq<char>, p: Seq<char>) -> int {
    find_from(s, p, 0)
}

/// Offset of the last occurrence of `p` in `s` at or before `i`, or -1.
pub open spec fn find_back(s: Seq<char>, p: Seq<char>, i: int) -> int
    decreases i + 1,
{
    if i < 0 {
        -1
    } else if occurs_at(s, p, i) {
        i
    } else {
        find_back(s, p, i - 1)
    }
}

/// Offset of the last occurrence of `p` in `s`, or -1.
pub open spec fn find_last(s: Seq<char>, p: Seq<char>) -> int {
    find_back(s, p, s.len() - p.len())
}

/// What `find_from` returns is an occurrence with none between `i` and it;
/// -1 means that there is none from `i` on.
pub proof fn lemma_find_from(s: Seq<char>, p: Seq<char>, i: int)
    requires
        0 <= i,
    ensures
        find_from(s, p, i) == -1 || i <= find_from(s, p, i),
        find_from(s, p, i) >= 0 ==> occurs_at(s, p, find_from(s, p, i)),
        forall|j: int| i <= j && (j < find_from(s, p, i) || find_from(s, p, i) == -1) ==> !occurs_at(s, p, j),
    decreases s.len() - i,
{
    if i + p.len() > s.len() {
    } else if occurs_at(s, p, i) {
    } else if i >= s.len() {
    } else {
        lemma_find_from(s, p, i + 1);
    }
}

/// `find_first` is -1 exactly when the pattern does not occur.
pub proof fn lemma_find_first(s: Seq<char>, p: Seq<char>)
    ensures
        find_first(s, p) >= 0 <==> has_substring(s, p),
        find_first(s, p) >= 0 ==> occurs_at(s, p, find_first(s, p)),
        find_first(s, p) >= -1,
        forall|j: int| 0 <= j < find_first(s, p) ==> !occurs_at(s, p, j),
{
    lemma_find_from(s, p, 0);
    if has_substring(s, p) {
        let j = choose|j: int| occurs_at(s, p, j);
        assert(occurs_at(s, p, j));
    }
}

/// What `find_back` returns is an occurrence with none between it and `i`;
/// -1 means that there is none up to `i`.
pub proof fn lemma_find_back(s: Seq<char>, p: Seq<char>, i: int)
    ensures
        -1 <= find_back(s, p, i),
        find_back(s, p, i) <= i || i < -1,
        find_back(s, p, i) >= 0 ==> occurs_at(s, p, find_back(s, p, i)),
        forall|j: int| find_back(s, p, i) < j <= i ==> !occurs_at(s, p, j),
    decreases i + 1,
{
    if i < 0 {
    } else if occurs_at(s, p, i) {
    } else {
        lemma_find_back(s, p, i - 1);
    }
}

/// Offset of the first character at or after `i` that is no white space, or
/// the length of `s`.
pub open spec fn skip_spaces(s: Seq<char>, i: int) -> int
    decreases s.len() - i,
{
    if 0 <= i < s.len() && is_space(s[i]) {
        skip_spaces(s, i + 1)
    } else {
        i
    }
}

/// Offset behind the last character before `i` that is no white space, or 0.
pub open spec fn drop_spaces(s: Seq<char>, i: int) -> int
    decreases i,
{
    if 0 < i <= s.len() && is_space(s[i - 1]) {
        drop_spaces(s, i - 1)
    } else {
        i
    }
}

/// `s` without the white space at its two ends.
pub open spec fn trimmed(s: Seq<char>) -> Seq<char> {
    let a = skip_spaces(s, 0);
    let b = drop_spaces(s, s.len() as int);
    if a < b {
        s.subrange(a, b)
    } else {
        Seq::empty()
    }
}

/// A word begins at `i`: a character that is no white space, at the start of
/// `s` or behind white space.
pub open spec fn is_word_start(s: Seq<char>, i: int) -> bool {
    &&& 0 <= i < s.len()
    &&& !is_space(s[i])
    &&& (i == 0 || is_space(s[i - 1]))
}

/// Offset of the first white space at or after `i`, or the length of `s`.
pub open spec fn word_end(s: Seq<char>, i: int) -> int
    decreases s.len() - i,
{
    if 0 <= i < s.len() && !is_space(s[i]) {
        word_end(s, i + 1)
    } else {
        i
    }
}

/// Offset at which the word with number `k` begins, counting from 0 the words
/// that begin at or after `i`; the length of `s` if there are not that many.
pub open spec fn word_start_from(s: Seq<char>, i: int, k: nat) -> int
    decreases s.len() - i,
{
    if i < 0 || i >= s.len() {
        s.len() as int
    } else if is_word_start(s, i) {
        if k == 0 {
            i
        } else {
            word_start_from(s, i + 1, (k - 1) as nat)
        }
    } else {
        word_start_from(s, i + 1, k)
    }
}

/// The word with number `k` of `s`, counting from 0, where words are the
/// longest runs of characters that are no white space.
pub open spec fn nth_word(s: Seq<char>, k: nat) -> Option<Seq<char>> {
    let a = word_start_from(s, 0, k);
    if a < s.len() {
        Some(s.subrange(a, word_end(s, a)))
    } else {
        None
    }
}

/// Offset at which the last word that begins before `i` begins, or -1.
pub open spec fn last_word_start(s: Seq<char>, i: int) -> int
    decreases i,
{
    if i <= 0 {
        -1
    } else if is_word_start(s, i - 1) {
        i - 1
    } else {
        last_word_start(s, i - 1)
    }
}

/// The last word of `s`.
pub open spec fn last_word(s: Seq<char>) -> Option<Seq<char>> {
    let a = last_word_start(s, s.len() as int);
    if a >= 0 {
        Some(s.subrange(a, word_end(s, a)))
    } else {
        None
    }
}

/// The characters of a string, in order.
pub fn to_chars(s: &str) -> (v: Vec<char>)
    ensures
        v@ == s@,
{
    let mut v: Vec<char> = Vec::new();
    for c in it: s.chars()
        invariant
            v@ == it.seq().take(it.index() as int),
            it.seq() == s@,
    {
        v.push(c);
    }
    v
}

/// The characters of `s` from `from` up to, not including, `to`.
pub fn slice(s: &str, from: usize, to: usize) -> (r: String)
    requires
        from <= to <= s@.len(),
    ensures
        r@ == s@.subrange(from as int, to as int),
{
    String::from_str(s.substring_char(from, to))
}

/// Whether `p` stands in `s` at offset `i`.
pub fn matches_at(s: &Vec<char>, p: &Vec<char>, i: usize) -> (b: bool)
    ensures
        b == occurs_at(s@, p@, i as int),
{
    if p.len() > s.len() || i > s.len() - p.len() {
        return false;
    }
    let mut k: usize = 0;
    while k < p.len()
        invariant
            k <= p.len(),
            i + p.len() <= s.len(),
            forall|j: int| 0 <= j < k ==> s@[i + j] == p@[j],
        decreases p.len() - k,
    {
        if s[i + k] != p[k] {
            assert(s@.subrange(i as int, i + p.len())[k as int] != p@[k as int]);
            return false;
        }
        k += 1;
    }
    assert(s@.subrange(i as int, i + p.len()) =~= p@);
    true
}

/// Whether `c` is white space.
pub fn is_space_char(c: char) -> (b: bool)
    ensures
        b == is_space(c),
{
    let n: u32 = c as u32;
    (0x09 <= n && n <= 0x0D) || n == 0x20 || n == 0x85 || n == 0xA0 || n == 0x1680 || (0x2000 <= n
        && n <= 0x200A) || n == 0x2028 || n == 0x2029 || n == 0x202F || n == 0x205F || n == 0x3000
}

/// Whether two strings hold the same characters.
pub fn same(a: &str, b: &str) -> (r: bool)
    ensures
        r == (a@ == b@),
{
    let av = to_chars(a);
    let bv = to_chars(b);
    if av.len() != bv.len() {
        return false;
    }
    let r = matches_at(&av, &bv, 0);
    proof {
        if r {
            assert(a@ =~= a@.subrange(0, a@.len() as int));
        } else {
            if a@ == b@ {
                assert(a@.subrange(0, b@.len() as int) =~= b@);
            }
        }
    }
    r
}

/// Whether `s` begins with `prefix`.
pub fn starts_with(s: &str, prefix: &str) -> (b: bool)
    ensures
        b == prefix@.is_prefix_of(s@),
{
    let sv = to_chars(s);
    let pv = to_chars(prefix);
    let b = matches_at(&sv, &pv, 0);
    proof {
        if b {
            assert(prefix@ =~= s@.subrange(0, prefix@.len() as int));
        }
    }
    b
}

/// Whether `s` ends with `suffix`.
pub fn ends_with(s: &str, suffix: &str) -> (b: bool)
    ensures
        b == suffix@.is_suffix_of(s@),
{
    let sv = to_chars(s);
    let pv = to_chars(suffix);
    if pv.len() > sv.len() {
        return false;
    }
    let b = matches_at(&sv, &pv, sv.len() - pv.len());
    proof {
        if b {
            assert(suffix@ =~= s@.subrange(s@.len() - suffix@.len(), s@.len() as int));
        }
    }
    b
}

/// Offset of the first occurrence of `pattern` among the characters `s`.
pub fn find_chars(s: &Vec<char>, pattern: &Vec<char>) -> (r: Option<usize>)
    ensures
        r matches Some(i) ==> find_first(s@, pattern@) == i,
        r is None ==> find_first(s@, pattern@) == -1,
{
    if pattern.len() > s.len() {
        return None;
    }
    let last: usize = s.len() - pattern.len();
    let mut i: usize = 0;
    loop
        invariant
            last == s.len() - pattern.len(),
            i <= last,
            find_first(s@, pattern@) == find_from(s@, pattern@, i as int),
        decreases last - i,
    {
        if matches_at(s, pattern, i) {
            return Some(i);
        }
        if i == last {
            assert(find_from(s@, pattern@, i + 1) == -1);
            return None;
        }
        i += 1;
    }
}

/// Offset of the last occurrence of `pattern` among the characters `s`.
pub fn rfind_chars(s: &Vec<char>, pattern: &Vec<char>) -> (r: Option<usize>)
    ensures
        r matches Some(i) ==> find_last(s@, pattern@) == i,
        r is None ==> find_last(s@, pattern@) == -1,
{
    if pattern.len() > s.len() {
        return None;
    }
    let mut i: usize = s.len() - pattern.len();
    loop
        invariant
            i <= s.len() - pattern.len(),
            find_last(s@, pattern@) == find_back(s@, pattern@, i as int),
        decreases i,
    {
        if matches_at(s, pattern, i) {
            return Some(i);
        }
        if i == 0 {
            assert(find_back(s@, pattern@, -1) == -1);
            return None;
        }
        i -= 1;
    }
}

/// Offset of the first occurrence of `pattern` in `s`, counted in characters.
pub fn find(s: &str, pattern: &str) -> (r: Option<usize>)
    ensures
        r matches Some(i) ==> find_first(s@, pattern@) == i && i + pattern@.len() <= s@.len()
            <= usize::MAX,
        r is None ==> find_first(s@, pattern@) == -1,
{
    let sv = to_chars(s);
    let pv = to_chars(pattern);
    let r = find_chars(&sv, &pv);
    proof {
        lemma_find_first(s@, pattern@);
        assert(sv@.len() == sv.len());
    }
    r
}

/// Offset of the last occurrence of `pattern` in `s`, counted in characters.
pub fn rfind(s: &str, pattern: &str) -> (r: Option<usize>)
    ensures
        r matches Some(i) ==> find_last(s@, pattern@) == i && i + pattern@.len() <= s@.len()
            <= usize::MAX,
        r is None ==> find_last(s@, pattern@) == -1,
{
    let sv = to_chars(s);
    let pv = to_chars(pattern);
    let r = rfind_chars(&sv, &pv);
    proof {
        lemma_find_back(s@, pattern@, s@.len() - pattern@.len());
        assert(sv@.len() == sv.len());
    }
    r
}

/// Whether `pattern` occurs in `s`.
pub fn contains(s: &str, pattern: &str) -> (b: bool)
    ensures
        b == has_substring(s@, pattern@),
{
    proof {
        lemma_find_first(s@, pattern@);
    }
    find(s, pattern).is_some()
}

/// Offset of the first white space among `s` at or after `i`.
pub fn scan_word(s: &Vec<char>, i: usize) -> (e: usize)
    requires
        i <= s.len(),
    ensures
        e == word_end(s@, i as int),
        i <= e <= s.len(),
{
    let mut e: usize = i;
    while e < s.len() && !is_space_char(s[e])
        invariant
            i <= e <= s.len(),
            word_end(s@, i as int) == word_end(s@, e as int),
        decreases s.len() - e,
    {
        e += 1;
    }
    e
}

/// `s` without the white space at its two ends.
pub fn trim(s: &str) -> (r: String)
    ensures
        r@ == trimmed(s@),
{
    let sv = to_chars(s);
    let mut a: usize = 0;
    while a < sv.len() && is_space_char(sv[a])
        invariant
            a <= sv.len(),
            skip_spaces(sv@, 0) == skip_spaces(sv@, a as int),
        decreases sv.len() - a,
    {
        a += 1;
    }
    let mut b: usize = sv.len();
    while b > 0 && is_space_char(sv[b - 1])
        invariant
            b <= sv.len(),
            drop_spaces(sv@, sv.len() as int) == drop_spaces(sv@, b as int),
        decreases b,
    {
        b -= 1;
    }
    if a < b {
        slice(s, a, b)
    } else {
        String::new()
    }
}

/// The word with number `k` of `s`, counting from 0.
pub fn word(s: &str, k: usize) -> (r: Option<String>)
    ensures
        r is Some == nth_word(s@, k as nat) is Some,
        r matches Some(w) ==> nth_word(s@, k as nat) == Some(w@),
{
    let sv = to_chars(s);
    let mut i: usize = 0;
    let mut left: usize = k;
    while i < sv.len()
        invariant
            i <= sv.len(),
            sv@ == s@,
            word_start_from(sv@, 0, k as nat) == word_start_from(sv@, i as int, left as nat),
        decreases sv.len() - i,
    {
        if !is_space_char(sv[i]) && (i == 0 || is_space_char(sv[i - 1])) {
            if left == 0 {
                let e = scan_word(&sv, i);
                return Some(slice(s, i, e));
            }
            left -= 1;
        }
        i += 1;
    }
    None
}

/// The last word of `s`.
pub fn final_word(s: &str) -> (r: Option<String>)
    ensures
        r is Some == last_word(s@) is Some,
        r matches Some(w) ==> last_word(s@) == Some(w@),
{
    let sv = to_chars(s);
    let mut i: usize = sv.len();
    while i > 0
        invariant
            i <= sv.len(),
            sv@ == s@,
            last_word_start(sv@, sv.len() as int) == last_word_start(sv@, i as int),
        decreases i,
    {
        i -= 1;
        if !is_space_char(sv[i]) && (i == 0 || is_space_char(sv[i - 1])) {
            let e = scan_word(&sv, i);
            return Some(slice(s, i, e));
        }
    }
    None
}

/// `a` followed by `b`.
pub fn join2(a: &str, b: &str) -> (r: String)
    ensures
        r@ == a@ + b@,
{
    let mut r = String::from_str(a);
    r.append(b);
    r
}

/// `a`, `b` and `c` in a row.
pub fn join3(a: &str, b: &str, c: &str) -> (r: String)
    ensures
        r@ == a@ + b@ + c@,
{
    let mut r = String::from_str(a);
    r.append(b);
    r.append(c);
    r
}

/// The characters of `s` from offset `from` on.
pub fn tail(s: &str, from: usize) -> (r: String)
    requires
        from <= s@.len(),
    ensures
        r@ == s@.skip(from as int),
{
    let n = s.unicode_len();
    slice(s, from, n)
}

/// The first `to` characters of `s`.
pub fn head(s: &str, to: usize) -> (r: String)
    requires
        to <= s@.len(),
    ensures
        r@ == s@.take(to as int),
{
    slice(s, 0, to)
}

/// The view of a text that may be missing.
pub open spec fn opt_view(o: Option<String>) -> Option<Seq<char>> {
    match o {
        Some(s) => Some(s@),
        None => None,
    }
}

} // verus!
