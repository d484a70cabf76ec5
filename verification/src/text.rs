//! Character-level text handling: the model of strings as sequences of
//! characters, the few std character predicates the library relies on, and
//! verified searching, trimming and splitting over those sequences.
use vstd::prelude::*;

verus! {

// ---------------------------------------------------------------------------
// std character predicates
// ---------------------------------------------------------------------------

/// Whether `c` carries the Unicode `White_Space` property, which is how
/// `char::is_whitespace` is documented: tab to carriage return, space, next
/// line, no-break space, ogham space mark, the spaces from en quad to hair
/// space, line and paragraph separators, narrow no-break space, medium
/// mathematical space and ideographic space.
pub open spec fn char_is_whitespace(c: char) -> bool {
    let u = c as u32;
    (0x9 <= u && u <= 0xD) || u == 0x20 || u == 0x85 || u == 0xA0 || u == 0x1680 || (0x2000 <= u
        && u <= 0x200A) || u == 0x2028 || u == 0x2029 || u == 0x202F || u == 0x205F || u == 0x3000
}

/// Whether a character outside ASCII is alphabetic or numeric in the Unicode
/// sense, as `char::is_alphanumeric` decides.
pub uninterp spec fn unicode_alphanumeric(c: char) -> bool;

/// ASCII letters and digits.
pub open spec fn ascii_alphanumeric(c: char) -> bool {
    ('a' <= c && c <= 'z') || ('A' <= c && c <= 'Z') || ('0' <= c && c <= '9')
}

/// What `char::is_alphanumeric` answers: within ASCII exactly the letters and
/// digits; outside ASCII the Unicode `Alphabetic` property or a numeric
/// general category.
pub open spec fn char_is_alphanumeric(c: char) -> bool {
    if (c as u32) < 0x80 {
        ascii_alphanumeric(c)
    } else {
        unicode_alphanumeric(c)
    }
}

/// Whether `c` is white space (`char::is_whitespace`).
pub fn is_whitespace(c: char) -> (res: bool)
    ensures
        res == char_is_whitespace(c),
{
    let u = c as u32;
    (0x9 <= u && u <= 0xD) || u == 0x20 || u == 0x85 || u == 0xA0 || u == 0x1680 || (0x2000 <= u
        && u <= 0x200A) || u == 0x2028 || u == 0x2029 || u == 0x202F || u == 0x205F || u == 0x3000
}

/// Calls `char::is_alphanumeric`. Its documentation defines the answer as
/// the Unicode `Alphabetic` property or a numeric general category; the
/// contract states it for ASCII (the letters and digits) and names it outside
/// ASCII, where the Unicode tables are not restated.
#[verifier::external_body]
pub(crate) fn is_alphanumeric(c: char) -> (res: bool)
    ensures
        (c as u32) < 0x80 ==> res == ascii_alphanumeric(c),
        (c as u32) >= 0x80 ==> res == unicode_alphanumeric(c),
{
    c.is_alphanumeric()
}

/// Calls `String::push`, which appends one character.
#[verifier::external_body]
pub(crate) fn push_char(s: &mut String, c: char)
    ensures
        final(s)@ == old(s)@.push(c),
{
    s.push(c);
}

// ---------------------------------------------------------------------------
// conversions
// ---------------------------------------------------------------------------

/// The characters of a string slice, in order.
pub fn chars_of(s: &str) -> (res: Vec<char>)
    ensures
        res@ == s@,
{
    let mut res: Vec<char> = Vec::new();
    for c in it: s.chars()
        invariant
            res@ == it.seq().take(it.index() as int),
            it.seq() == s@,
    {
        res.push(c);
    }
    res
}

/// A string holding the given characters.
pub fn string_of(v: &[char]) -> (res: String)
    ensures
        res@ == v@,
{
    let mut res = String::new();
    let mut i: usize = 0;
    while i < v.len()
        invariant
            i <= v.len(),
            res@ == v@.take(i as int),
        decreases v.len() - i,
    {
        push_char(&mut res, v[i]);
        assert(v@.take(i + 1) == v@.take(i as int).push(v@[i as int]));
        i += 1;
    }
    assert(v@.take(v.len() as int) == v@);
    res
}

/// Appends the given characters to a vector.
pub fn append_chars(out: &mut Vec<char>, v: &[char])
    ensures
        final(out)@ == old(out)@ + v@,
{
    let mut i: usize = 0;
    while i < v.len()
        invariant
            i <= v.len(),
            out@ == old(out)@ + v@.take(i as int),
        decreases v.len() - i,
    {
        out.push(v[i]);
        assert(v@.take(i + 1) == v@.take(i as int).push(v@[i as int]));
        i += 1;
    }
    assert(v@.take(v.len() as int) == v@);
}

/// The characters `v[from..to]` as a new vector.
pub fn copy_range(v: &[char], from: usize, to: usize) -> (res: Vec<char>)
    requires
        from <= to <= v.len(),
    ensures
        res@ == v@.subrange(from as int, to as int),
{
    let mut res: Vec<char> = Vec::new();
    let mut i: usize = from;
    while i < to
        invariant
            from <= i <= to <= v.len(),
            res@ == v@.subrange(from as int, i as int),
        decreases to - i,
    {
        res.push(v[i]);
        assert(v@.subrange(from as int, i + 1) == v@.subrange(from as int, i as int).push(
            v@[i as int],
        ));
        i += 1;
    }
    res
}

/// Whether two character sequences are equal.
pub fn chars_eq(a: &[char], b: &[char]) -> (res: bool)
    ensures
        res == (a@ == b@),
{
    if a.len() != b.len() {
        return false;
    }
    let mut i: usize = 0;
    while i < a.len()
        invariant
            a.len() == b.len(),
            i <= a.len(),
            a@.take(i as int) == b@.take(i as int),
        decreases a.len() - i,
    {
        if a[i] != b[i] {
            assert(a@[i as int] != b@[i as int]);
            return false;
        }
        assert(a@.take(i + 1) == a@.take(i as int).push(a@[i as int]));
        assert(b@.take(i + 1) == b@.take(i as int).push(b@[i as int]));
        i += 1;
    }
    assert(a@.take(a.len() as int) == a@);
    assert(b@.take(b.len() as int) == b@);
    true
}

// ---------------------------------------------------------------------------
// specifications of the text operations
// ---------------------------------------------------------------------------

/// Whether `p` occurs in `s` starting at position `i`.
pub open spec fn matches_at(s: Seq<char>, p: Seq<char>, i: int) -> bool {
    0 <= i && i + p.len() <= s.len() && s.subrange(i, i + p.len()) == p
}

/// Whether `s` begins with `p`.
pub open spec fn starts_with(s: Seq<char>, p: Seq<char>) -> bool {
    matches_at(s, p, 0)
}

/// The first position at or after `i` where `p` occurs in `s`.
pub open spec fn find_from(s: Seq<char>, p: Seq<char>, i: int) -> Option<int>
    decreases s.len() + 1 - i,
{
    if i < 0 || i + p.len() > s.len() {
        None
    } else if matches_at(s, p, i) {
        Some(i)
    } else {
        find_from(s, p, i + 1)
    }
}

/// The first position where `p` occurs in `s` (`str::find`).
pub open spec fn find(s: Seq<char>, p: Seq<char>) -> Option<int> {
    find_from(s, p, 0)
}

/// Whether `p` occurs in `s` (`str::contains`).
pub open spec fn contains(s: Seq<char>, p: Seq<char>) -> bool {
    find(s, p) is Some
}

/// The last position below `k` where `p` occurs in `s`.
pub open spec fn rfind_below(s: Seq<char>, p: Seq<char>, k: int) -> Option<int>
    decreases k,
{
    if k <= 0 {
        None
    } else if matches_at(s, p, k - 1) {
        Some(k - 1)
    } else {
        rfind_below(s, p, k - 1)
    }
}

/// The last position where `p` occurs in `s` (`str::rfind`).
pub open spec fn rfind(s: Seq<char>, p: Seq<char>) -> Option<int> {
    rfind_below(s, p, s.len() + 1int)
}

/// `s` without its leading white space (`str::trim_start`).
pub open spec fn trim_start(s: Seq<char>) -> Seq<char>
    decreases s.len(),
{
    if s.len() > 0 && char_is_whitespace(s[0]) {
        trim_start(s.skip(1))
    } else {
        s
    }
}

/// `s` without its trailing white space (`str::trim_end`).
pub open spec fn trim_end(s: Seq<char>) -> Seq<char>
    decreases s.len(),
{
    if s.len() > 0 && char_is_whitespace(s.last()) {
        trim_end(s.drop_last())
    } else {
        s
    }
}

/// `s` without leading and trailing white space (`str::trim`).
pub open spec fn trim(s: Seq<char>) -> Seq<char> {
    trim_end(trim_start(s))
}

/// `s` with every leading repetition of `p` removed (`str::trim_start_matches`).
pub open spec fn strip_all_prefix(s: Seq<char>, p: Seq<char>) -> Seq<char>
    decreases s.len(),
{
    if p.len() > 0 && starts_with(s, p) {
        strip_all_prefix(s.skip(p.len() as int), p)
    } else {
        s
    }
}

/// Whether `c` occurs in `s`.
pub open spec fn has_char(s: Seq<char>, c: char) -> bool {
    exists|i: int| 0 <= i < s.len() && s[i] == c
}

/// The first position of `c` in `s` at or after `i`, or `s.len()` when there is none.
pub open spec fn index_of_from(s: Seq<char>, c: char, i: int) -> int
    decreases s.len() - i,
{
    if i >= s.len() {
        s.len() as int
    } else if s[i] == c {
        i
    } else {
        index_of_from(s, c, i + 1)
    }
}

/// The pieces of `s` between occurrences of `c` (`str::split` on a character):
/// always at least one piece.
pub open spec fn split_char(s: Seq<char>, c: char) -> Seq<Seq<char>>
    decreases s.len(),
{
    let k = index_of_from(s, c, 0);
    proof {
        lemma_index_of_from_bounds(s, c, 0);
    }
    if k >= s.len() {
        seq![s]
    } else {
        seq![s.take(k)] + split_char(s.skip(k + 1), c)
    }
}

/// `s` with one trailing carriage return removed, if there is one.
pub open spec fn strip_cr(s: Seq<char>) -> Seq<char> {
    if s.len() > 0 && s.last() == '\r' {
        s.drop_last()
    } else {
        s
    }
}

/// The lines of `s` (`str::lines`): split at `\n`; a line that ended in `\n`
/// loses one `\r` before it; a final line ending adds no empty line.
pub open spec fn lines_of(s: Seq<char>) -> Seq<Seq<char>>
    decreases s.len(),
{
    if s.len() == 0 {
        seq![]
    } else {
        let k = index_of_from(s, '\n', 0);
        proof {
            lemma_index_of_from_bounds(s, '\n', 0);
        }
        if k >= s.len() {
            seq![s]
        } else {
            seq![strip_cr(s.take(k))] + lines_of(s.skip(k + 1))
        }
    }
}

/// The sequences of `parts` joined with `sep` between neighbours (`[T]::join`).
pub open spec fn join(parts: Seq<Seq<char>>, sep: Seq<char>) -> Seq<char>
    decreases parts.len(),
{
    if parts.len() == 0 {
        seq![]
    } else if parts.len() == 1 {
        parts[0]
    } else {
        parts[0] + sep + join(parts.skip(1), sep)
    }
}

// ---------------------------------------------------------------------------
// lemmas about the specifications
// ---------------------------------------------------------------------------

pub proof fn lemma_index_of_from_bounds(s: Seq<char>, c: char, i: int)
    requires
        0 <= i <= s.len(),
    ensures
        i <= index_of_from(s, c, i) <= s.len(),
        index_of_from(s, c, i) < s.len() ==> s[index_of_from(s, c, i)] == c,
        forall|j: int| i <= j < index_of_from(s, c, i) ==> s[j] != c,
    decreases s.len() - i,
{
    if i < s.len() && s[i] != c {
        lemma_index_of_from_bounds(s, c, i + 1);
    }
}

pub proof fn lemma_index_of_from_is_first(s: Seq<char>, c: char, i: int, k: int)
    requires
        0 <= i <= k <= s.len(),
        forall|j: int| i <= j < k ==> s[j] != c,
        k == s.len() || s[k] == c,
    ensures
        index_of_from(s, c, i) == k,
    decreases k - i,
{
    if i < k {
        lemma_index_of_from_is_first(s, c, i + 1, k);
    }
}

pub proof fn lemma_find_from_bounds(s: Seq<char>, p: Seq<char>, i: int)
    requires
        0 <= i,
    ensures
        find_from(s, p, i) matches Some(k) ==> i <= k && matches_at(s, p, k),
        find_from(s, p, i) matches Some(k) ==> forall|j: int|
            i <= j < k ==> !#[trigger] matches_at(s, p, j),
        find_from(s, p, i) is None ==> forall|j: int| i <= j ==> !#[trigger] matches_at(s, p, j),
    decreases s.len() + 1 - i,
{
    if i + p.len() <= s.len() && !matches_at(s, p, i) {
        lemma_find_from_bounds(s, p, i + 1);
    }
}

pub proof fn lemma_rfind_below_bounds(s: Seq<char>, p: Seq<char>, k: int)
    ensures
        rfind_below(s, p, k) matches Some(r) ==> r < k && matches_at(s, p, r),
        rfind_below(s, p, k) matches Some(r) ==> forall|j: int|
            r < j < k ==> !#[trigger] matches_at(s, p, j),
        rfind_below(s, p, k) is None ==> forall|j: int| j < k ==> !#[trigger] matches_at(s, p, j),
    decreases k,
{
    if k > 0 && !matches_at(s, p, k - 1) {
        lemma_rfind_below_bounds(s, p, k - 1);
    }
}

// ---------------------------------------------------------------------------
// executable text operations
// ---------------------------------------------------------------------------

/// Whether `p` occurs in `v` starting at position `i`.
pub fn matches_at_exec(v: &[char], p: &[char], i: usize) -> (res: bool)
    ensures
        res == matches_at(v@, p@, i as int),
{
    if i > v.len() || p.len() > v.len() - i {
        return false;
    }
    let mut j: usize = 0;
    while j < p.len()
        invariant
            i + p.len() <= v.len(),
            j <= p.len(),
            forall|t: int| 0 <= t < j ==> v@[i + t] == p@[t],
        decreases p.len() - j,
    {
        if v[i + j] != p[j] {
            assert(v@.subrange(i as int, i + p.len())[j as int] != p@[j as int]);
            return false;
        }
        j += 1;
    }
    assert(v@.subrange(i as int, i + p.len()) =~= p@);
    true
}

/// Whether `v` begins with `p`.
pub fn starts_with_exec(v: &[char], p: &[char]) -> (res: bool)
    ensures
        res == starts_with(v@, p@),
{
    matches_at_exec(v, p, 0)
}

/// The first position at or after `i` where `p` occurs in `v`.
pub fn find_from_exec(v: &[char], p: &[char], i: usize) -> (res: Option<usize>)
    ensures
        match res {
            Some(k) => find_from(v@, p@, i as int) == Some(k as int),
            None => find_from(v@, p@, i as int) is None,
        },
{
    let mut k: usize = i;
    while k <= v.len() && p.len() <= v.len() - k
        invariant
            i <= k,
            find_from(v@, p@, i as int) == find_from(v@, p@, k as int),
        decreases v.len() + 1 - k,
    {
        if matches_at_exec(v, p, k) {
            return Some(k);
        }
        assert(k < v.len()) by {
            if k == v.len() {
                assert(v@.subrange(k as int, k as int) =~= p@);
            }
        }
        k += 1;
    }
    None
}

/// The first position where `p` occurs in `v`.
pub fn find_exec(v: &[char], p: &[char]) -> (res: Option<usize>)
    ensures
        match res {
            Some(k) => find(v@, p@) == Some(k as int),
            None => find(v@, p@) is None,
        },
{
    find_from_exec(v, p, 0)
}

/// Whether `p` occurs in `v`.
pub fn contains_exec(v: &[char], p: &[char]) -> (res: bool)
    ensures
        res == contains(v@, p@),
{
    find_exec(v, p).is_some()
}

/// The last position where `p` occurs in `v`.
pub fn rfind_exec(v: &[char], p: &[char]) -> (res: Option<usize>)
    ensures
        match res {
            Some(k) => rfind(v@, p@) == Some(k as int),
            None => rfind(v@, p@) is None,
        },
{
    if p.len() > v.len() {
        proof {
            lemma_rfind_none_when_too_long(v@, p@, v@.len() + 1int);
        }
        return None;
    }
    let mut j: usize = v.len() - p.len();
    proof {
        lemma_rfind_skip_top(v@, p@, v@.len() + 1int, j + 1);
    }
    loop
        invariant
            j + p.len() == v.len() || j + p.len() < v.len(),
            rfind(v@, p@) == rfind_below(v@, p@, j + 1),
        decreases j,
    {
        if matches_at_exec(v, p, j) {
            return Some(j);
        }
        if j == 0 {
            assert(rfind_below(v@, p@, 0) is None);
            return None;
        }
        j -= 1;
    }
}

proof fn lemma_rfind_none_when_too_long(s: Seq<char>, p: Seq<char>, k: int)
    requires
        p.len() > s.len(),
    ensures
        rfind_below(s, p, k) is None,
    decreases k,
{
    if k > 0 {
        lemma_rfind_none_when_too_long(s, p, k - 1);
    }
}

proof fn lemma_rfind_skip_top(s: Seq<char>, p: Seq<char>, k: int, top: int)
    requires
        top == s.len() - p.len() + 1,
        top <= k,
        p.len() <= s.len(),
    ensures
        rfind_below(s, p, k) == rfind_below(s, p, top),
    decreases k - top,
{
    if k > top {
        assert(!matches_at(s, p, k - 1));
        lemma_rfind_skip_top(s, p, k - 1, top);
    }
}

/// The position of the first `c` in `v` at or after `i`, or `v.len()`.
pub fn index_of_from_exec(v: &[char], c: char, i: usize) -> (res: usize)
    requires
        i <= v.len(),
    ensures
        res as int == index_of_from(v@, c, i as int),
{
    let mut k: usize = i;
    while k < v.len()
        invariant
            i <= k <= v.len(),
            index_of_from(v@, c, i as int) == index_of_from(v@, c, k as int),
        decreases v.len() - k,
    {
        if v[k] == c {
            return k;
        }
        k += 1;
    }
    k
}

/// The bounds `(a, b)` of `v` without leading and trailing white space.
pub fn trim_bounds(v: &[char]) -> (res: (usize, usize))
    ensures
        res.0 <= res.1 <= v.len(),
        v@.subrange(res.0 as int, res.1 as int) == trim(v@),
{
    let mut a: usize = 0;
    assert(v@.skip(0) == v@);
    while a < v.len() && is_whitespace(v[a])
        invariant
            a <= v.len(),
            trim_start(v@) == trim_start(v@.skip(a as int)),
        decreases v.len() - a,
    {
        assert(v@.skip(a as int).skip(1) == v@.skip(a + 1));
        a += 1;
    }
    assert(trim_start(v@) == v@.skip(a as int));
    let mut b: usize = v.len();
    while b > a && is_whitespace(v[b - 1])
        invariant
            a <= b <= v.len(),
            trim(v@) == trim_end(v@.subrange(a as int, b as int)),
        decreases b,
    {
        assert(v@.subrange(a as int, b as int).drop_last() == v@.subrange(a as int, b - 1));
        b -= 1;
    }
    (a, b)
}

/// `v` without leading and trailing white space.
pub fn trim_exec(v: &[char]) -> (res: Vec<char>)
    ensures
        res@ == trim(v@),
{
    let (a, b) = trim_bounds(v);
    copy_range(v, a, b)
}

/// `v` with every leading repetition of the non-empty `p` removed.
pub fn strip_all_prefix_exec(v: &[char], p: &[char]) -> (res: Vec<char>)
    ensures
        res@ == strip_all_prefix(v@, p@),
{
    if p.len() == 0 {
        return copy_range(v, 0, v.len());
    }
    let mut i: usize = 0;
    assert(v@.skip(0) == v@);
    while matches_at_exec(v, p, i)
        invariant
            i <= v.len(),
            p.len() > 0,
            strip_all_prefix(v@, p@) == strip_all_prefix(v@.skip(i as int), p@),
        decreases v.len() - i,
    {
        assert(v@.skip(i as int).subrange(0, p.len() as int) == v@.subrange(
            i as int,
            i + p.len(),
        ));
        assert(v@.skip(i as int).skip(p.len() as int) == v@.skip(i + p.len()));
        i += p.len();
    }
    assert(!starts_with(v@.skip(i as int), p@)) by {
        if starts_with(v@.skip(i as int), p@) {
            assert(v@.skip(i as int).subrange(0, p.len() as int) == v@.subrange(
                i as int,
                i + p.len(),
            ));
        }
    }
    copy_range(v, i, v.len())
}

/// The lines of `v`, as `str::lines` gives them.
pub fn lines_exec(v: &[char]) -> (res: Vec<Vec<char>>)
    ensures
        res@.len() == lines_of(v@).len(),
        forall|k: int| 0 <= k < res@.len() ==> #[trigger] res@[k]@ == lines_of(v@)[k],
{
    let mut res: Vec<Vec<char>> = Vec::new();
    let mut p: usize = 0;
    let ghost mut done: Seq<Seq<char>> = seq![];
    assert(v@.skip(0) == v@);
    while p < v.len()
        invariant
            p <= v.len(),
            lines_of(v@) == done + lines_of(v@.skip(p as int)),
            res@.len() == done.len(),
            forall|k: int| 0 <= k < res@.len() ==> #[trigger] res@[k]@ == done[k],
        decreases v.len() - p,
    {
        let k = index_of_from_exec(v, '\n', p);
        let ghost rest = v@.skip(p as int);
        proof {
            lemma_index_of_from_bounds(v@, '\n', p as int);
            lemma_index_of_from_is_first(rest, '\n', 0, k - p);
        }
        if k >= v.len() {
            let line = copy_range(v, p, v.len());
            proof {
                assert(rest == v@.subrange(p as int, v.len() as int));
                done = done + seq![rest];
                assert(lines_of(v@.skip(v.len() as int)) == Seq::<Seq<char>>::empty());
            }
            res.push(line);
            p = v.len();
        } else {
            let mut end = k;
            if end > p && v[end - 1] == '\r' {
                end = end - 1;
            }
            let line = copy_range(v, p, end);
            proof {
                assert(rest.take(k - p) == v@.subrange(p as int, k as int));
                assert(strip_cr(rest.take(k - p)) == v@.subrange(p as int, end as int));
                assert(rest.skip(k - p + 1) == v@.skip(k + 1));
                done = done + seq![strip_cr(rest.take(k - p))];
            }
            res.push(line);
            p = k + 1;
        }
    }
    proof {
        assert(v@.skip(p as int).len() == 0);
        assert(done + Seq::<Seq<char>>::empty() == done);
    }
    res
}

/// The texts of a sequence of strings.
pub open spec fn texts(v: Seq<String>) -> Seq<Seq<char>> {
    v.map_values(|s: String| s@)
}

/// The pieces of `v` between occurrences of `c`, as `str::split` gives them.
pub fn split_exec(v: &[char], c: char) -> (res: Vec<String>)
    ensures
        texts(res@) == split_char(v@, c),
{
    let mut res: Vec<String> = Vec::new();
    let mut p: usize = 0;
    let ghost mut done: Seq<Seq<char>> = seq![];
    assert(v@.skip(0) == v@);
    loop
        invariant
            p <= v.len(),
            split_char(v@, c) == done + split_char(v@.skip(p as int), c),
            texts(res@) == done,
        decreases v.len() - p,
    {
        let k = index_of_from_exec(v, c, p);
        let ghost rest = v@.skip(p as int);
        proof {
            lemma_index_of_from_bounds(v@, c, p as int);
            lemma_index_of_from_is_first(rest, c, 0, k - p);
        }
        if k >= v.len() {
            let piece = copy_range(v, p, v.len());
            proof {
                assert(rest == v@.subrange(p as int, v.len() as int));
                assert(split_char(rest, c) == seq![rest]);
                done = done + seq![rest];
            }
            res.push(string_of(&piece));
            proof {
                assert(texts(res@) =~= done);
            }
            return res;
        } else {
            let piece = copy_range(v, p, k);
            proof {
                assert(rest.take(k - p) == v@.subrange(p as int, k as int));
                assert(rest.skip(k - p + 1) == v@.skip(k + 1));
                assert(split_char(rest, c) == seq![rest.take(k - p)] + split_char(
                    rest.skip(k - p + 1),
                    c,
                ));
                done = done + seq![rest.take(k - p)];
            }
            res.push(string_of(&piece));
            proof {
                assert(texts(res@) =~= done);
            }
            p = k + 1;
        }
    }
}

} // verus!
