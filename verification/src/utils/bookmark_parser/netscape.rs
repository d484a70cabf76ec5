//! The Netscape bookmark file format: reading bookmarks from an HTML export
//! and writing bookmarks as one.
use vstd::prelude::*;

use crate::escape::{html_escape, html_escape_spec, html_unescape, html_unescape_spec};
use crate::models::bookmarks::Bookmark;
use crate::numbers::{decimal_of, i64_to_decimal, parse_i64, parse_i64_spec};
use crate::text::{
    append_chars, char_is_alphanumeric, chars_eq, chars_of, contains, contains_exec, copy_range,
    find, find_exec, is_alphanumeric, join, lines_exec, lines_of, rfind, rfind_exec, split_char,
    starts_with, starts_with_exec, string_of, strip_all_prefix, strip_all_prefix_exec, trim,
    trim_exec, index_of_from, index_of_from_exec, lemma_index_of_from_bounds, texts,
};
use crate::time::{
    format_utc_timestamp, iso_seconds_pattern, parse_rfc3339_timestamp, rfc3339_unix_seconds,
    utc_timestamp_text,
};

verus! {

// ---------------------------------------------------------------------------
// errors
// ---------------------------------------------------------------------------

/// Why a bookmark line could not be read.
#[derive(Debug, Clone, Copy, PartialEq, Eq, Structural)]
pub enum ParseError {
    /// The line holds no `<A ` or `<a ` tag.
    NoAnchorTag,
    /// The anchor tag is not closed by `>`.
    UnclosedAnchorTag,
    /// The anchor tag has no `HREF` attribute.
    MissingHref,
    /// No `>` ends the opening anchor tag when the title is read.
    NoClosingAngle,
    /// The line holds no `</A>` or `</a>`.
    NoClosingAnchor,
}

impl ParseError {
    /// The message that describes the error.
    pub open spec fn message_spec(self) -> Seq<char> {
        match self {
            ParseError::NoAnchorTag => "No anchor tag found"@,
            ParseError::UnclosedAnchorTag => "Unclosed anchor tag"@,
            ParseError::MissingHref => "Missing HREF attribute"@,
            ParseError::NoClosingAngle => "No closing > in anchor tag"@,
            ParseError::NoClosingAnchor => "No closing </A> tag"@,
        }
    }

    /// The message that describes the error.
    pub fn message(&self) -> (res: String)
        ensures
            res@ == self.message_spec(),
    {
        let text = match self {
            ParseError::NoAnchorTag => "No anchor tag found",
            ParseError::UnclosedAnchorTag => "Unclosed anchor tag",
            ParseError::MissingHref => "Missing HREF attribute",
            ParseError::NoClosingAngle => "No closing > in anchor tag",
            ParseError::NoClosingAnchor => "No closing </A> tag",
        };
        string_of(&chars_of(text))
    }
}

// ---------------------------------------------------------------------------
// the attribute scanner
// ---------------------------------------------------------------------------

/// The state of the scan over the attributes of an anchor tag: the
/// attributes stored so far, in the order they were stored (a later one with
/// the same key hides an earlier one), the key and value being read, and
/// whether the scan is inside quotes or after an `=`.
pub struct AttrScan {
    pub stored: Seq<(Seq<char>, Seq<char>)>,
    pub key: Seq<char>,
    pub value: Seq<char>,
    pub in_quotes: bool,
    pub reading_value: bool,
}

pub open spec fn attr_scan_start() -> AttrScan {
    AttrScan {
        stored: seq![],
        key: seq![],
        value: seq![],
        in_quotes: false,
        reading_value: false,
    }
}

/// The scan after the stored attribute `(key, value)` was stored and the
/// key and value were cleared.
pub open spec fn attr_store(st: AttrScan) -> Seq<(Seq<char>, Seq<char>)> {
    st.stored.push((st.key, st.value))
}

/// One character of the scan.
pub open spec fn attr_step(st: AttrScan, ch: char) -> AttrScan {
    if (ch == ' ' || ch == '\t') && !st.in_quotes {
        if st.reading_value {
            AttrScan {
                stored: attr_store(st),
                key: seq![],
                value: seq![],
                in_quotes: st.in_quotes,
                reading_value: false,
            }
        } else {
            AttrScan { key: seq![], ..st }
        }
    } else if ch == '=' && !st.in_quotes {
        AttrScan { reading_value: true, ..st }
    } else if ch == '"' {
        if st.in_quotes {
            AttrScan {
                stored: attr_store(st),
                key: seq![],
                value: seq![],
                in_quotes: false,
                reading_value: false,
            }
        } else {
            AttrScan { in_quotes: true, ..st }
        }
    } else if st.in_quotes || st.reading_value {
        AttrScan { value: st.value.push(ch), ..st }
    } else if char_is_alphanumeric(ch) || ch == '_' {
        AttrScan { key: st.key.push(ch), ..st }
    } else {
        st
    }
}

/// The scan over all of `s`.
pub open spec fn attr_scan(s: Seq<char>) -> AttrScan
    decreases s.len(),
{
    if s.len() == 0 {
        attr_scan_start()
    } else {
        attr_step(attr_scan(s.drop_last()), s.last())
    }
}

/// The attributes stored by the scan over `s`, with a pending key and value
/// stored at the end when both are non-empty.
pub open spec fn attrs_of(s: Seq<char>) -> Seq<(Seq<char>, Seq<char>)> {
    let st = attr_scan(s);
    if st.key.len() > 0 && st.value.len() > 0 {
        attr_store(st)
    } else {
        st.stored
    }
}

/// The value stored last under `key` (a map where a later insertion replaces
/// an earlier one).
pub open spec fn attr_lookup(stored: Seq<(Seq<char>, Seq<char>)>, key: Seq<char>) -> Option<
    Seq<char>,
>
    decreases stored.len(),
{
    if stored.len() == 0 {
        None
    } else if stored.last().0 == key {
        Some(stored.last().1)
    } else {
        attr_lookup(stored.drop_last(), key)
    }
}

/// The value under the upper-case key, else under the lower-case one.
pub open spec fn attr_either(
    stored: Seq<(Seq<char>, Seq<char>)>,
    upper: Seq<char>,
    lower: Seq<char>,
) -> Option<Seq<char>> {
    match attr_lookup(stored, upper) {
        Some(v) => Some(v),
        None => attr_lookup(stored, lower),
    }
}

pub open spec fn lit_anchor_upper() -> Seq<char> {
    seq!['<', 'A', ' ']
}

pub open spec fn lit_anchor_lower() -> Seq<char> {
    seq!['<', 'a', ' ']
}

pub open spec fn lit_close_upper() -> Seq<char> {
    seq!['<', '/', 'A', '>']
}

pub open spec fn lit_close_lower() -> Seq<char> {
    seq!['<', '/', 'a', '>']
}

pub open spec fn lit_gt() -> Seq<char> {
    seq!['>']
}

pub open spec fn lit_href_upper() -> Seq<char> {
    seq!['H', 'R', 'E', 'F']
}

pub open spec fn lit_href_lower() -> Seq<char> {
    seq!['h', 'r', 'e', 'f']
}

pub open spec fn lit_tags_upper() -> Seq<char> {
    seq!['T', 'A', 'G', 'S']
}

pub open spec fn lit_tags_lower() -> Seq<char> {
    seq!['t', 'a', 'g', 's']
}

pub open spec fn lit_add_date_upper() -> Seq<char> {
    seq!['A', 'D', 'D', '_', 'D', 'A', 'T', 'E']
}

pub open spec fn lit_add_date_lower() -> Seq<char> {
    seq!['a', 'd', 'd', '_', 'd', 'a', 't', 'e']
}

pub open spec fn lit_dd_upper() -> Seq<char> {
    seq!['<', 'D', 'D', '>']
}

pub open spec fn lit_dd_lower() -> Seq<char> {
    seq!['<', 'd', 'd', '>']
}

pub open spec fn lit_entry_upper() -> Seq<char> {
    seq!['<', 'D', 'T', '>', '<', 'A', ' ', 'H', 'R', 'E', 'F', '=']
}

pub open spec fn lit_entry_lower() -> Seq<char> {
    seq!['<', 'D', 'T', '>', '<', 'a', ' ', 'h', 'r', 'e', 'f', '=']
}

/// Where the anchor tag of a line starts: the first `<A `, else the first `<a `.
pub open spec fn anchor_start_spec(line: Seq<char>) -> Option<int> {
    match find(line, lit_anchor_upper()) {
        Some(k) => Some(k),
        None => find(line, lit_anchor_lower()),
    }
}

/// The attributes of the anchor tag of a line: the text from the anchor's
/// start up to the first `>` after it, scanned.
pub open spec fn anchor_attributes_spec(line: Seq<char>) -> Result<
    Seq<(Seq<char>, Seq<char>)>,
    ParseError,
> {
    match anchor_start_spec(line) {
        None => Err(ParseError::NoAnchorTag),
        Some(start) => match find(line.skip(start), lit_gt()) {
            None => Err(ParseError::UnclosedAnchorTag),
            Some(end) => Ok(attrs_of(line.subrange(start, start + end))),
        },
    }
}

/// The title of the anchor of a line, unescaped; `None` where the title's
/// closing tag comes before the end of the opening one (reading the title
/// there fails with an out-of-order slice).
pub open spec fn anchor_title_spec(line: Seq<char>) -> Option<Result<Seq<char>, ParseError>> {
    match anchor_start_spec(line) {
        None => Some(Err(ParseError::NoAnchorTag)),
        Some(anchor) => match find(line.skip(anchor), lit_gt()) {
            None => Some(Err(ParseError::NoClosingAngle)),
            Some(gt) => {
                let start = gt + anchor;
                let end = match rfind(line, lit_close_upper()) {
                    Some(e) => Some(e),
                    None => rfind(line, lit_close_lower()),
                };
                match end {
                    None => Some(Err(ParseError::NoClosingAnchor)),
                    Some(e) => if start + 1 > e {
                        None
                    } else {
                        Some(Ok(html_unescape_spec(trim(line.subrange(start + 1, e)))))
                    },
                }
            },
        }
    }
}

/// The trimmed, non-empty pieces among `pieces`.
pub open spec fn clean_tags(pieces: Seq<Seq<char>>) -> Seq<Seq<char>>
    decreases pieces.len(),
{
    if pieces.len() == 0 {
        seq![]
    } else {
        let t = trim(pieces[0]);
        if t.len() > 0 {
            seq![t] + clean_tags(pieces.skip(1))
        } else {
            clean_tags(pieces.skip(1))
        }
    }
}

/// The tags of an entry: the `TAGS` attribute split at commas.
pub open spec fn entry_tags(stored: Seq<(Seq<char>, Seq<char>)>) -> Seq<Seq<char>> {
    match attr_either(stored, lit_tags_upper(), lit_tags_lower()) {
        None => seq![],
        Some(t) => clean_tags(split_char(t, ',')),
    }
}

/// The date of an entry: the `ADD_DATE` attribute read as Unix seconds and
/// written as `%Y-%m-%dT%H:%M:%SZ`.
pub open spec fn entry_date(stored: Seq<(Seq<char>, Seq<char>)>) -> Option<Seq<char>> {
    match attr_either(stored, lit_add_date_upper(), lit_add_date_lower()) {
        None => None,
        Some(v) => match parse_i64_spec(v) {
            None => None,
            Some(ts) => utc_timestamp_text(ts, iso_seconds_pattern()),
        },
    }
}

/// Whether a (trimmed) line following an entry holds its description.
pub open spec fn is_description_line(t: Seq<char>) -> bool {
    starts_with(t, lit_dd_upper()) || starts_with(t, lit_dd_lower())
}

/// The description held by the line that follows an entry, if it holds one.
pub open spec fn description_of(next: Seq<char>) -> Seq<char> {
    let t = trim(next);
    if is_description_line(t) {
        html_unescape_spec(
            trim(strip_all_prefix(strip_all_prefix(t, lit_dd_upper()), lit_dd_lower())),
        )
    } else {
        seq![]
    }
}

/// What a bookmark read from a Netscape file holds.
pub struct ImportedEntry {
    pub url: Seq<char>,
    pub title: Seq<char>,
    pub description: Seq<char>,
    pub tags: Seq<Seq<char>>,
    pub date_added: Option<Seq<char>>,
}

/// How reading one entry line ends.
pub enum EntryOutcome {
    Parsed(ImportedEntry),
    Failed(ParseError),
    /// A title's closing tag comes before the end of its opening tag, so no
    /// closing anchor follows the opening tag: reported as `NoClosingAnchor`.
    Aborted,
}

/// Reading the (trimmed) entry line `line`, followed by the line `next` if
/// there is one.
pub open spec fn entry_outcome(line: Seq<char>, next: Option<Seq<char>>) -> EntryOutcome {
    match anchor_attributes_spec(line) {
        Err(e) => EntryOutcome::Failed(e),
        Ok(stored) => match attr_either(stored, lit_href_upper(), lit_href_lower()) {
            None => EntryOutcome::Failed(ParseError::MissingHref),
            Some(url) => match anchor_title_spec(line) {
                None => EntryOutcome::Aborted,
                Some(Err(e)) => EntryOutcome::Failed(e),
                Some(Ok(title)) => EntryOutcome::Parsed(
                    ImportedEntry {
                        url,
                        title,
                        description: match next {
                            Some(n) => description_of(n),
                            None => seq![],
                        },
                        tags: entry_tags(stored),
                        date_added: entry_date(stored),
                    },
                ),
            },
        },
    }
}

/// The date of addition that an `ADD_DATE` value gives: the value read as
/// Unix seconds and written as `%Y-%m-%dT%H:%M:%SZ`, none where it does not
/// read as a number.
pub open spec fn date_of_attribute(v: Seq<char>) -> Option<Seq<char>> {
    match parse_i64_spec(v) {
        None => None,
        Some(ts) => utc_timestamp_text(ts, iso_seconds_pattern()),
    }
}

/// The attributes of an entry are read under their upper-case names, and
/// under their lower-case names where the upper-case one is absent: the URL
/// from `HREF` or `href` (an entry with neither is refused as missing its
/// URL), the tags from `TAGS` or `tags`, split at commas, trimmed and without
/// empty pieces (none when neither is there), and the date of addition from
/// `ADD_DATE` or `add_date`.
pub proof fn lemma_entry_attribute_names(line: Seq<char>, next: Option<Seq<char>>)
    ensures
        anchor_attributes_spec(line) matches Ok(stored) ==> {
            let href_upper = attr_lookup(stored, seq!['H', 'R', 'E', 'F']);
            let href_lower = attr_lookup(stored, seq!['h', 'r', 'e', 'f']);
            (href_upper is None && href_lower is None) ==> entry_outcome(line, next)
                == EntryOutcome::Failed(ParseError::MissingHref)
        },
        entry_outcome(line, next) matches EntryOutcome::Parsed(e) ==> {
            &&& anchor_attributes_spec(line) is Ok
            &&& {
                let stored = anchor_attributes_spec(line)->Ok_0;
                let href_upper = attr_lookup(stored, seq!['H', 'R', 'E', 'F']);
                let href_lower = attr_lookup(stored, seq!['h', 'r', 'e', 'f']);
                let tags_upper = attr_lookup(stored, seq!['T', 'A', 'G', 'S']);
                let tags_lower = attr_lookup(stored, seq!['t', 'a', 'g', 's']);
                let date_upper = attr_lookup(
                    stored,
                    seq!['A', 'D', 'D', '_', 'D', 'A', 'T', 'E'],
                );
                let date_lower = attr_lookup(
                    stored,
                    seq!['a', 'd', 'd', '_', 'd', 'a', 't', 'e'],
                );
                &&& href_upper matches Some(u) ==> e.url == u
                &&& href_upper is None ==> href_lower == Some(e.url)
                &&& tags_upper matches Some(t) ==> e.tags == clean_tags(split_char(t, ','))
                &&& tags_upper is None ==> (tags_lower matches Some(t) ==> e.tags
                    == clean_tags(split_char(t, ',')))
                &&& (tags_upper is None && tags_lower is None) ==> e.tags.len() == 0
                &&& date_upper matches Some(v) ==> e.date_added == date_of_attribute(v)
                &&& date_upper is None ==> (date_lower matches Some(v) ==> e.date_added
                    == date_of_attribute(v))
                &&& (date_upper is None && date_lower is None) ==> e.date_added is None
            }
        },
{
}

/// Whether a trimmed line starts a bookmark entry.
pub open spec fn is_entry_line(t: Seq<char>) -> bool {
    starts_with(t, lit_entry_upper()) || starts_with(t, lit_entry_lower())
}

/// How reading a whole document ends.
pub enum ScanOutcome {
    Entries(Seq<ImportedEntry>),
    Failed(ParseError),
    /// A title's closing tag comes before the end of its opening tag, so no
    /// closing anchor follows the opening tag: reported as `NoClosingAnchor`.
    Aborted,
}

/// The line after line `i`, if there is one.
pub open spec fn next_line(lines: Seq<Seq<char>>, i: int) -> Option<Seq<char>> {
    if i + 1 < lines.len() {
        Some(lines[i + 1])
    } else {
        None
    }
}

/// Whether the line after line `i` is the description of the entry at `i`.
pub open spec fn next_is_description(lines: Seq<Seq<char>>, i: int) -> bool {
    i + 1 < lines.len() && is_description_line(trim(lines[i + 1]))
}

/// Prepends an entry to the outcome of the rest of the document.
pub open spec fn prepend_entry(e: ImportedEntry, rest: ScanOutcome) -> ScanOutcome {
    match rest {
        ScanOutcome::Entries(es) => ScanOutcome::Entries(seq![e] + es),
        other => other,
    }
}

/// Reading the lines from line `i` on: each line that, trimmed, starts an
/// entry is read as a bookmark (and a description line after it is used up);
/// the first failure ends the reading.
pub open spec fn scan_lines(lines: Seq<Seq<char>>, i: int) -> ScanOutcome
    decreases lines.len() - i,
{
    if i < 0 || i >= lines.len() {
        ScanOutcome::Entries(seq![])
    } else {
        let t = trim(lines[i]);
        if is_entry_line(t) {
            match entry_outcome(t, next_line(lines, i)) {
                EntryOutcome::Aborted => ScanOutcome::Aborted,
                EntryOutcome::Failed(e) => ScanOutcome::Failed(e),
                EntryOutcome::Parsed(e) => prepend_entry(
                    e,
                    scan_lines(
                        lines,
                        if next_is_description(lines, i) {
                            i + 2
                        } else {
                            i + 1
                        },
                    ),
                ),
            }
        } else {
            scan_lines(lines, i + 1)
        }
    }
}

/// Reading a whole Netscape document.
pub open spec fn netscape_scan(content: Seq<char>) -> ScanOutcome {
    scan_lines(lines_of(content), 0)
}

/// Whether `b` is the bookmark made of the entry `e`: the read fields come
/// from the entry, every other field is empty or absent.
pub open spec fn imported_as(b: Bookmark, e: ImportedEntry) -> bool {
    &&& b.url@ == e.url
    &&& b.title@ == e.title
    &&& b.description@ == e.description
    &&& b.tag_names@.len() == e.tags.len()
    &&& forall|j: int| 0 <= j < e.tags.len() ==> #[trigger] b.tag_names@[j]@ == e.tags[j]
    &&& match (b.date_added, e.date_added) {
        (Some(d), Some(x)) => d@ == x,
        (None, None) => true,
        _ => false,
    }
    &&& b.id is None
    &&& b.user_account_id is None
    &&& b.linkding_internal_id is None
    &&& b.website_title is None
    &&& b.website_description is None
    &&& b.notes@ == Seq::<char>::empty()
    &&& b.web_archive_snapshot_url@ == Seq::<char>::empty()
    &&& b.favicon_url is None
    &&& b.preview_image_url is None
    &&& !b.is_archived
    &&& !b.unread
    &&& !b.shared
    &&& b.date_modified is None
    &&& b.is_owner is None
    &&& b.favicon_cached is None
}

// ---------------------------------------------------------------------------
// executable attribute scanner
// ---------------------------------------------------------------------------

/// Stored attributes, as parallel key and value lists.
pub struct AttrList {
    pub keys: Vec<Vec<char>>,
    pub values: Vec<Vec<char>>,
}

impl AttrList {
    pub open spec fn wf(&self) -> bool {
        self.keys@.len() == self.values@.len()
    }

    pub open spec fn entries(&self) -> Seq<(Seq<char>, Seq<char>)> {
        Seq::new(self.keys@.len(), |i: int| (self.keys@[i]@, self.values@[i]@))
    }

    fn push(&mut self, k: Vec<char>, v: Vec<char>)
        requires
            old(self).wf(),
        ensures
            final(self).wf(),
            final(self).entries() == old(self).entries().push((k@, v@)),
    {
        let ghost prev = self.entries();
        self.keys.push(k);
        self.values.push(v);
        assert(self.entries() =~= prev.push((k@, v@)));
    }

    /// A copy of the value stored last under `key`.
    pub fn lookup(&self, key: &[char]) -> (res: Option<Vec<char>>)
        requires
            self.wf(),
        ensures
            match res {
                Some(v) => attr_lookup(self.entries(), key@) == Some(v@),
                None => attr_lookup(self.entries(), key@) is None,
            },
    {
        let mut n: usize = self.keys.len();
        assert(self.entries().take(n as int) =~= self.entries());
        while n > 0
            invariant
                n <= self.keys@.len(),
                self.wf(),
                attr_lookup(self.entries(), key@) == attr_lookup(self.entries().take(n as int), key@),
            decreases n,
        {
            let ghost pre = self.entries().take(n as int);
            assert(pre.drop_last() =~= self.entries().take(n - 1));
            if chars_eq(&self.keys[n - 1], key) {
                return Some(copy_range(&self.values[n - 1], 0, self.values[n - 1].len()));
            }
            n -= 1;
        }
        None
    }

    /// The value under the upper-case key, else under the lower-case one.
    pub fn lookup_either(&self, upper: &[char], lower: &[char]) -> (res: Option<Vec<char>>)
        requires
            self.wf(),
        ensures
            match res {
                Some(v) => attr_either(self.entries(), upper@, lower@) == Some(v@),
                None => attr_either(self.entries(), upper@, lower@) is None,
            },
    {
        match self.lookup(upper) {
            Some(v) => Some(v),
            None => self.lookup(lower),
        }
    }
}

proof fn lemma_attr_scan_take(s: Seq<char>, i: int)
    requires
        0 <= i < s.len(),
    ensures
        attr_scan(s.take(i + 1)) == attr_step(attr_scan(s.take(i)), s[i]),
{
    assert(s.take(i + 1).drop_last() =~= s.take(i));
}

/// Scans the attributes of `s`.
fn scan_attributes(s: &[char]) -> (res: AttrList)
    ensures
        res.wf(),
        res.entries() == attrs_of(s@),
{
    let mut attrs = AttrList { keys: Vec::new(), values: Vec::new() };
    let mut key: Vec<char> = Vec::new();
    let mut value: Vec<char> = Vec::new();
    let mut in_quotes = false;
    let mut reading_value = false;
    let mut i: usize = 0;
    assert(attrs.entries() =~= Seq::<(Seq<char>, Seq<char>)>::empty());
    assert(s@.take(0) =~= Seq::<char>::empty());
    while i < s.len()
        invariant
            i <= s.len(),
            attrs.wf(),
            attrs.entries() == attr_scan(s@.take(i as int)).stored,
            key@ == attr_scan(s@.take(i as int)).key,
            value@ == attr_scan(s@.take(i as int)).value,
            in_quotes == attr_scan(s@.take(i as int)).in_quotes,
            reading_value == attr_scan(s@.take(i as int)).reading_value,
        decreases s.len() - i,
    {
        let ch = s[i];
        proof {
            lemma_attr_scan_take(s@, i as int);
        }
        if (ch == ' ' || ch == '\t') && !in_quotes {
            if reading_value {
                attrs.push(key, value);
                key = Vec::new();
                value = Vec::new();
                reading_value = false;
            } else {
                key = Vec::new();
            }
        } else if ch == '=' && !in_quotes {
            reading_value = true;
        } else if ch == '"' {
            if in_quotes {
                attrs.push(key, value);
                key = Vec::new();
                value = Vec::new();
                reading_value = false;
            }
            in_quotes = !in_quotes;
        } else if in_quotes || reading_value {
            value.push(ch);
        } else if is_alphanumeric(ch) || ch == '_' {
            key.push(ch);
        }
        proof {
            let st = attr_scan(s@.take(i + 1));
            assert(key@ =~= st.key);
            assert(value@ =~= st.value);
        }
        i += 1;
    }
    assert(s@.take(s.len() as int) =~= s@);
    if key.len() > 0 && value.len() > 0 {
        attrs.push(key, value);
    }
    attrs
}


fn anchor_start(line: &[char]) -> (res: Option<usize>)
    ensures
        match res {
            Some(k) => anchor_start_spec(line@) == Some(k as int),
            None => anchor_start_spec(line@) is None,
        },
{
    let upper: Vec<char> = vec!['<', 'A', ' '];
    let lower: Vec<char> = vec!['<', 'a', ' '];
    assert(upper@ =~= lit_anchor_upper() && lower@ =~= lit_anchor_lower());
    match find_exec(line, &upper) {
        Some(k) => Some(k),
        None => find_exec(line, &lower),
    }
}

proof fn lemma_find_bound(s: Seq<char>, p: Seq<char>)
    ensures
        find(s, p) matches Some(k) ==> 0 <= k && k + p.len() <= s.len(),
{
    crate::text::lemma_find_from_bounds(s, p, 0);
}

proof fn lemma_rfind_bound(s: Seq<char>, p: Seq<char>)
    ensures
        rfind(s, p) matches Some(k) ==> 0 <= k && k + p.len() <= s.len(),
{
    crate::text::lemma_rfind_below_bounds(s, p, s.len() + 1int);
}

/// Extracts the attributes of the anchor tag of a line.
fn parse_anchor_attributes(line: &[char]) -> (res: Result<AttrList, ParseError>)
    ensures
        match (res, anchor_attributes_spec(line@)) {
            (Ok(a), Ok(e)) => a.wf() && a.entries() == e,
            (Err(x), Err(y)) => x == y,
            _ => false,
        },
{
    let start = match anchor_start(line) {
        Some(k) => k,
        None => {
            return Err(ParseError::NoAnchorTag);
        },
    };
    proof {
        lemma_find_bound(line@, lit_anchor_upper());
        lemma_find_bound(line@, lit_anchor_lower());
    }
    let rest = copy_range(line, start, line.len());
    assert(rest@ =~= line@.skip(start as int));
    let gt: Vec<char> = vec!['>'];
    assert(gt@ =~= lit_gt());
    let end = match find_exec(&rest, &gt) {
        Some(e) => e,
        None => {
            return Err(ParseError::UnclosedAnchorTag);
        },
    };
    proof {
        lemma_find_bound(rest@, lit_gt());
    }
    let attrs_text = copy_range(line, start, start + end);
    Ok(scan_attributes(&attrs_text))
}

/// Extracts the unescaped title of the anchor of a line; `None` where the
/// closing tag comes before the end of the opening one.
fn extract_title_from_anchor(line: &[char]) -> (res: Option<Result<Vec<char>, ParseError>>)
    ensures
        match (res, anchor_title_spec(line@)) {
            (None, None) => true,
            (Some(Ok(t)), Some(Ok(u))) => t@ == u,
            (Some(Err(x)), Some(Err(y))) => x == y,
            _ => false,
        },
{
    let anchor = match anchor_start(line) {
        Some(k) => k,
        None => {
            return Some(Err(ParseError::NoAnchorTag));
        },
    };
    proof {
        lemma_find_bound(line@, lit_anchor_upper());
        lemma_find_bound(line@, lit_anchor_lower());
    }
    let rest = copy_range(line, anchor, line.len());
    assert(rest@ =~= line@.skip(anchor as int));
    let gt: Vec<char> = vec!['>'];
    assert(gt@ =~= lit_gt());
    let gt_pos = match find_exec(&rest, &gt) {
        Some(e) => e,
        None => {
            return Some(Err(ParseError::NoClosingAngle));
        },
    };
    proof {
        lemma_find_bound(rest@, lit_gt());
    }
    let start = gt_pos + anchor;
    let close_upper: Vec<char> = vec!['<', '/', 'A', '>'];
    let close_lower: Vec<char> = vec!['<', '/', 'a', '>'];
    assert(close_upper@ =~= lit_close_upper() && close_lower@ =~= lit_close_lower());
    let end_opt = match rfind_exec(line, &close_upper) {
        Some(e) => Some(e),
        None => rfind_exec(line, &close_lower),
    };
    let end = match end_opt {
        Some(e) => e,
        None => {
            return Some(Err(ParseError::NoClosingAnchor));
        },
    };
    proof {
        lemma_rfind_bound(line@, lit_close_upper());
        lemma_rfind_bound(line@, lit_close_lower());
    }
    if start + 1 > end {
        return None;
    }
    let inner = copy_range(line, start + 1, end);
    let trimmed = trim_exec(&inner);
    Some(Ok(html_unescape(&trimmed)))
}

/// The trimmed, non-empty pieces of `t` between commas.
fn tags_from_attribute(t: &[char]) -> (res: Vec<String>)
    ensures
        res@.len() == clean_tags(split_char(t@, ',')).len(),
        forall|j: int| 0 <= j < res@.len() ==> #[trigger] res@[j]@ == clean_tags(split_char(t@, ','))[j],
{
    let mut res: Vec<String> = Vec::new();
    let mut p: usize = 0;
    let ghost mut done: Seq<Seq<char>> = seq![];
    assert(t@.skip(0) =~= t@);
    loop
        invariant
            p <= t.len(),
            clean_tags(split_char(t@, ',')) == done + clean_tags(split_char(t@.skip(p as int), ',')),
            res@.len() == done.len(),
            forall|j: int| 0 <= j < res@.len() ==> #[trigger] res@[j]@ == done[j],
        decreases t.len() - p,
    {
        let k = index_of_from_exec(t, ',', p);
        let ghost rest = t@.skip(p as int);
        proof {
            lemma_index_of_from_bounds(t@, ',', p as int);
            crate::text::lemma_index_of_from_is_first(rest, ',', 0, k - p);
        }
        let piece = copy_range(t, p, k);
        let trimmed = trim_exec(&piece);
        proof {
            assert(rest.take(k - p) =~= piece@);
        }
        if k >= t.len() {
            proof {
                assert(split_char(rest, ',') == seq![rest]);
                assert(rest =~= piece@);
                assert(seq![rest].skip(1) =~= Seq::<Seq<char>>::empty());
                assert(clean_tags(Seq::<Seq<char>>::empty()) == Seq::<Seq<char>>::empty());
            }
            if trimmed.len() > 0 {
                proof {
                    done = done + seq![trimmed@];
                }
                res.push(string_of(&trimmed));
            }
            proof {
                assert(done + Seq::<Seq<char>>::empty() =~= done);
            }
            return res;
        }
        proof {
            assert(rest.skip(k - p + 1) =~= t@.skip(k + 1));
            let sp = split_char(rest, ',');
            assert(sp == seq![rest.take(k - p)] + split_char(rest.skip(k - p + 1), ','));
            assert(sp[0] == piece@);
            assert(sp.skip(1) =~= split_char(t@.skip(k + 1), ','));
        }
        if trimmed.len() > 0 {
            proof {
                let old_done = done;
                done = done + seq![trimmed@];
                assert(old_done + (seq![trimmed@] + clean_tags(split_char(t@.skip(k + 1), ','))) =~= done
                    + clean_tags(split_char(t@.skip(k + 1), ',')));
            }
            res.push(string_of(&trimmed));
        }
        p = k + 1;
    }
}

/// Reads `ADD_DATE` Unix seconds and writes them as an ISO date.
fn date_from_attribute(v: &[char]) -> (res: Option<String>)
    ensures
        match (res, parse_i64_spec(v@)) {
            (None, None) => true,
            (Some(d), Some(ts)) => utc_timestamp_text(ts, iso_seconds_pattern()) == Some(d@),
            (None, Some(ts)) => utc_timestamp_text(ts, iso_seconds_pattern()) is None,
            _ => false,
        },
{
    match parse_i64(v) {
        None => None,
        Some(ts) => {
            let pattern = "%Y-%m-%dT%H:%M:%SZ";
            proof {
                reveal_strlit("%Y-%m-%dT%H:%M:%SZ");
            }
            assert(pattern@ =~= iso_seconds_pattern());
            format_utc_timestamp(ts, pattern)
        },
    }
}

/// The description held by `next`, if it holds one, and whether it does.
fn description_from_line(next: &[char]) -> (res: (Vec<char>, bool))
    ensures
        res.0@ == description_of(next@),
        res.1 == is_description_line(trim(next@)),
{
    let t = trim_exec(next);
    let dd_upper: Vec<char> = vec!['<', 'D', 'D', '>'];
    let dd_lower: Vec<char> = vec!['<', 'd', 'd', '>'];
    assert(dd_upper@ =~= lit_dd_upper() && dd_lower@ =~= lit_dd_lower());
    if starts_with_exec(&t, &dd_upper) || starts_with_exec(&t, &dd_lower) {
        let a = strip_all_prefix_exec(&t, &dd_upper);
        let b = strip_all_prefix_exec(&a, &dd_lower);
        let c = trim_exec(&b);
        (html_unescape(&c), true)
    } else {
        (Vec::new(), false)
    }
}

/// How reading one entry line ends, executably.
pub enum EntryRead {
    Parsed(Bookmark, bool),
    Failed(ParseError),
    /// A title's closing tag comes before the end of its opening tag, so no
    /// closing anchor follows the opening tag: reported as `NoClosingAnchor`.
    Aborted,
}

/// Reads the (trimmed) entry line `line`, with the line after it if any; the
/// flag of a parsed entry tells whether that line was its description.
fn parse_bookmark_entry(line: &[char], next: Option<&Vec<char>>) -> (res: EntryRead)
    ensures
        match (res, entry_outcome(line@, match next { Some(n) => Some(n@), None => None })) {
            (EntryRead::Parsed(b, used), EntryOutcome::Parsed(e)) => imported_as(b, e) && used == (
            match next {
                Some(n) => is_description_line(trim(n@)),
                None => false,
            }),
            (EntryRead::Failed(x), EntryOutcome::Failed(y)) => x == y,
            (EntryRead::Aborted, EntryOutcome::Aborted) => true,
            _ => false,
        },
{
    let attributes = match parse_anchor_attributes(line) {
        Ok(a) => a,
        Err(e) => {
            return EntryRead::Failed(e);
        },
    };
    let href_upper: Vec<char> = vec!['H', 'R', 'E', 'F'];
    let href_lower: Vec<char> = vec!['h', 'r', 'e', 'f'];
    assert(href_upper@ =~= lit_href_upper() && href_lower@ =~= lit_href_lower());
    let url = match attributes.lookup_either(&href_upper, &href_lower) {
        Some(u) => u,
        None => {
            return EntryRead::Failed(ParseError::MissingHref);
        },
    };
    let title = match extract_title_from_anchor(line) {
        None => {
            return EntryRead::Aborted;
        },
        Some(Err(e)) => {
            return EntryRead::Failed(e);
        },
        Some(Ok(t)) => t,
    };
    let tags_upper: Vec<char> = vec!['T', 'A', 'G', 'S'];
    let tags_lower: Vec<char> = vec!['t', 'a', 'g', 's'];
    assert(tags_upper@ =~= lit_tags_upper() && tags_lower@ =~= lit_tags_lower());
    let tag_names = match attributes.lookup_either(&tags_upper, &tags_lower) {
        Some(t) => tags_from_attribute(&t),
        None => Vec::new(),
    };
    let date_upper: Vec<char> = vec!['A', 'D', 'D', '_', 'D', 'A', 'T', 'E'];
    let date_lower: Vec<char> = vec!['a', 'd', 'd', '_', 'd', 'a', 't', 'e'];
    assert(date_upper@ =~= lit_add_date_upper() && date_lower@ =~= lit_add_date_lower());
    let date_added = match attributes.lookup_either(&date_upper, &date_lower) {
        Some(v) => date_from_attribute(&v),
        None => None,
    };
    let (description, used) = match next {
        Some(n) => description_from_line(n),
        None => (Vec::new(), false),
    };
    let bookmark = Bookmark {
        id: None,
        user_account_id: None,
        linkding_internal_id: None,
        url: string_of(&url),
        title: string_of(&title),
        description: string_of(&description),
        website_title: None,
        website_description: None,
        notes: String::new(),
        web_archive_snapshot_url: String::new(),
        favicon_url: None,
        preview_image_url: None,
        is_archived: false,
        unread: false,
        shared: false,
        tag_names,
        date_added,
        date_modified: None,
        is_owner: None,
        favicon_cached: None,
    };
    proof {
        assert(Seq::<Seq<char>>::empty().len() == 0);
    }
    EntryRead::Parsed(bookmark, used)
}


/// The outcome of the rest of a document, after the entries `got`.
pub open spec fn prepend_all(got: Seq<ImportedEntry>, rest: ScanOutcome) -> ScanOutcome {
    match rest {
        ScanOutcome::Entries(es) => ScanOutcome::Entries(got + es),
        other => other,
    }
}

proof fn lemma_prepend_all_push(got: Seq<ImportedEntry>, e: ImportedEntry, rest: ScanOutcome)
    ensures
        prepend_all(got, prepend_entry(e, rest)) == prepend_all(got.push(e), rest),
{
    match rest {
        ScanOutcome::Entries(es) => {
            assert(got + (seq![e] + es) =~= got.push(e) + es);
        },
        _ => {},
    }
}

/// How reading a document ends, executably.
pub enum ScanRead {
    Entries(Vec<Bookmark>),
    Failed(ParseError),
    /// A title's closing tag comes before the end of its opening tag, so no
    /// closing anchor follows the opening tag: reported as `NoClosingAnchor`.
    Aborted,
}

/// Whether the executable outcome is the specified one.
pub open spec fn scan_read_matches(res: ScanRead, spec: ScanOutcome) -> bool {
    match (res, spec) {
        (ScanRead::Entries(bs), ScanOutcome::Entries(es)) => bs@.len() == es.len() && forall|k: int|
            0 <= k < es.len() ==> imported_as(#[trigger] bs@[k], es[k]),
        (ScanRead::Failed(x), ScanOutcome::Failed(y)) => x == y,
        (ScanRead::Aborted, ScanOutcome::Aborted) => true,
        _ => false,
    }
}

/// Reads a whole document line by line.
fn scan_document(content: &str) -> (res: ScanRead)
    ensures
        scan_read_matches(res, netscape_scan(content@)),
{
    let chars = chars_of(content);
    let lines = lines_exec(&chars);
    let ghost ls = lines_of(content@);
    let entry_upper: Vec<char> = vec!['<', 'D', 'T', '>', '<', 'A', ' ', 'H', 'R', 'E', 'F', '='];
    let entry_lower: Vec<char> = vec!['<', 'D', 'T', '>', '<', 'a', ' ', 'h', 'r', 'e', 'f', '='];
    assert(entry_upper@ =~= lit_entry_upper() && entry_lower@ =~= lit_entry_lower());
    let mut out: Vec<Bookmark> = Vec::new();
    let ghost mut got: Seq<ImportedEntry> = seq![];
    let mut i: usize = 0;
    assert(prepend_all(got, scan_lines(ls, 0)) == scan_lines(ls, 0)) by {
        match scan_lines(ls, 0) {
            ScanOutcome::Entries(es) => {
                assert(got + es =~= es);
            },
            _ => {},
        }
    }
    while i < lines.len()
        invariant
            i <= lines@.len(),
            ls == lines_of(content@),
            lines@.len() == ls.len(),
            forall|k: int| 0 <= k < lines@.len() ==> #[trigger] lines@[k]@ == ls[k],
            entry_upper@ == lit_entry_upper(),
            entry_lower@ == lit_entry_lower(),
            scan_lines(ls, 0) == prepend_all(got, scan_lines(ls, i as int)),
            out@.len() == got.len(),
            forall|k: int| 0 <= k < got.len() ==> imported_as(#[trigger] out@[k], got[k]),
        decreases lines@.len() - i,
    {
        let t = trim_exec(&lines[i]);
        assert(t@ == trim(ls[i as int]));
        if starts_with_exec(&t, &entry_upper) || starts_with_exec(&t, &entry_lower) {
            assert(is_entry_line(t@));
            let next: Option<&Vec<char>> = if i + 1 < lines.len() {
                Some(&lines[i + 1])
            } else {
                None
            };
            proof {
                assert(match next {
                    Some(n) => Some(n@),
                    None => None,
                } == next_line(ls, i as int));
            }
            match parse_bookmark_entry(&t, next) {
                EntryRead::Aborted => {
                    assert(scan_lines(ls, i as int) == ScanOutcome::Aborted);
                    return ScanRead::Aborted;
                },
                EntryRead::Failed(e) => {
                    assert(scan_lines(ls, i as int) == ScanOutcome::Failed(e));
                    return ScanRead::Failed(e);
                },
                EntryRead::Parsed(b, used) => {
                    let ghost e = match entry_outcome(t@, next_line(ls, i as int)) {
                        EntryOutcome::Parsed(e) => e,
                        _ => arbitrary(),
                    };
                    proof {
                        let j = if next_is_description(ls, i as int) {
                            i + 2
                        } else {
                            i + 1
                        };
                        lemma_prepend_all_push(got, e, scan_lines(ls, j));
                        got = got.push(e);
                    }
                    out.push(b);
                    if used {
                        i = i + 2;
                    } else {
                        i = i + 1;
                    }
                },
            }
        } else {
            i = i + 1;
        }
    }
    proof {
        assert(got + Seq::<ImportedEntry>::empty() =~= got);
    }
    ScanRead::Entries(out)
}

/// Whether a parse result is what reading the document specifies.
pub open spec fn parse_result_matches(
    res: Result<Vec<Bookmark>, ParseError>,
    spec: ScanOutcome,
) -> bool {
    match (res, spec) {
        (Ok(bs), ScanOutcome::Entries(es)) => bs@.len() == es.len() && forall|k: int|
            0 <= k < es.len() ==> imported_as(#[trigger] bs@[k], es[k]),
        (Err(x), ScanOutcome::Failed(y)) => x == y,
        (Err(x), ScanOutcome::Aborted) => x == ParseError::NoClosingAnchor,
        _ => false,
    }
}


/// Two bookmarks read from the same entry hold the same values.
pub proof fn lemma_imported_same(a: Bookmark, b: Bookmark, e: ImportedEntry)
    requires
        imported_as(a, e),
        imported_as(b, e),
    ensures
        a.same_as(b),
{
    assert(texts(a.tag_names@) =~= texts(b.tag_names@)) by {
        assert forall|j: int| 0 <= j < e.tags.len() implies a.tag_names@[j]@ == b.tag_names@[j]@ by {
            assert(a.tag_names@[j]@ == e.tags[j]);
            assert(b.tag_names@[j]@ == e.tags[j]);
        }
    }
}

/// Any two results that both answer the reading of one document agree: both
/// are the same error, or both are lists of bookmarks with the same values in
/// the same order. `BookmarkIO::parse` and `parse_netscape_html` both answer
/// it, so they give the same answer on every document.
pub proof fn lemma_parse_results_agree(
    a: Result<Vec<Bookmark>, ParseError>,
    b: Result<Vec<Bookmark>, ParseError>,
    content: Seq<char>,
)
    requires
        parse_result_matches(a, netscape_scan(content)),
        parse_result_matches(b, netscape_scan(content)),
    ensures
        a is Ok <==> b is Ok,
        a is Err ==> a == b,
        a is Ok && b is Ok ==> a->Ok_0@.len() == b->Ok_0@.len(),
        a is Ok && b is Ok ==> forall|k: int|
            0 <= k < a->Ok_0@.len() ==> #[trigger] a->Ok_0@[k].same_as(b->Ok_0@[k]),
{
    match (a, b) {
        (Ok(x), Ok(y)) => {
            match netscape_scan(content) {
                ScanOutcome::Entries(es) => {
                    assert forall|k: int| 0 <= k < x@.len() implies #[trigger] x@[k].same_as(
                        y@[k],
                    ) by {
                        lemma_imported_same(x@[k], y@[k], es[k]);
                    }
                },
                _ => {},
            }
        },
        _ => {},
    }
}

/// Parses a Netscape bookmark file and returns its bookmarks, in the order
/// of the file, or the first error met.
pub fn parse_netscape_html(html_content: &str) -> (res: Result<Vec<Bookmark>, ParseError>)
    ensures
        parse_result_matches(res, netscape_scan(html_content@)),
{
    match scan_document(html_content) {
        ScanRead::Entries(bs) => Ok(bs),
        ScanRead::Failed(e) => Err(e),
        ScanRead::Aborted => Err(ParseError::NoClosingAnchor),
    }
}


// ---------------------------------------------------------------------------
// writing
// ---------------------------------------------------------------------------

pub open spec fn header_text() -> Seq<char> {
    "<!DOCTYPE NETSCAPE-Bookmark-file-1>\n<META HTTP-EQUIV=\"Content-Type\" CONTENT=\"text/html; charset=UTF-8\">\n<TITLE>Bookmarks</TITLE>\n<H1>Bookmarks</H1>\n<DL><p>\n"@
}

pub open spec fn footer_text() -> Seq<char> {
    "</DL><p>\n"@
}

pub open spec fn entry_open_text() -> Seq<char> {
    "    <DT><A HREF=\""@
}

pub open spec fn add_date_open_text() -> Seq<char> {
    " ADD_DATE=\""@
}

pub open spec fn tags_open_text() -> Seq<char> {
    " TAGS=\""@
}

pub open spec fn entry_close_text() -> Seq<char> {
    "</A>\n"@
}

pub open spec fn description_open_text() -> Seq<char> {
    "    <DD>"@
}

/// The tags of a bookmark as sequences of characters.
pub open spec fn tags_view(b: Bookmark) -> Seq<Seq<char>> {
    b.tag_names@.map_values(|t: String| t@)
}

/// The `ADD_DATE` attribute written for a bookmark: its date read as RFC 3339
/// and written as Unix seconds, or nothing.
pub open spec fn add_date_attribute(b: Bookmark) -> Seq<char> {
    match b.date_added {
        Some(d) => match rfc3339_unix_seconds(d@) {
            Some(ts) => add_date_open_text() + decimal_of(ts as int) + seq!['"'],
            None => seq![],
        },
        None => seq![],
    }
}

/// The `TAGS` attribute written for a bookmark: its tags joined with commas
/// and escaped, or nothing when it has no tags.
pub open spec fn tags_attribute(b: Bookmark) -> Seq<char> {
    if b.tag_names@.len() > 0 {
        tags_open_text() + html_escape_spec(join(tags_view(b), seq![','])) + seq!['"']
    } else {
        seq![]
    }
}

/// The description line written for a bookmark, or nothing when it has none.
pub open spec fn description_line(b: Bookmark) -> Seq<char> {
    if b.description@.len() > 0 {
        description_open_text() + html_escape_spec(b.description@) + seq!['\n']
    } else {
        seq![]
    }
}

/// The lines written for one bookmark.
pub open spec fn entry_html(b: Bookmark) -> Seq<char> {
    entry_open_text() + html_escape_spec(b.url@) + seq!['"'] + add_date_attribute(b)
        + tags_attribute(b) + seq!['>'] + html_escape_spec(b.title@) + entry_close_text()
        + description_line(b)
}

/// The lines written for a list of bookmarks, in order.
pub open spec fn entries_html(bs: Seq<Bookmark>) -> Seq<char>
    decreases bs.len(),
{
    if bs.len() == 0 {
        seq![]
    } else {
        entries_html(bs.drop_last()) + entry_html(bs.last())
    }
}

/// The Netscape document written for a list of bookmarks.
pub open spec fn netscape_document(bs: Seq<Bookmark>) -> Seq<char> {
    header_text() + entries_html(bs) + footer_text()
}

/// The tags joined with `sep`.
fn join_tags(tags: &Vec<String>, sep: char) -> (res: Vec<char>)
    ensures
        res@ == join(tags@.map_values(|t: String| t@), seq![sep]),
{
    let ghost parts = tags@.map_values(|t: String| t@);
    let mut out: Vec<char> = Vec::new();
    let n = tags.len();
    if n == 0 {
        return out;
    }
    let mut i: usize = n;
    let mut first = true;
    // build from the back: out == join(parts.skip(i))
    while i > 0
        invariant
            0 <= i <= n,
            n == tags@.len(),
            parts == tags@.map_values(|t: String| t@),
            first == (i == n),
            !first ==> out@ == join(parts.skip(i as int), seq![sep]),
        decreases i,
    {
        let piece = chars_of(tags[i - 1].as_str());
        let mut next: Vec<char> = piece;
        if !first {
            next.push(sep);
            append_chars(&mut next, &out);
        }
        proof {
            let rest = parts.skip(i - 1);
            assert(rest[0] == parts[i - 1]);
            assert(rest.skip(1) =~= parts.skip(i as int));
            if first {
                assert(rest.len() == 1);
            }
        }
        out = next;
        first = false;
        i -= 1;
    }
    assert(parts.skip(0) =~= parts);
    out
}

fn write_url(out: &mut Vec<char>, b: &Bookmark)
    ensures
        final(out)@ == old(out)@ + entry_open_text() + html_escape_spec(b.url@) + seq!['"'],
{
    let ghost start = out@;
    append_chars(out, &chars_of("    <DT><A HREF=\""));
    append_chars(out, &html_escape(&chars_of(b.url.as_str())));
    out.push('"');
    assert(out@ =~= start + entry_open_text() + html_escape_spec(b.url@) + seq!['"']);
}

fn write_add_date(out: &mut Vec<char>, b: &Bookmark)
    ensures
        final(out)@ == old(out)@ + add_date_attribute(*b),
{
    let ghost start = out@;
    match &b.date_added {
        Some(date_added) => {
            match parse_rfc3339_timestamp(date_added.as_str()) {
                Some(ts) => {
                    append_chars(out, &chars_of(" ADD_DATE=\""));
                    append_chars(out, &i64_to_decimal(ts));
                    out.push('"');
                },
                None => {},
            }
        },
        None => {},
    }
    assert(out@ =~= start + add_date_attribute(*b));
}

fn write_tags(out: &mut Vec<char>, b: &Bookmark)
    ensures
        final(out)@ == old(out)@ + tags_attribute(*b),
{
    let ghost start = out@;
    if b.tag_names.len() > 0 {
        append_chars(out, &chars_of(" TAGS=\""));
        let joined = join_tags(&b.tag_names, ',');
        append_chars(out, &html_escape(&joined));
        out.push('"');
    }
    assert(out@ =~= start + tags_attribute(*b));
}

fn write_title(out: &mut Vec<char>, b: &Bookmark)
    ensures
        final(out)@ == old(out)@ + seq!['>'] + html_escape_spec(b.title@) + entry_close_text(),
{
    let ghost start = out@;
    out.push('>');
    append_chars(out, &html_escape(&chars_of(b.title.as_str())));
    append_chars(out, &chars_of("</A>\n"));
    assert(out@ =~= start + seq!['>'] + html_escape_spec(b.title@) + entry_close_text());
}

fn write_description(out: &mut Vec<char>, b: &Bookmark)
    ensures
        final(out)@ == old(out)@ + description_line(*b),
{
    let ghost start = out@;
    if !b.description.as_str().is_empty() {
        append_chars(out, &chars_of("    <DD>"));
        append_chars(out, &html_escape(&chars_of(b.description.as_str())));
        out.push('\n');
    }
    assert(out@ =~= start + description_line(*b));
}

/// Appends the lines written for one bookmark.
fn write_entry(out: &mut Vec<char>, b: &Bookmark)
    ensures
        final(out)@ == old(out)@ + entry_html(*b),
{
    let ghost start = out@;
    write_url(out, b);
    write_add_date(out, b);
    write_tags(out, b);
    write_title(out, b);
    write_description(out, b);
    assert(out@ =~= start + entry_html(*b));
}

/// Writes bookmarks as a Netscape bookmark file.
pub fn generate_netscape_html(bookmarks: &[Bookmark]) -> (res: String)
    ensures
        res@ == netscape_document(bookmarks@),
{
    let mut html: Vec<char> = chars_of(
        "<!DOCTYPE NETSCAPE-Bookmark-file-1>\n<META HTTP-EQUIV=\"Content-Type\" CONTENT=\"text/html; charset=UTF-8\">\n<TITLE>Bookmarks</TITLE>\n<H1>Bookmarks</H1>\n<DL><p>\n",
    );
    let mut i: usize = 0;
    assert(bookmarks@.take(0) =~= Seq::<Bookmark>::empty());
    while i < bookmarks.len()
        invariant
            i <= bookmarks@.len(),
            html@ == header_text() + entries_html(bookmarks@.take(i as int)),
        decreases bookmarks@.len() - i,
    {
        write_entry(&mut html, &bookmarks[i]);
        proof {
            let t = bookmarks@.take(i + 1);
            assert(t.drop_last() =~= bookmarks@.take(i as int));
            assert(t.last() == bookmarks@[i as int]);
        }
        i += 1;
    }
    assert(bookmarks@.take(bookmarks@.len() as int) =~= bookmarks@);
    append_chars(&mut html, &chars_of("</DL><p>\n"));
    string_of(&html)
}

// ---------------------------------------------------------------------------
// format detection and dispatch
// ---------------------------------------------------------------------------

/// The bookmark file formats the library reads and writes.
#[derive(Debug, Clone, Copy, PartialEq, Eq, Structural)]
pub enum BookmarkFormat {
    Netscape,
}

pub open spec fn doctype_text() -> Seq<char> {
    "<!DOCTYPE NETSCAPE-Bookmark-file-1>"@
}

/// Whether a text looks like a Netscape bookmark file: it holds the Netscape
/// doctype or an entry opening in upper or lower case.
pub open spec fn looks_like_netscape(content: Seq<char>) -> bool {
    contains(content, doctype_text()) || contains(content, lit_entry_upper()) || contains(
        content,
        lit_entry_lower(),
    )
}

/// Something that reads and writes one bookmark file format.
pub trait BookmarkParser {
    fn parse(&self, content: &str) -> Result<Vec<Bookmark>, ParseError>;

    fn generate(&self, bookmarks: &[Bookmark]) -> String;
}

/// The Netscape format.
pub struct NetscapeParser;

impl BookmarkParser for NetscapeParser {
    fn parse(&self, html_content: &str) -> (res: Result<Vec<Bookmark>, ParseError>)
        ensures
            parse_result_matches(res, netscape_scan(html_content@)),
    {
        parse_netscape_html(html_content)
    }

    fn generate(&self, bookmarks: &[Bookmark]) -> (res: String)
        ensures
            res@ == netscape_document(bookmarks@),
    {
        generate_netscape_html(bookmarks)
    }
}

/// Reading and writing bookmark files by format.
pub struct BookmarkIO;

impl BookmarkIO {
    /// Reads bookmarks written in `format`.
    pub fn parse(content: &str, format: BookmarkFormat) -> (res: Result<Vec<Bookmark>, ParseError>)
        ensures
            parse_result_matches(res, netscape_scan(content@)),
    {
        let parser = Self::get_parser(format);
        parser.parse(content)
    }

    /// Writes bookmarks in `format`.
    pub fn generate(bookmarks: &[Bookmark], format: BookmarkFormat) -> (res: String)
        ensures
            res@ == netscape_document(bookmarks@),
    {
        let parser = Self::get_parser(format);
        parser.generate(bookmarks)
    }

    /// The reader and writer of a format.
    pub fn get_parser(format: BookmarkFormat) -> (res: NetscapeParser) {
        match format {
            BookmarkFormat::Netscape => NetscapeParser,
        }
    }

    /// The format a text is written in, as far as it can be told.
    pub fn detect_format(content: &str) -> (res: Option<BookmarkFormat>)
        ensures
            res == (if looks_like_netscape(content@) {
                Some(BookmarkFormat::Netscape)
            } else {
                None
            }),
    {
        let chars = chars_of(content);
        let doctype = chars_of("<!DOCTYPE NETSCAPE-Bookmark-file-1>");
        let entry_upper: Vec<char> = vec!['<', 'D', 'T', '>', '<', 'A', ' ', 'H', 'R', 'E', 'F', '='];
        let entry_lower: Vec<char> = vec!['<', 'D', 'T', '>', '<', 'a', ' ', 'h', 'r', 'e', 'f', '='];
        assert(entry_upper@ =~= lit_entry_upper() && entry_lower@ =~= lit_entry_lower());
        if contains_exec(&chars, &doctype) || (contains_exec(&chars, &entry_upper)
            || contains_exec(&chars, &entry_lower)) {
            return Some(BookmarkFormat::Netscape);
        }
        None
    }
}

} // verus!
