//! What reading a written Netscape document gives back.
use vstd::prelude::*;

use crate::escape::{
    html_unescape_spec, lemma_unescape_escape,
    escape_char, flat_map_chars, html_escape_spec, is_markup_char, lemma_escape_is_flat_map,
    lemma_flat_map_concat, lemma_flat_map_fixed, lemma_flat_map_single,
};
use crate::models::bookmarks::Bookmark;
use crate::text::{
    strip_all_prefix,
    char_is_whitespace, contains, find, find_from, has_char, index_of_from, join, lines_of,
    matches_at, rfind, rfind_below, split_char, starts_with, strip_cr, trim, trim_end, trim_start,
    lemma_index_of_from_bounds, lemma_index_of_from_is_first,
};
use crate::numbers::{decimal_of, is_digit, lemma_nat_digits};
use crate::time::{iso_seconds_pattern, rfc3339_unix_seconds, utc_timestamp_text};
use crate::utils::bookmark_parser::netscape::{
    add_date_attribute, anchor_attributes_spec, anchor_start_spec, anchor_title_spec,
    description_line, description_of, entry_date, entry_html, entry_outcome, entry_tags,
    is_entry_line, lit_add_date_lower, lit_add_date_upper, lit_anchor_upper, lit_close_upper,
    lit_entry_upper, lit_gt, lit_href_lower, lit_href_upper, lit_tags_lower, lit_tags_upper,
    tags_attribute, tags_view, EntryOutcome, ImportedEntry, entries_html, footer_text,
    is_description_line, lit_dd_lower, lit_dd_upper, next_is_description, next_line, scan_lines,
    netscape_scan, prepend_entry, ScanOutcome, lit_entry_lower,
    attr_either, attr_lookup, attr_scan, attr_scan_start, attr_step, attr_store, attrs_of, AttrScan,
    clean_tags, doctype_text, header_text, looks_like_netscape, netscape_document,
};

verus! {

/// A written document is recognised as a Netscape bookmark file: for any
/// bookmarks, `detect_format(&generate(bookmarks))` is the Netscape format.
pub proof fn lemma_export_detected(bs: Seq<Bookmark>)
    ensures
        looks_like_netscape(netscape_document(bs)),
{
    reveal_strlit("<!DOCTYPE NETSCAPE-Bookmark-file-1>\n<META HTTP-EQUIV=\"Content-Type\" CONTENT=\"text/html; charset=UTF-8\">\n<TITLE>Bookmarks</TITLE>\n<H1>Bookmarks</H1>\n<DL><p>\n");
    reveal_strlit("<!DOCTYPE NETSCAPE-Bookmark-file-1>");
    let doc = netscape_document(bs);
    let d = doctype_text();
    assert(doc.subrange(0, d.len() as int) =~= d);
    assert(matches_at(doc, d, 0));
    assert(find_from(doc, d, 0) == Some(0int));
}

// ---------------------------------------------------------------------------
// lines
// ---------------------------------------------------------------------------

/// The first occurrence of a character in `x + y` is the one in `x`, if `x`
/// holds one.
proof fn lemma_index_in_prefix(x: Seq<char>, y: Seq<char>, c: char)
    requires
        index_of_from(x, c, 0) < x.len(),
    ensures
        index_of_from(x + y, c, 0) == index_of_from(x, c, 0),
{
    lemma_index_of_from_bounds(x, c, 0);
    let k = index_of_from(x, c, 0);
    assert forall|j: int| 0 <= j < k implies (x + y)[j] != c by {
        assert((x + y)[j] == x[j]);
    }
    assert((x + y)[k] == x[k]);
    lemma_index_of_from_is_first(x + y, c, 0, k);
}

/// The lines of two texts, the first ending a line, are the lines of each.
pub proof fn lemma_lines_concat(x: Seq<char>, y: Seq<char>)
    requires
        x.len() == 0 || x.last() == '\n',
    ensures
        lines_of(x + y) == lines_of(x) + lines_of(y),
    decreases x.len(),
{
    if x.len() == 0 {
        assert(x + y =~= y);
        assert(lines_of(x) =~= Seq::<Seq<char>>::empty());
        assert(lines_of(x) + lines_of(y) =~= lines_of(y));
    } else {
        lemma_index_of_from_bounds(x, '\n', 0);
        if index_of_from(x, '\n', 0) >= x.len() {
            assert(x[x.len() - 1] == '\n');
        }
        let k = index_of_from(x, '\n', 0);
        lemma_index_in_prefix(x, y, '\n');
        let rest = x.skip(k + 1);
        assert((x + y).take(k) =~= x.take(k));
        assert((x + y).skip(k + 1) =~= rest + y);
        if rest.len() > 0 {
            assert(rest.last() == x.last());
        }
        lemma_lines_concat(rest, y);
        assert(lines_of(x + y) == seq![strip_cr(x.take(k))] + lines_of(rest + y));
        assert(lines_of(x) == seq![strip_cr(x.take(k))] + lines_of(rest));
        assert(lines_of(x + y) =~= lines_of(x) + lines_of(y));
    }
}

/// A text without line feeds that does not end in a carriage return, ended
/// by a line feed, is one line.
pub proof fn lemma_one_line(s: Seq<char>)
    requires
        !has_char(s, '\n'),
        s.len() == 0 || s.last() != '\r',
    ensures
        lines_of(s + seq!['\n']) == seq![s],
{
    let t = s + seq!['\n'];
    assert forall|j: int| 0 <= j < s.len() implies t[j] != '\n' by {
        assert(t[j] == s[j]);
    }
    lemma_index_of_from_is_first(t, '\n', 0, s.len() as int);
    assert(t.take(s.len() as int) =~= s);
    assert(t.skip(s.len() as int + 1) =~= Seq::<char>::empty());
    assert(lines_of(t.skip(s.len() as int + 1)) =~= Seq::<Seq<char>>::empty());
    assert(lines_of(t) =~= seq![s]);
}

// ---------------------------------------------------------------------------
// searching
// ---------------------------------------------------------------------------

/// A match with no match before it, from `i` on, is the one found.
pub proof fn lemma_find_first(s: Seq<char>, p: Seq<char>, i: int, k: int)
    requires
        0 <= i <= k,
        matches_at(s, p, k),
        forall|j: int| i <= j < k ==> !matches_at(s, p, j),
    ensures
        find_from(s, p, i) == Some(k),
    decreases k - i,
{
    if i < k {
        assert(!matches_at(s, p, i));
        lemma_find_first(s, p, i + 1, k);
    }
}

/// A match with no match after it, below `k`, is the one found from the
/// back.
pub proof fn lemma_rfind_last(s: Seq<char>, p: Seq<char>, r: int, k: int)
    requires
        r < k,
        matches_at(s, p, r),
        forall|j: int| r < j < k ==> !matches_at(s, p, j),
    ensures
        rfind_below(s, p, k) == Some(r),
    decreases k - r,
{
    if r < k - 1 {
        assert(!matches_at(s, p, k - 1));
        lemma_rfind_last(s, p, r, k - 1);
    }
}

// ---------------------------------------------------------------------------
// escaping
// ---------------------------------------------------------------------------

/// Whether a text holds no character that escaping rewrites.
pub open spec fn markup_free(s: Seq<char>) -> bool {
    forall|i: int| 0 <= i < s.len() ==> !is_markup_char(#[trigger] s[i])
}

/// Escaping leaves a text without markup characters as it is.
pub proof fn lemma_escape_markup_free(s: Seq<char>)
    requires
        markup_free(s),
    ensures
        html_escape_spec(s) == s,
{
    lemma_escape_is_flat_map(s);
    let f = |c: char| escape_char(c);
    assert forall|i: int| 0 <= i < s.len() implies f(#[trigger] s[i]) == seq![s[i]] by {
        assert(!is_markup_char(s[i]));
    }
    lemma_flat_map_fixed(s, f);
}

/// Escaping adds no character that is neither in the text nor in an entity:
/// a character other than `&`, `#`, `;`, an ASCII letter or digit stays absent.
pub proof fn lemma_escape_keeps_absent(s: Seq<char>, c: char)
    requires
        !has_char(s, c),
        c != '&' && c != '#' && c != ';',
        !('a' <= c && c <= 'z'),
        !('0' <= c && c <= '9'),
    ensures
        !has_char(html_escape_spec(s), c),
    decreases s.len(),
{
    lemma_escape_is_flat_map(s);
    let f = |c: char| escape_char(c);
    if s.len() > 0 {
        assert(s =~= seq![s[0]] + s.skip(1));
        lemma_flat_map_concat(seq![s[0]], s.skip(1), f);
        lemma_flat_map_single(s[0], f);
        assert forall|j: int| 0 <= j < s.skip(1).len() implies s.skip(1)[j] != c by {
            assert(s.skip(1)[j] == s[j + 1]);
        }
        lemma_escape_keeps_absent(s.skip(1), c);
        lemma_escape_is_flat_map(s.skip(1));
        let head = escape_char(s[0]);
        assert(s[0] != c);
        assert forall|j: int| 0 <= j < head.len() implies head[j] != c by {
        }
        let all = head + flat_map_chars(s.skip(1), f);
        assert forall|j: int| 0 <= j < all.len() implies all[j] != c by {
            if j < head.len() {
                assert(all[j] == head[j]);
            } else {
                assert(all[j] == flat_map_chars(s.skip(1), f)[j - head.len()]);
            }
        }
    } else {
        assert(flat_map_chars(s, f) =~= Seq::<char>::empty());
    }
}

/// Whether a text neither starts nor ends with white space.
pub open spec fn no_outer_space(s: Seq<char>) -> bool {
    s.len() == 0 || (!char_is_whitespace(s[0]) && !char_is_whitespace(s.last()))
}

/// Trimming leaves a text without outer white space as it is.
pub proof fn lemma_trim_unchanged(s: Seq<char>)
    requires
        no_outer_space(s),
    ensures
        trim(s) == s,
{
    assert(trim_start(s) == s);
}

/// The first and last characters of an escaped text: the text's own, or the
/// `&` and `;` of an entity.
pub proof fn lemma_escape_ends(s: Seq<char>)
    requires
        s.len() > 0,
    ensures
        html_escape_spec(s).len() > 0,
        html_escape_spec(s)[0] == (if is_markup_char(s[0]) {
            '&'
        } else {
            s[0]
        }),
        html_escape_spec(s).last() == (if is_markup_char(s.last()) {
            ';'
        } else {
            s.last()
        }),
{
    let f = |c: char| escape_char(c);
    lemma_escape_is_flat_map(s);
    assert(s =~= seq![s[0]] + s.skip(1));
    lemma_flat_map_concat(seq![s[0]], s.skip(1), f);
    lemma_flat_map_single(s[0], f);
    assert(s =~= s.drop_last() + seq![s.last()]);
    lemma_flat_map_concat(s.drop_last(), seq![s.last()], f);
    lemma_flat_map_single(s.last(), f);
    let head = escape_char(s[0]);
    let tail = escape_char(s.last());
    assert(head.len() > 0);
    assert(tail.len() > 0);
    assert(flat_map_chars(s, f)[0] == head[0]);
    assert(flat_map_chars(s, f).last() == tail.last());
}

/// Escaping keeps a text free of outer white space.
pub proof fn lemma_escape_no_outer_space(s: Seq<char>)
    requires
        no_outer_space(s),
    ensures
        no_outer_space(html_escape_spec(s)),
{
    if s.len() > 0 {
        lemma_escape_ends(s);
    } else {
        lemma_escape_is_flat_map(s);
        assert(flat_map_chars(s, |c: char| escape_char(c)) =~= Seq::<char>::empty());
    }
}

/// Escaping leaves no `<`, `>`, `"` or `'` behind.
pub proof fn lemma_escape_drops(s: Seq<char>, c: char)
    requires
        c == '<' || c == '>' || c == '"' || c == '\'',
    ensures
        !has_char(html_escape_spec(s), c),
    decreases s.len(),
{
    lemma_escape_is_flat_map(s);
    let f = |x: char| escape_char(x);
    if s.len() > 0 {
        assert(s =~= seq![s[0]] + s.skip(1));
        lemma_flat_map_concat(seq![s[0]], s.skip(1), f);
        lemma_flat_map_single(s[0], f);
        lemma_escape_drops(s.skip(1), c);
        lemma_escape_is_flat_map(s.skip(1));
        let head = escape_char(s[0]);
        let all = head + flat_map_chars(s.skip(1), f);
        assert forall|j: int| 0 <= j < all.len() implies all[j] != c by {
            if j < head.len() {
                assert(all[j] == head[j]);
            } else {
                assert(all[j] == flat_map_chars(s.skip(1), f)[j - head.len()]);
            }
        }
    } else {
        assert(flat_map_chars(s, f) =~= Seq::<char>::empty());
    }
}

// ---------------------------------------------------------------------------
// tags
// ---------------------------------------------------------------------------

/// Splitting parts joined with a character gives the parts back, when no
/// part holds that character.
pub proof fn lemma_split_join(parts: Seq<Seq<char>>, c: char)
    requires
        parts.len() > 0,
        forall|i: int| 0 <= i < parts.len() ==> !has_char(#[trigger] parts[i], c),
    ensures
        split_char(join(parts, seq![c]), c) == parts,
    decreases parts.len(),
{
    let p0 = parts[0];
    if parts.len() == 1 {
        assert(!has_char(parts[0], c));
        lemma_index_of_from_is_first(p0, c, 0, p0.len() as int);
        assert(split_char(p0, c) == seq![p0]);
        assert(seq![p0] =~= parts);
    } else {
        let rest = join(parts.skip(1), seq![c]);
        let whole = p0 + seq![c] + rest;
        assert(join(parts, seq![c]) == whole);
        assert(!has_char(parts[0], c));
        assert forall|j: int| 0 <= j < p0.len() implies whole[j] != c by {
            assert(whole[j] == p0[j]);
        }
        assert(whole[p0.len() as int] == c);
        lemma_index_of_from_is_first(whole, c, 0, p0.len() as int);
        assert(whole.take(p0.len() as int) =~= p0);
        assert(whole.skip(p0.len() as int + 1) =~= rest);
        assert forall|i: int| 0 <= i < parts.skip(1).len() implies !has_char(
            #[trigger] parts.skip(1)[i],
            c,
        ) by {
            assert(parts.skip(1)[i] == parts[i + 1]);
        }
        lemma_split_join(parts.skip(1), c);
        assert(split_char(whole, c) == seq![p0] + split_char(rest, c));
        assert(seq![p0] + parts.skip(1) =~= parts);
    }
}

/// Cleaning tags that are trimmed and not empty keeps them all.
pub proof fn lemma_clean_tags_unchanged(parts: Seq<Seq<char>>)
    requires
        forall|i: int|
            0 <= i < parts.len() ==> #[trigger] parts[i].len() > 0 && no_outer_space(parts[i]),
    ensures
        clean_tags(parts) == parts,
    decreases parts.len(),
{
    if parts.len() > 0 {
        assert(parts[0].len() > 0 && no_outer_space(parts[0]));
        lemma_trim_unchanged(parts[0]);
        assert forall|i: int| 0 <= i < parts.skip(1).len() implies #[trigger] parts.skip(1)[i].len()
            > 0 && no_outer_space(parts.skip(1)[i]) by {
            assert(parts.skip(1)[i] == parts[i + 1]);
        }
        lemma_clean_tags_unchanged(parts.skip(1));
        assert(seq![trim(parts[0])] + parts.skip(1) =~= parts);
    }
}

// ---------------------------------------------------------------------------
// the attribute scanner
// ---------------------------------------------------------------------------

/// The scan continued from `st` over `s`.
pub open spec fn attr_fold(st: AttrScan, s: Seq<char>) -> AttrScan
    decreases s.len(),
{
    if s.len() == 0 {
        st
    } else {
        attr_step(attr_fold(st, s.drop_last()), s.last())
    }
}

/// Scanning `a + b` is scanning `a`, then going on over `b`.
pub proof fn lemma_attr_scan_concat(a: Seq<char>, b: Seq<char>)
    ensures
        attr_scan(a + b) == attr_fold(attr_scan(a), b),
    decreases b.len(),
{
    if b.len() == 0 {
        assert(a + b =~= a);
    } else {
        assert((a + b).drop_last() =~= a + b.drop_last());
        assert((a + b).last() == b.last());
        lemma_attr_scan_concat(a, b.drop_last());
    }
}

/// Going on over `a + b` is going on over `a`, then over `b`.
pub proof fn lemma_attr_fold_concat(st: AttrScan, a: Seq<char>, b: Seq<char>)
    ensures
        attr_fold(st, a + b) == attr_fold(attr_fold(st, a), b),
    decreases b.len(),
{
    if b.len() == 0 {
        assert(a + b =~= a);
    } else {
        assert((a + b).drop_last() =~= a + b.drop_last());
        assert((a + b).last() == b.last());
        lemma_attr_fold_concat(st, a, b.drop_last());
    }
}

/// Inside quotes, a text without quotes goes into the value.
pub proof fn lemma_fold_in_quotes(st: AttrScan, q: Seq<char>)
    requires
        st.in_quotes,
        !has_char(q, '"'),
    ensures
        attr_fold(st, q) == (AttrScan { value: st.value + q, ..st }),
    decreases q.len(),
{
    if q.len() == 0 {
        assert(st.value + q =~= st.value);
    } else {
        assert(q.last() == q[q.len() - 1]);
        assert forall|j: int| 0 <= j < q.drop_last().len() implies q.drop_last()[j] != '"' by {
            assert(q.drop_last()[j] == q[j]);
        }
        lemma_fold_in_quotes(st, q.drop_last());
        assert(st.value + q.drop_last() + seq![q.last()] =~= st.value + q);
        assert((st.value + q.drop_last()).push(q.last()) =~= st.value + q);
    }
}

/// A character that an attribute's name may hold: an upper-case ASCII letter
/// or `_`.
pub open spec fn name_char(c: char) -> bool {
    ('A' <= c && c <= 'Z') || c == '_'
}

/// Outside quotes and values, name characters go into the key.
pub proof fn lemma_fold_name(st: AttrScan, k: Seq<char>)
    requires
        !st.in_quotes,
        !st.reading_value,
        forall|i: int| 0 <= i < k.len() ==> name_char(#[trigger] k[i]),
    ensures
        attr_fold(st, k) == (AttrScan { key: st.key + k, ..st }),
    decreases k.len(),
{
    if k.len() == 0 {
        assert(st.key + k =~= st.key);
    } else {
        assert(name_char(k[k.len() - 1]));
        lemma_fold_name(st, k.drop_last());
        assert((st.key + k.drop_last()).push(k.last()) =~= st.key + k);
    }
}

/// The scan state between attributes, with the stored attributes `stored`
/// and a name being read, `key`.
pub open spec fn between_attributes(stored: Seq<(Seq<char>, Seq<char>)>, key: Seq<char>) -> AttrScan {
    AttrScan { stored, key, value: seq![], in_quotes: false, reading_value: false }
}

/// The text of one attribute: a space, the name, `="`, the value and `"`.
pub open spec fn attribute_text(name: Seq<char>, value: Seq<char>) -> Seq<char> {
    seq![' '] + name + seq!['=', '"'] + value + seq!['"']
}

/// Scanning one attribute between attributes stores it.
pub proof fn lemma_fold_attribute(
    stored: Seq<(Seq<char>, Seq<char>)>,
    key: Seq<char>,
    name: Seq<char>,
    value: Seq<char>,
)
    requires
        forall|i: int| 0 <= i < name.len() ==> name_char(#[trigger] name[i]),
        !has_char(value, '"'),
    ensures
        attr_fold(between_attributes(stored, key), attribute_text(name, value))
            == between_attributes(stored.push((name, value)), seq![]),
{
    let st0 = between_attributes(stored, key);
    let st1 = attr_fold(st0, seq![' ']);
    assert(seq![' '].drop_last() =~= Seq::<char>::empty());
    assert(attr_fold(st0, Seq::<char>::empty()) == st0);
    assert(st1 == attr_step(attr_fold(st0, seq![' '].drop_last()), seq![' '].last()));
    assert(st1 == attr_step(st0, ' '));
    assert(st1 == between_attributes(stored, seq![]));
    lemma_fold_name(st1, name);
    let st2 = attr_fold(st1, name);
    assert(st2 == between_attributes(stored, seq![] + name));
    assert(seq![] + name =~= name);
    let eq_quote = seq!['=', '"'];
    assert(eq_quote.drop_last() =~= seq!['=']);
    assert(seq!['='].drop_last() =~= Seq::<char>::empty());
    let st3 = attr_fold(st2, eq_quote);
    assert(attr_fold(st2, Seq::<char>::empty()) == st2);
    assert(attr_fold(st2, seq!['=']) == attr_step(attr_fold(st2, seq!['='].drop_last()), '='));
    assert(attr_fold(st2, seq!['=']) == attr_step(st2, '='));
    assert(st3 == attr_step(attr_fold(st2, eq_quote.drop_last()), eq_quote.last()));
    assert(st3 == AttrScan { stored, key: name, value: seq![], in_quotes: true, reading_value: true });
    lemma_fold_in_quotes(st3, value);
    let st4 = attr_fold(st3, value);
    assert(seq![] + value =~= value);
    let st5 = attr_fold(st4, seq!['"']);
    assert(seq!['"'].drop_last() =~= Seq::<char>::empty());
    assert(attr_fold(st4, Seq::<char>::empty()) == st4);
    assert(st5 == attr_step(attr_fold(st4, seq!['"'].drop_last()), '"'));
    assert(st5 == between_attributes(stored.push((name, value)), seq![]));
    lemma_attr_fold_concat(st0, seq![' '], name);
    lemma_attr_fold_concat(st0, seq![' '] + name, eq_quote);
    lemma_attr_fold_concat(st0, seq![' '] + name + eq_quote, value);
    lemma_attr_fold_concat(st0, seq![' '] + name + eq_quote + value, seq!['"']);
}

// ---------------------------------------------------------------------------
// the written entry line
// ---------------------------------------------------------------------------

/// The `ADD_DATE` attribute written for a bookmark, as an attribute text.
pub open spec fn date_part(b: Bookmark) -> Seq<char> {
    match b.date_added {
        Some(d) => match rfc3339_unix_seconds(d@) {
            Some(ts) => attribute_text(lit_add_date_upper(), decimal_of(ts as int)),
            None => seq![],
        },
        None => seq![],
    }
}

/// The `TAGS` attribute written for a bookmark, as an attribute text.
pub open spec fn tags_part(b: Bookmark) -> Seq<char> {
    if b.tag_names@.len() > 0 {
        attribute_text(lit_tags_upper(), html_escape_spec(join(tags_view(b), seq![','])))
    } else {
        seq![]
    }
}

/// The opening anchor tag written for a bookmark, without its `>`.
pub open spec fn anchor_text(b: Bookmark) -> Seq<char> {
    seq!['<', 'A'] + attribute_text(lit_href_upper(), b.url@) + date_part(b) + tags_part(b)
}

/// The entry line written for a bookmark, without its indentation.
pub open spec fn entry_line(b: Bookmark) -> Seq<char> {
    seq!['<', 'D', 'T', '>'] + anchor_text(b) + seq!['>'] + html_escape_spec(b.title@) + seq![
        '<',
        '/',
        'A',
        '>',
    ]
}

/// A tag that survives a write and a read: not empty, without outer white
/// space, without markup characters, commas or line feeds.
pub open spec fn tag_exportable(t: Seq<char>) -> bool {
    &&& t.len() > 0
    &&& no_outer_space(t)
    &&& markup_free(t)
    &&& !has_char(t, ',')
    &&& !has_char(t, '\n')
}

/// A bookmark that survives a write and a read: its URL holds no markup
/// characters (the URL is escaped when written but read as it stands) and
/// no line feed; its title and description hold no line feed and no outer
/// white space (both are trimmed when read); its tags survive.
pub open spec fn exportable(b: Bookmark) -> bool {
    &&& markup_free(b.url@)
    &&& !has_char(b.url@, '\n')
    &&& !has_char(b.title@, '\n')
    &&& no_outer_space(b.title@)
    &&& !has_char(b.description@, '\n')
    &&& no_outer_space(b.description@)
    &&& forall|i: int| 0 <= i < b.tag_names@.len() ==> tag_exportable(#[trigger] b.tag_names@[i]@)
}

/// The lines written for a bookmark: the indented entry line, then the
/// description line, if any.
pub proof fn lemma_entry_html_shape(b: Bookmark)
    requires
        markup_free(b.url@),
    ensures
        entry_html(b) == seq![' ', ' ', ' ', ' '] + entry_line(b) + seq!['\n'] + description_line(b),
{
    reveal_strlit("    <DT><A HREF=\"");
    reveal_strlit(" ADD_DATE=\"");
    reveal_strlit(" TAGS=\"");
    reveal_strlit("</A>\n");
    lemma_escape_markup_free(b.url@);
    assert(add_date_attribute(b) =~= date_part(b));
    assert(tags_attribute(b) =~= tags_part(b));
    assert(entry_html(b) =~= seq![' ', ' ', ' ', ' '] + entry_line(b) + seq!['\n']
        + description_line(b));
}

/// The attributes stored when the anchor of a bookmark is scanned: `HREF`,
/// then `ADD_DATE` when a date was written, then `TAGS` when tags were.
pub open spec fn anchor_pairs(b: Bookmark) -> Seq<(Seq<char>, Seq<char>)> {
    let href = seq![(lit_href_upper(), b.url@)];
    let with_date = match b.date_added {
        Some(d) => match rfc3339_unix_seconds(d@) {
            Some(ts) => href.push((lit_add_date_upper(), decimal_of(ts as int))),
            None => href,
        },
        None => href,
    };
    if b.tag_names@.len() > 0 {
        with_date.push((lit_tags_upper(), html_escape_spec(join(tags_view(b), seq![',']))))
    } else {
        with_date
    }
}

/// A decimal text holds only digits and a minus sign.
pub proof fn lemma_decimal_chars(x: int)
    ensures
        forall|i: int|
            0 <= i < decimal_of(x).len() ==> is_digit(#[trigger] decimal_of(x)[i])
                || decimal_of(x)[i] == '-',
{
    if x < 0 {
        lemma_nat_digits((-x) as nat);
        let d = decimal_of(x);
        assert forall|i: int| 0 <= i < d.len() implies is_digit(#[trigger] d[i]) || d[i] == '-' by {
            if i > 0 {
                assert(d[i] == crate::numbers::nat_digits((-x) as nat)[i - 1]);
            }
        }
    } else {
        lemma_nat_digits(x as nat);
    }
}

/// The joined tags of an exportable bookmark, escaped, hold no quote and no
/// `>`.
proof fn lemma_tags_value_clean(b: Bookmark)
    ensures
        !has_char(html_escape_spec(join(tags_view(b), seq![','])), '"'),
        !has_char(html_escape_spec(join(tags_view(b), seq![','])), '>'),
{
    lemma_escape_drops(join(tags_view(b), seq![',']), '"');
    lemma_escape_drops(join(tags_view(b), seq![',']), '>');
}

/// Scanning the anchor of an exportable bookmark stores its attributes.
pub proof fn lemma_anchor_scan(b: Bookmark)
    requires
        exportable(b),
    ensures
        attrs_of(anchor_text(b)) == anchor_pairs(b),
{
    let la = seq!['<', 'A'];
    assert(la.drop_last() =~= seq!['<']);
    assert(seq!['<'].drop_last() =~= Seq::<char>::empty());
    assert(attr_scan(Seq::<char>::empty()) == attr_scan_start());
    assert(attr_scan(seq!['<']) == attr_step(attr_scan(seq!['<'].drop_last()), seq!['<'].last()));
    assert(attr_scan(seq!['<']) == attr_step(attr_scan_start(), '<'));
    assert(attr_scan(la) == attr_step(attr_scan(seq!['<']), 'A'));
    assert(attr_scan(la) == between_attributes(seq![], seq!['A']));
    let href = attribute_text(lit_href_upper(), b.url@);
    let dp = date_part(b);
    let tp = tags_part(b);
    let rest = href + (dp + tp);
    assert(anchor_text(b) =~= la + rest);
    lemma_attr_scan_concat(la, rest);
    let st0 = between_attributes(seq![], seq!['A']);
    lemma_attr_fold_concat(st0, href, dp + tp);
    assert(attr_scan(anchor_text(b)) == attr_fold(st0, rest));
    assert forall|i: int| 0 <= i < lit_href_upper().len() implies name_char(
        #[trigger] lit_href_upper()[i],
    ) by {}
    assert(!has_char(b.url@, '"')) by {
        if has_char(b.url@, '"') {
            let i = choose|i: int| 0 <= i < b.url@.len() && b.url@[i] == '"';
            assert(!is_markup_char(b.url@[i]));
        }
    }
    lemma_fold_attribute(seq![], seq!['A'], lit_href_upper(), b.url@);
    let pairs1 = seq![(lit_href_upper(), b.url@)];
    assert(Seq::<(Seq<char>, Seq<char>)>::empty().push((lit_href_upper(), b.url@)) =~= pairs1);
    let st1 = between_attributes(pairs1, seq![]);
    lemma_attr_fold_concat(st1, dp, tp);
    let pairs2 = match b.date_added {
        Some(d) => match rfc3339_unix_seconds(d@) {
            Some(ts) => pairs1.push((lit_add_date_upper(), decimal_of(ts as int))),
            None => pairs1,
        },
        None => pairs1,
    };
    let st2 = between_attributes(pairs2, seq![]);
    match b.date_added {
        Some(d) => match rfc3339_unix_seconds(d@) {
            Some(ts) => {
                lemma_decimal_chars(ts as int);
                assert forall|i: int| 0 <= i < lit_add_date_upper().len() implies name_char(
                    #[trigger] lit_add_date_upper()[i],
                ) by {}
                lemma_fold_attribute(pairs1, seq![], lit_add_date_upper(), decimal_of(ts as int));
            },
            None => {
                assert(attr_fold(st1, dp) == st1);
            },
        },
        None => {
            assert(attr_fold(st1, dp) == st1);
        },
    }
    assert(attr_fold(st1, dp) == st2);
    if b.tag_names@.len() > 0 {
        lemma_tags_value_clean(b);
        assert forall|i: int| 0 <= i < lit_tags_upper().len() implies name_char(
            #[trigger] lit_tags_upper()[i],
        ) by {}
        lemma_fold_attribute(
            pairs2,
            seq![],
            lit_tags_upper(),
            html_escape_spec(join(tags_view(b), seq![','])),
        );
    } else {
        assert(attr_fold(st2, tp) == st2);
    }
    assert(attr_fold(st0, href) == st1);
    assert(attr_fold(st1, dp + tp) == attr_fold(st2, tp));
    assert(attr_scan(anchor_text(b)) == between_attributes(anchor_pairs(b), seq![]));
}

/// The date a written and read bookmark ends up with: its date read as RFC
/// 3339 and written back as `%Y-%m-%dT%H:%M:%SZ`, when both succeed.
pub open spec fn written_date(b: Bookmark) -> Option<Seq<char>> {
    match b.date_added {
        Some(d) => match rfc3339_unix_seconds(d@) {
            Some(ts) => utc_timestamp_text(ts, iso_seconds_pattern()),
            None => None,
        },
        None => None,
    }
}

/// Whether a text holds the character, position by position.
proof fn lemma_no_char_concat(a: Seq<char>, b: Seq<char>, c: char)
    requires
        !has_char(a, c),
        !has_char(b, c),
    ensures
        !has_char(a + b, c),
{
    assert forall|i: int| 0 <= i < (a + b).len() implies (a + b)[i] != c by {
        if i < a.len() {
            assert((a + b)[i] == a[i]);
        } else {
            assert((a + b)[i] == b[i - a.len()]);
        }
    }
}

/// Joined parts without markup characters, with a separator that is none,
/// hold none either.
proof fn lemma_join_markup_free(parts: Seq<Seq<char>>, sep: Seq<char>)
    requires
        markup_free(sep),
        forall|i: int| 0 <= i < parts.len() ==> markup_free(#[trigger] parts[i]),
    ensures
        markup_free(join(parts, sep)),
    decreases parts.len(),
{
    if parts.len() > 1 {
        assert forall|i: int| 0 <= i < parts.skip(1).len() implies markup_free(
            #[trigger] parts.skip(1)[i],
        ) by {
            assert(parts.skip(1)[i] == parts[i + 1]);
        }
        lemma_join_markup_free(parts.skip(1), sep);
        let j = parts[0] + sep + join(parts.skip(1), sep);
        assert(markup_free(parts[0]));
        assert forall|i: int| 0 <= i < j.len() implies !is_markup_char(#[trigger] j[i]) by {
            if i < parts[0].len() {
                assert(j[i] == parts[0][i]);
            } else if i < parts[0].len() + sep.len() {
                assert(j[i] == sep[i - parts[0].len()]);
            } else {
                assert(j[i] == join(parts.skip(1), sep)[i - parts[0].len() - sep.len()]);
            }
        }
    } else if parts.len() == 1 {
        assert(markup_free(parts[0]));
    }
}

/// The anchor of an exportable bookmark holds no `>`.
proof fn lemma_anchor_no_gt(b: Bookmark)
    requires
        exportable(b),
    ensures
        !has_char(anchor_text(b), '>'),
{
    let href = attribute_text(lit_href_upper(), b.url@);
    assert(!has_char(b.url@, '>')) by {
        if has_char(b.url@, '>') {
            let i = choose|i: int| 0 <= i < b.url@.len() && b.url@[i] == '>';
            assert(!is_markup_char(b.url@[i]));
        }
    }
    assert(!has_char(seq!['<', 'A'], '>'));
    assert(!has_char(seq![' '] + lit_href_upper() + seq!['=', '"'], '>'));
    assert(!has_char(seq!['"'], '>'));
    lemma_no_char_concat(seq![' '] + lit_href_upper() + seq!['=', '"'], b.url@, '>');
    lemma_no_char_concat(seq![' '] + lit_href_upper() + seq!['=', '"'] + b.url@, seq!['"'], '>');
    let dp = date_part(b);
    assert(!has_char(dp, '>')) by {
        match b.date_added {
            Some(d) => match rfc3339_unix_seconds(d@) {
                Some(ts) => {
                    lemma_decimal_chars(ts as int);
                    let v = decimal_of(ts as int);
                    assert(!has_char(v, '>')) by {
                        if has_char(v, '>') {
                            let i = choose|i: int| 0 <= i < v.len() && v[i] == '>';
                            assert(is_digit(v[i]) || v[i] == '-');
                        }
                    }
                    assert(!has_char(seq![' '] + lit_add_date_upper() + seq!['=', '"'], '>'));
                    lemma_no_char_concat(seq![' '] + lit_add_date_upper() + seq!['=', '"'], v, '>');
                    lemma_no_char_concat(
                        seq![' '] + lit_add_date_upper() + seq!['=', '"'] + v,
                        seq!['"'],
                        '>',
                    );
                },
                None => {},
            },
            None => {},
        }
    }
    let tp = tags_part(b);
    assert(!has_char(tp, '>')) by {
        if b.tag_names@.len() > 0 {
            lemma_tags_value_clean(b);
            let v = html_escape_spec(join(tags_view(b), seq![',']));
            assert(!has_char(seq![' '] + lit_tags_upper() + seq!['=', '"'], '>'));
            lemma_no_char_concat(seq![' '] + lit_tags_upper() + seq!['=', '"'], v, '>');
            lemma_no_char_concat(seq![' '] + lit_tags_upper() + seq!['=', '"'] + v, seq!['"'], '>');
        }
    }
    lemma_no_char_concat(seq!['<', 'A'], href, '>');
    lemma_no_char_concat(seq!['<', 'A'] + href, dp, '>');
    lemma_no_char_concat(seq!['<', 'A'] + href + dp, tp, '>');
}

/// Reading the (trimmed) entry line of an exportable bookmark gives its URL,
/// title, tags and date, and the description that the following line holds.
pub proof fn lemma_entry_outcome(b: Bookmark, next: Option<Seq<char>>)
    requires
        exportable(b),
    ensures
        is_entry_line(entry_line(b)),
        entry_outcome(entry_line(b), next) == EntryOutcome::Parsed(
            ImportedEntry {
                url: b.url@,
                title: b.title@,
                description: match next {
                    Some(n) => description_of(n),
                    None => seq![],
                },
                tags: tags_view(b),
                date_added: written_date(b),
            },
        ),
{
    let l = entry_line(b);
    let a = anchor_text(b);
    let n = a.len() as int;
    let et = html_escape_spec(b.title@);
    assert(l =~= seq!['<', 'D', 'T', '>'] + a + seq!['>'] + et + seq!['<', '/', 'A', '>']);
    // the line starts an entry
    assert(l.subrange(0, 12) =~= lit_entry_upper());
    // the anchor starts at 4
    let pa = lit_anchor_upper();
    assert(matches_at(l, pa, 4)) by {
        assert(l.subrange(4, 7) =~= pa);
    }
    assert forall|j: int| 0 <= j < 4 implies !matches_at(l, pa, j) by {
        assert(l[j + 1] != pa[1] || l[j] != pa[0]);
        if matches_at(l, pa, j) {
            assert(l.subrange(j, j + 3)[0] == l[j]);
            assert(l.subrange(j, j + 3)[1] == l[j + 1]);
        }
    }
    lemma_find_first(l, pa, 0, 4);
    assert(anchor_start_spec(l) == Some(4int));
    // the first `>` after it ends the anchor
    lemma_anchor_no_gt(b);
    let rest = l.skip(4);
    assert(rest =~= a + seq!['>'] + et + seq!['<', '/', 'A', '>']);
    assert(matches_at(rest, lit_gt(), n)) by {
        assert(rest.subrange(n, n + 1) =~= lit_gt());
    }
    assert forall|j: int| 0 <= j < n implies !matches_at(rest, lit_gt(), j) by {
        assert(rest[j] == a[j]);
        if matches_at(rest, lit_gt(), j) {
            assert(rest.subrange(j, j + 1)[0] == rest[j]);
        }
    }
    lemma_find_first(rest, lit_gt(), 0, n);
    assert(l.subrange(4, 4 + n) =~= a);
    lemma_anchor_scan(b);
    assert(anchor_attributes_spec(l) == Ok::<Seq<(Seq<char>, Seq<char>)>, crate::utils::bookmark_parser::netscape::ParseError>(anchor_pairs(b)));
    // the stored attributes
    let pairs = anchor_pairs(b);
    assert(attr_lookup(pairs, lit_href_upper()) == Some(b.url@)) by {
        let p1 = seq![(lit_href_upper(), b.url@)];
        assert(p1.drop_last() =~= Seq::<(Seq<char>, Seq<char>)>::empty());
        assert(attr_lookup(p1, lit_href_upper()) == Some(b.url@));
        assert(lit_tags_upper() != lit_href_upper()) by {
            assert(lit_tags_upper().len() == lit_href_upper().len());
            assert(lit_tags_upper()[0] != lit_href_upper()[0]);
        }
        assert(lit_add_date_upper() != lit_href_upper()) by {
            assert(lit_add_date_upper().len() != lit_href_upper().len());
        }
        let p2 = match b.date_added {
            Some(d) => match rfc3339_unix_seconds(d@) {
                Some(ts) => p1.push((lit_add_date_upper(), decimal_of(ts as int))),
                None => p1,
            },
            None => p1,
        };
        assert(p2.push((lit_tags_upper(), html_escape_spec(join(tags_view(b), seq![','])))).drop_last() =~= p2);
        assert(p1.push((lit_add_date_upper(), seq![])).drop_last() =~= p1);
        match b.date_added {
            Some(d) => match rfc3339_unix_seconds(d@) {
                Some(ts) => {
                    assert(p2.drop_last() =~= p1);
                },
                None => {},
            },
            None => {},
        }
        assert(attr_lookup(p2, lit_href_upper()) == Some(b.url@));
    }
    assert(attr_either(pairs, lit_href_upper(), lit_href_lower()) == Some(b.url@));
    // the title
    let len = l.len() as int;
    let pc = lit_close_upper();
    assert(matches_at(l, pc, len - 4)) by {
        assert(l.subrange(len - 4, len) =~= pc);
    }
    assert forall|j: int| len - 4 < j < len + 1 implies !matches_at(l, pc, j) by {}
    lemma_rfind_last(l, pc, len - 4, len + 1);
    assert(rfind(l, pc) == Some(len - 4));
    assert(l.subrange(n + 5, len - 4) =~= et);
    lemma_escape_no_outer_space(b.title@);
    lemma_trim_unchanged(et);
    lemma_unescape_escape(b.title@);
    assert(anchor_title_spec(l) == Some(Ok::<Seq<char>, crate::utils::bookmark_parser::netscape::ParseError>(b.title@)));
    // tags and date
    lemma_entry_tags(b);
    lemma_entry_date(b);
}

/// The attribute names differ from one another, in either case.
proof fn lemma_names_differ()
    ensures
        lit_tags_upper() != lit_href_upper(),
        lit_add_date_upper() != lit_href_upper(),
        lit_add_date_upper() != lit_tags_upper(),
        lit_tags_lower() != lit_href_upper(),
        lit_tags_lower() != lit_add_date_upper(),
        lit_tags_lower() != lit_tags_upper(),
        lit_add_date_lower() != lit_href_upper(),
        lit_add_date_lower() != lit_add_date_upper(),
        lit_add_date_lower() != lit_tags_upper(),
{
    assert(lit_tags_upper()[0] != lit_href_upper()[0]);
    assert(lit_add_date_upper().len() != lit_href_upper().len());
    assert(lit_add_date_upper().len() != lit_tags_upper().len());
    assert(lit_tags_lower()[0] != lit_href_upper()[0]);
    assert(lit_tags_lower().len() != lit_add_date_upper().len());
    assert(lit_tags_lower()[0] != lit_tags_upper()[0]);
    assert(lit_add_date_lower().len() != lit_href_upper().len());
    assert(lit_add_date_lower()[0] != lit_add_date_upper()[0]);
    assert(lit_add_date_lower().len() != lit_tags_upper().len());
}

/// The attributes stored before the tags: `HREF`, and `ADD_DATE` when a
/// date was written.
pub open spec fn pairs_before_tags(b: Bookmark) -> Seq<(Seq<char>, Seq<char>)> {
    let href = seq![(lit_href_upper(), b.url@)];
    match b.date_added {
        Some(d) => match rfc3339_unix_seconds(d@) {
            Some(ts) => href.push((lit_add_date_upper(), decimal_of(ts as int))),
            None => href,
        },
        None => href,
    }
}

/// Looking up a name that none of the pairs before the tags holds finds
/// nothing, and `ADD_DATE` finds the written date.
proof fn lemma_lookup_before_tags(b: Bookmark, key: Seq<char>)
    requires
        key != lit_href_upper(),
    ensures
        key != lit_add_date_upper() ==> attr_lookup(pairs_before_tags(b), key) is None,
        key == lit_add_date_upper() ==> attr_lookup(pairs_before_tags(b), key) == match b.date_added {
            Some(d) => match rfc3339_unix_seconds(d@) {
                Some(ts) => Some(decimal_of(ts as int)),
                None => None,
            },
            None => None,
        },
{
    let href = seq![(lit_href_upper(), b.url@)];
    assert(href.drop_last() =~= Seq::<(Seq<char>, Seq<char>)>::empty());
    assert(attr_lookup(Seq::<(Seq<char>, Seq<char>)>::empty(), key) is None);
    assert(href.last().0 == lit_href_upper());
    assert(attr_lookup(href, key) == attr_lookup(href.drop_last(), key));
    assert(attr_lookup(href, key) is None);
    match b.date_added {
        Some(d) => match rfc3339_unix_seconds(d@) {
            Some(ts) => {
                let p = href.push((lit_add_date_upper(), decimal_of(ts as int)));
                assert(p.drop_last() =~= href);
            },
            None => {},
        },
        None => {},
    }
}

/// The tags read from the anchor of an exportable bookmark are its tags.
proof fn lemma_entry_tags(b: Bookmark)
    requires
        exportable(b),
    ensures
        entry_tags(anchor_pairs(b)) == tags_view(b),
{
    lemma_names_differ();
    let before = pairs_before_tags(b);
    let tv = tags_view(b);
    if b.tag_names@.len() > 0 {
        let joined = join(tv, seq![',']);
        let pairs = before.push((lit_tags_upper(), html_escape_spec(joined)));
        assert(anchor_pairs(b) == pairs);
        assert(pairs.drop_last() =~= before);
        assert(attr_lookup(pairs, lit_tags_upper()) == Some(html_escape_spec(joined)));
        assert forall|i: int| 0 <= i < tv.len() implies markup_free(#[trigger] tv[i]) by {
            assert(tv[i] == b.tag_names@[i]@);
            assert(tag_exportable(b.tag_names@[i]@));
        }
        assert(markup_free(seq![','])) by {
            assert(seq![','][0] == ',');
        }
        lemma_join_markup_free(tv, seq![',']);
        lemma_escape_markup_free(joined);
        assert forall|i: int| 0 <= i < tv.len() implies !has_char(#[trigger] tv[i], ',') by {
            assert(tag_exportable(b.tag_names@[i]@));
        }
        lemma_split_join(tv, ',');
        assert forall|i: int| 0 <= i < tv.len() implies #[trigger] tv[i].len() > 0 && no_outer_space(
            tv[i],
        ) by {
            assert(tag_exportable(b.tag_names@[i]@));
        }
        lemma_clean_tags_unchanged(tv);
    } else {
        assert(anchor_pairs(b) == before);
        lemma_lookup_before_tags(b, lit_tags_upper());
        lemma_lookup_before_tags(b, lit_tags_lower());
        assert(tv =~= Seq::<Seq<char>>::empty());
    }
}

/// The date read from the anchor of a bookmark is its written date.
proof fn lemma_entry_date(b: Bookmark)
    ensures
        entry_date(anchor_pairs(b)) == written_date(b),
{
    lemma_names_differ();
    let before = pairs_before_tags(b);
    let pairs = anchor_pairs(b);
    lemma_lookup_before_tags(b, lit_add_date_upper());
    lemma_lookup_before_tags(b, lit_add_date_lower());
    if b.tag_names@.len() > 0 {
        let tp = (lit_tags_upper(), html_escape_spec(join(tags_view(b), seq![','])));
        assert(pairs == before.push(tp));
        assert(pairs.drop_last() =~= before);
        assert(attr_lookup(pairs, lit_add_date_upper()) == attr_lookup(before, lit_add_date_upper()));
        assert(attr_lookup(pairs, lit_add_date_lower()) == attr_lookup(before, lit_add_date_lower()));
    } else {
        assert(pairs == before);
    }
    match b.date_added {
        Some(d) => match rfc3339_unix_seconds(d@) {
            Some(ts) => {
                crate::numbers::lemma_parse_decimal(ts);
            },
            None => {},
        },
        None => {},
    }
}

// ---------------------------------------------------------------------------
// the lines of a written document
// ---------------------------------------------------------------------------

pub open spec fn header_line_doctype() -> Seq<char> {
    "<!DOCTYPE NETSCAPE-Bookmark-file-1>"@
}

pub open spec fn header_line_meta() -> Seq<char> {
    "<META HTTP-EQUIV=\"Content-Type\" CONTENT=\"text/html; charset=UTF-8\">"@
}

pub open spec fn header_line_title() -> Seq<char> {
    "<TITLE>Bookmarks</TITLE>"@
}

pub open spec fn header_line_h1() -> Seq<char> {
    "<H1>Bookmarks</H1>"@
}

pub open spec fn header_line_list() -> Seq<char> {
    "<DL><p>"@
}

pub open spec fn footer_line() -> Seq<char> {
    "</DL><p>"@
}

/// The lines of the written header.
pub open spec fn header_lines() -> Seq<Seq<char>> {
    seq![
        header_line_doctype(),
        header_line_meta(),
        header_line_title(),
        header_line_h1(),
        header_line_list(),
    ]
}

/// Four spaces of indentation.
pub open spec fn indent() -> Seq<char> {
    seq![' ', ' ', ' ', ' ']
}

/// The description line written for a bookmark, without its line feed.
pub open spec fn description_content(b: Bookmark) -> Seq<char> {
    indent() + seq!['<', 'D', 'D', '>'] + html_escape_spec(b.description@)
}

/// The lines written for one bookmark.
pub open spec fn bookmark_lines(b: Bookmark) -> Seq<Seq<char>> {
    seq![indent() + entry_line(b)] + if b.description@.len() > 0 {
        seq![description_content(b)]
    } else {
        seq![]
    }
}

/// The lines written for a list of bookmarks.
pub open spec fn entries_lines(bs: Seq<Bookmark>) -> Seq<Seq<char>>
    decreases bs.len(),
{
    if bs.len() == 0 {
        seq![]
    } else {
        entries_lines(bs.drop_last()) + bookmark_lines(bs.last())
    }
}

/// The lines written for a list of bookmarks, taken from the front.
pub proof fn lemma_entries_lines_front(b: Bookmark, rest: Seq<Bookmark>)
    ensures
        entries_lines(seq![b] + rest) == bookmark_lines(b) + entries_lines(rest),
    decreases rest.len(),
{
    if rest.len() == 0 {
        assert(seq![b] + rest =~= seq![b]);
        assert(seq![b].drop_last() =~= Seq::<Bookmark>::empty());
        assert(entries_lines(seq![b]) == entries_lines(Seq::<Bookmark>::empty()) + bookmark_lines(b));
        assert(entries_lines(Seq::<Bookmark>::empty()) + bookmark_lines(b) =~= bookmark_lines(b));
        assert(bookmark_lines(b) + entries_lines(rest) =~= bookmark_lines(b));
    } else {
        assert((seq![b] + rest).drop_last() =~= seq![b] + rest.drop_last());
        assert((seq![b] + rest).last() == rest.last());
        lemma_entries_lines_front(b, rest.drop_last());
        assert(bookmark_lines(b) + entries_lines(rest.drop_last()) + bookmark_lines(rest.last())
            =~= bookmark_lines(b) + (entries_lines(rest.drop_last()) + bookmark_lines(rest.last())));
    }
}

/// The written header is the five header lines.
pub proof fn lemma_header_lines()
    ensures
        lines_of(header_text()) == header_lines(),
        header_text().last() == '\n',
{
    reveal_strlit("<!DOCTYPE NETSCAPE-Bookmark-file-1>\n<META HTTP-EQUIV=\"Content-Type\" CONTENT=\"text/html; charset=UTF-8\">\n<TITLE>Bookmarks</TITLE>\n<H1>Bookmarks</H1>\n<DL><p>\n");
    reveal_strlit("<!DOCTYPE NETSCAPE-Bookmark-file-1>");
    reveal_strlit("<META HTTP-EQUIV=\"Content-Type\" CONTENT=\"text/html; charset=UTF-8\">");
    reveal_strlit("<TITLE>Bookmarks</TITLE>");
    reveal_strlit("<H1>Bookmarks</H1>");
    reveal_strlit("<DL><p>");
    let nl = seq!['\n'];
    let a = header_line_doctype() + nl;
    let b = header_line_meta() + nl;
    let c = header_line_title() + nl;
    let d = header_line_h1() + nl;
    let e = header_line_list() + nl;
    assert(header_text() =~= a + (b + (c + (d + e))));
    lemma_one_line(header_line_doctype());
    lemma_one_line(header_line_meta());
    lemma_one_line(header_line_title());
    lemma_one_line(header_line_h1());
    lemma_one_line(header_line_list());
    lemma_lines_concat(d, e);
    lemma_lines_concat(c, d + e);
    lemma_lines_concat(b, c + (d + e));
    lemma_lines_concat(a, b + (c + (d + e)));
    assert(lines_of(header_text()) =~= header_lines());
}

/// The written footer is one line.
pub proof fn lemma_footer_lines()
    ensures
        lines_of(footer_text()) == seq![footer_line()],
{
    reveal_strlit("</DL><p>\n");
    reveal_strlit("</DL><p>");
    assert(footer_text() =~= footer_line() + seq!['\n']);
    lemma_one_line(footer_line());
}

/// The entry line of an exportable bookmark holds no line feed.
proof fn lemma_entry_line_one_line(b: Bookmark)
    requires
        exportable(b),
    ensures
        !has_char(indent() + entry_line(b), '\n'),
        (indent() + entry_line(b)).last() == '>',
{
    let href = attribute_text(lit_href_upper(), b.url@);
    assert(!has_char(seq![' '] + lit_href_upper() + seq!['=', '"'], '\n'));
    lemma_no_char_concat(seq![' '] + lit_href_upper() + seq!['=', '"'], b.url@, '\n');
    lemma_no_char_concat(seq![' '] + lit_href_upper() + seq!['=', '"'] + b.url@, seq!['"'], '\n');
    let dp = date_part(b);
    assert(!has_char(dp, '\n')) by {
        match b.date_added {
            Some(d) => match rfc3339_unix_seconds(d@) {
                Some(ts) => {
                    lemma_decimal_chars(ts as int);
                    let v = decimal_of(ts as int);
                    assert(!has_char(v, '\n')) by {
                        if has_char(v, '\n') {
                            let i = choose|i: int| 0 <= i < v.len() && v[i] == '\n';
                            assert(is_digit(v[i]) || v[i] == '-');
                        }
                    }
                    assert(!has_char(seq![' '] + lit_add_date_upper() + seq!['=', '"'], '\n'));
                    lemma_no_char_concat(seq![' '] + lit_add_date_upper() + seq!['=', '"'], v, '\n');
                    lemma_no_char_concat(
                        seq![' '] + lit_add_date_upper() + seq!['=', '"'] + v,
                        seq!['"'],
                        '\n',
                    );
                },
                None => {},
            },
            None => {},
        }
    }
    let tp = tags_part(b);
    assert(!has_char(tp, '\n')) by {
        if b.tag_names@.len() > 0 {
            let tv = tags_view(b);
            let joined = join(tv, seq![',']);
            assert(!has_char(joined, '\n')) by {
                lemma_join_no_char(tv, seq![','], '\n');
            }
            lemma_escape_keeps_absent(joined, '\n');
            let v = html_escape_spec(joined);
            assert(!has_char(seq![' '] + lit_tags_upper() + seq!['=', '"'], '\n'));
            lemma_no_char_concat(seq![' '] + lit_tags_upper() + seq!['=', '"'], v, '\n');
            lemma_no_char_concat(seq![' '] + lit_tags_upper() + seq!['=', '"'] + v, seq!['"'], '\n');
        }
    }
    lemma_no_char_concat(seq!['<', 'A'], href, '\n');
    lemma_no_char_concat(seq!['<', 'A'] + href, dp, '\n');
    lemma_no_char_concat(seq!['<', 'A'] + href + dp, tp, '\n');
    lemma_escape_keeps_absent(b.title@, '\n');
    let et = html_escape_spec(b.title@);
    lemma_no_char_concat(indent() + seq!['<', 'D', 'T', '>'], anchor_text(b), '\n');
    lemma_no_char_concat(indent() + seq!['<', 'D', 'T', '>'] + anchor_text(b), seq!['>'], '\n');
    lemma_no_char_concat(indent() + seq!['<', 'D', 'T', '>'] + anchor_text(b) + seq!['>'], et, '\n');
    lemma_no_char_concat(
        indent() + seq!['<', 'D', 'T', '>'] + anchor_text(b) + seq!['>'] + et,
        seq!['<', '/', 'A', '>'],
        '\n',
    );
    assert(indent() + entry_line(b) =~= indent() + seq!['<', 'D', 'T', '>'] + anchor_text(b) + seq![
        '>',
    ] + et + seq!['<', '/', 'A', '>']);
}

/// Joined parts hold a character only where a part or the separator does.
proof fn lemma_join_no_char(parts: Seq<Seq<char>>, sep: Seq<char>, c: char)
    requires
        !has_char(sep, c),
        forall|i: int| 0 <= i < parts.len() ==> !has_char(#[trigger] parts[i], c),
    ensures
        !has_char(join(parts, sep), c),
    decreases parts.len(),
{
    if parts.len() > 1 {
        assert forall|i: int| 0 <= i < parts.skip(1).len() implies !has_char(
            #[trigger] parts.skip(1)[i],
            c,
        ) by {
            assert(parts.skip(1)[i] == parts[i + 1]);
        }
        lemma_join_no_char(parts.skip(1), sep, c);
        assert(!has_char(parts[0], c));
        lemma_no_char_concat(parts[0], sep, c);
        lemma_no_char_concat(parts[0] + sep, join(parts.skip(1), sep), c);
    } else if parts.len() == 1 {
        assert(!has_char(parts[0], c));
    } else {
        assert(!has_char(Seq::<char>::empty(), c));
    }
}

/// The lines written for an exportable bookmark.
pub proof fn lemma_bookmark_lines(b: Bookmark)
    requires
        exportable(b),
    ensures
        lines_of(entry_html(b)) == bookmark_lines(b),
        entry_html(b).last() == '\n',
{
    lemma_entry_html_shape(b);
    lemma_entry_line_one_line(b);
    let first = indent() + entry_line(b) + seq!['\n'];
    lemma_one_line(indent() + entry_line(b));
    let dl = description_line(b);
    reveal_strlit("    <DD>");
    assert(entry_html(b) =~= first + dl);
    lemma_lines_concat(first, dl);
    if b.description@.len() > 0 {
        let dc = description_content(b);
        assert(dl =~= dc + seq!['\n']);
        lemma_escape_keeps_absent(b.description@, '\n');
        lemma_no_char_concat(indent() + seq!['<', 'D', 'D', '>'], html_escape_spec(b.description@), '\n');
        lemma_escape_ends(b.description@);
        assert(dc.last() == html_escape_spec(b.description@).last());
        lemma_one_line(dc);
        assert(lines_of(entry_html(b)) =~= bookmark_lines(b));
        assert(entry_html(b).last() == dl.last());
    } else {
        assert(dl =~= Seq::<char>::empty());
        assert(lines_of(dl) =~= Seq::<Seq<char>>::empty());
        assert(lines_of(entry_html(b)) =~= bookmark_lines(b));
        assert(entry_html(b) =~= first);
    }
}

/// The lines written for exportable bookmarks.
pub proof fn lemma_entries_lines(bs: Seq<Bookmark>)
    requires
        forall|i: int| 0 <= i < bs.len() ==> exportable(#[trigger] bs[i]),
    ensures
        lines_of(entries_html(bs)) == entries_lines(bs),
        entries_html(bs).len() == 0 || entries_html(bs).last() == '\n',
    decreases bs.len(),
{
    if bs.len() == 0 {
        assert(entries_html(bs) =~= Seq::<char>::empty());
        assert(lines_of(entries_html(bs)) =~= Seq::<Seq<char>>::empty());
    } else {
        let init = bs.drop_last();
        assert forall|i: int| 0 <= i < init.len() implies exportable(#[trigger] init[i]) by {
            assert(init[i] == bs[i]);
        }
        lemma_entries_lines(init);
        assert(exportable(bs[bs.len() - 1]));
        lemma_bookmark_lines(bs.last());
        lemma_lines_concat(entries_html(init), entry_html(bs.last()));
        let all = entries_html(init) + entry_html(bs.last());
        assert(all.last() == entry_html(bs.last()).last());
    }
}

/// The lines of a document written for exportable bookmarks: the header,
/// the bookmarks' lines, the footer.
pub proof fn lemma_document_lines(bs: Seq<Bookmark>)
    requires
        forall|i: int| 0 <= i < bs.len() ==> exportable(#[trigger] bs[i]),
    ensures
        lines_of(netscape_document(bs)) == header_lines() + entries_lines(bs) + seq![footer_line()],
{
    lemma_header_lines();
    lemma_entries_lines(bs);
    lemma_footer_lines();
    let h = header_text();
    let e = entries_html(bs);
    let f = footer_text();
    assert(netscape_document(bs) =~= h + (e + f));
    lemma_lines_concat(e, f);
    lemma_lines_concat(h, e + f);
    assert(header_lines() + (entries_lines(bs) + seq![footer_line()]) =~= header_lines()
        + entries_lines(bs) + seq![footer_line()]);
}

// ---------------------------------------------------------------------------
// reading the written lines
// ---------------------------------------------------------------------------

/// What a bookmark turns into when it is written and read again: its URL,
/// title and description, its tags, and its written date.
pub open spec fn read_back(b: Bookmark) -> ImportedEntry {
    ImportedEntry {
        url: b.url@,
        title: b.title@,
        description: b.description@,
        tags: tags_view(b),
        date_added: written_date(b),
    }
}

/// Reading lines after some other lines goes as reading them alone.
pub proof fn lemma_scan_shift(pre: Seq<Seq<char>>, rest: Seq<Seq<char>>, j: int)
    requires
        0 <= j,
    ensures
        scan_lines(pre + rest, pre.len() + j) == scan_lines(rest, j),
    decreases rest.len() - j,
{
    let all = pre + rest;
    let i = pre.len() + j;
    if j < rest.len() {
        assert(all[i] == rest[j]);
        assert(next_line(all, i) == next_line(rest, j)) by {
            if j + 1 < rest.len() {
                assert(all[i + 1] == rest[j + 1]);
            }
        }
        assert(next_is_description(all, i) == next_is_description(rest, j)) by {
            if j + 1 < rest.len() {
                assert(all[i + 1] == rest[j + 1]);
            }
        }
        lemma_scan_shift(pre, rest, j + 1);
        if j + 2 <= rest.len() {
            lemma_scan_shift(pre, rest, j + 2);
        }
    }
}

/// Trimming an indented text that has no outer white space leaves the text.
pub proof fn lemma_trim_indented(l: Seq<char>)
    requires
        l.len() > 0,
        no_outer_space(l),
    ensures
        trim(indent() + l) == l,
{
    let s0 = indent() + l;
    assert(s0.skip(1) =~= seq![' ', ' ', ' '] + l);
    assert((seq![' ', ' ', ' '] + l).skip(1) =~= seq![' ', ' '] + l);
    assert((seq![' ', ' '] + l).skip(1) =~= seq![' '] + l);
    assert((seq![' '] + l).skip(1) =~= l);
    assert(trim_start(s0) == trim_start(s0.skip(1)));
    assert(trim_start(seq![' ', ' ', ' '] + l) == trim_start(seq![' ', ' '] + l));
    assert(trim_start(seq![' ', ' '] + l) == trim_start(seq![' '] + l));
    assert(trim_start(seq![' '] + l) == trim_start(l));
    lemma_trim_unchanged(l);
    assert(trim_start(l) == l);
}

/// A text that is no description line: its second character or third is
/// not that of `<DD>`.
proof fn lemma_not_description(t: Seq<char>)
    requires
        t.len() >= 3,
        t[1] != 'D' || t[2] != 'D',
        t[1] != 'd' || t[2] != 'd',
    ensures
        !is_description_line(t),
{
    if starts_with(t, lit_dd_upper()) {
        assert(t.subrange(0, 4)[1] == t[1]);
        assert(t.subrange(0, 4)[2] == t[2]);
    }
    if starts_with(t, lit_dd_lower()) {
        assert(t.subrange(0, 4)[1] == t[1]);
        assert(t.subrange(0, 4)[2] == t[2]);
    }
}

/// An entry line, trimmed, is no description line.
proof fn lemma_entry_line_not_description(b: Bookmark)
    requires
        exportable(b),
    ensures
        trim(indent() + entry_line(b)) == entry_line(b),
        !is_description_line(entry_line(b)),
{
    lemma_entry_line_one_line(b);
    let l = entry_line(b);
    assert(l[0] == '<');
    assert((indent() + l).last() == l.last());
    lemma_trim_indented(l);
    assert(l[2] == 'T');
    lemma_not_description(l);
}

/// The footer line, trimmed, is itself, and is neither an entry nor a
/// description line.
proof fn lemma_footer_line()
    ensures
        trim(footer_line()) == footer_line(),
        !is_description_line(footer_line()),
        !is_entry_line(footer_line()),
{
    reveal_strlit("</DL><p>");
    lemma_trim_unchanged(footer_line());
    lemma_not_description(footer_line());
    let f = footer_line();
    if starts_with(f, crate::utils::bookmark_parser::netscape::lit_entry_upper()) {
        assert(f.subrange(0, 12).len() == 12);
    }
    if starts_with(f, crate::utils::bookmark_parser::netscape::lit_entry_lower()) {
        assert(f.subrange(0, 12).len() == 12);
    }
}

/// The description line of an exportable bookmark reads as its description.
proof fn lemma_description_read(b: Bookmark)
    requires
        exportable(b),
        b.description@.len() > 0,
    ensures
        is_description_line(trim(description_content(b))),
        description_of(description_content(b)) == b.description@,
{
    let ed = html_escape_spec(b.description@);
    let t = seq!['<', 'D', 'D', '>'] + ed;
    lemma_escape_ends(b.description@);
    lemma_escape_no_outer_space(b.description@);
    assert(description_content(b) =~= indent() + t);
    lemma_trim_indented(t);
    assert(t.subrange(0, 4) =~= lit_dd_upper());
    assert(t.skip(4) =~= ed);
    lemma_escape_drops(b.description@, '<');
    assert(!starts_with(ed, lit_dd_upper())) by {
        if starts_with(ed, lit_dd_upper()) {
            assert(ed.subrange(0, 4)[0] == ed[0]);
        }
    }
    assert(!starts_with(ed, lit_dd_lower())) by {
        if starts_with(ed, lit_dd_lower()) {
            assert(ed.subrange(0, 4)[0] == ed[0]);
        }
    }
    assert(strip_all_prefix(t, lit_dd_upper()) == strip_all_prefix(t.skip(4), lit_dd_upper()));
    assert(strip_all_prefix(ed, lit_dd_upper()) == ed);
    assert(strip_all_prefix(ed, lit_dd_lower()) == ed);
    lemma_trim_unchanged(ed);
    lemma_unescape_escape(b.description@);
}

/// Reading the lines of one exportable bookmark before other lines, the
/// first of which is no description line, gives the bookmark back before
/// what reading the other lines gives.
proof fn lemma_scan_step(b: Bookmark, tail: Seq<Seq<char>>)
    requires
        exportable(b),
        tail.len() > 0,
        !is_description_line(trim(tail[0])),
    ensures
        scan_lines(bookmark_lines(b) + tail, 0) == prepend_entry(read_back(b), scan_lines(tail, 0)),
{
    let head = bookmark_lines(b);
    let lines = head + tail;
    lemma_entry_line_not_description(b);
    assert(lines[0] == indent() + entry_line(b));
    assert(trim(lines[0]) == entry_line(b));
    assert(lines.len() >= 2);
    assert(next_line(lines, 0) == Some(lines[1]));
    lemma_entry_outcome(b, next_line(lines, 0));
    if b.description@.len() == 0 {
        assert(b.description@ =~= Seq::<char>::empty());
    }
    if b.description@.len() > 0 {
        lemma_description_read(b);
        assert(lines[1] == description_content(b));
        assert(next_is_description(lines, 0));
        lemma_scan_shift(head, tail, 0);
        assert(head.len() == 2);
        assert(scan_lines(lines, 2) == scan_lines(tail, 0));
        assert(entry_outcome(entry_line(b), next_line(lines, 0)) == EntryOutcome::Parsed(read_back(b)));
        assert(scan_lines(lines, 0) == prepend_entry(read_back(b), scan_lines(lines, 2)));
    } else {
        assert(lines[1] == tail[0]);
        assert(!next_is_description(lines, 0));
        assert(description_of(tail[0]) =~= Seq::<char>::empty());
        lemma_scan_shift(head, tail, 0);
        assert(head.len() == 1);
        assert(scan_lines(lines, 1) == scan_lines(tail, 0));
        assert(entry_outcome(entry_line(b), next_line(lines, 0)) == EntryOutcome::Parsed(read_back(b)));
        assert(scan_lines(lines, 0) == prepend_entry(read_back(b), scan_lines(lines, 1)));
    }
}

/// The first line after the lines of exportable bookmarks and the footer is
/// no description line.
proof fn lemma_first_not_description(rest: Seq<Bookmark>)
    requires
        forall|i: int| 0 <= i < rest.len() ==> exportable(#[trigger] rest[i]),
    ensures
        (entries_lines(rest) + seq![footer_line()]).len() > 0,
        !is_description_line(trim((entries_lines(rest) + seq![footer_line()])[0])),
{
    lemma_footer_line();
    let tail = entries_lines(rest) + seq![footer_line()];
    if rest.len() > 0 {
        lemma_entries_lines_front(rest[0], rest.skip(1));
        assert(rest =~= seq![rest[0]] + rest.skip(1));
        assert(tail[0] == indent() + entry_line(rest[0]));
        assert(exportable(rest[0]));
        lemma_entry_line_not_description(rest[0]);
    } else {
        assert(tail[0] == footer_line());
    }
}

/// Reading the lines of exportable bookmarks, followed by the footer, gives
/// back each bookmark, in order.
pub proof fn lemma_scan_entries(bs: Seq<Bookmark>)
    requires
        forall|i: int| 0 <= i < bs.len() ==> exportable(#[trigger] bs[i]),
    ensures
        scan_lines(entries_lines(bs) + seq![footer_line()], 0) == ScanOutcome::Entries(
            bs.map_values(|b: Bookmark| read_back(b)),
        ),
    decreases bs.len(),
{
    lemma_footer_line();
    if bs.len() == 0 {
        let lines = entries_lines(bs) + seq![footer_line()];
        assert(lines =~= seq![footer_line()]);
        assert(scan_lines(lines, 1) == ScanOutcome::Entries(seq![]));
        assert(bs.map_values(|b: Bookmark| read_back(b)) =~= Seq::<ImportedEntry>::empty());
    } else {
        let b = bs[0];
        let rest = bs.skip(1);
        assert(bs =~= seq![b] + rest);
        lemma_entries_lines_front(b, rest);
        assert(exportable(b));
        assert forall|i: int| 0 <= i < rest.len() implies exportable(#[trigger] rest[i]) by {
            assert(rest[i] == bs[i + 1]);
        }
        lemma_scan_entries(rest);
        lemma_first_not_description(rest);
        let tail = entries_lines(rest) + seq![footer_line()];
        lemma_scan_step(b, tail);
        assert(entries_lines(bs) + seq![footer_line()] =~= bookmark_lines(b) + tail);
        assert(seq![read_back(b)] + rest.map_values(|b: Bookmark| read_back(b)) =~= bs.map_values(
            |b: Bookmark| read_back(b),
        ));
    }
}

/// A line that starts with `<` and whose second character is not `D` is no
/// entry line.
proof fn lemma_not_entry(t: Seq<char>)
    requires
        t.len() >= 2,
        t[1] != 'D',
    ensures
        !is_entry_line(t),
{
    if starts_with(t, lit_entry_upper()) {
        assert(t.subrange(0, 12)[1] == t[1]);
    }
    if starts_with(t, lit_entry_lower()) {
        assert(t.subrange(0, 12)[1] == t[1]);
    }
}

/// No header line is an entry line, trimmed or not.
proof fn lemma_header_not_entries()
    ensures
        forall|k: int|
            0 <= k < header_lines().len() ==> trim(#[trigger] header_lines()[k]) == header_lines()[k]
                && !is_entry_line(header_lines()[k]),
{
    reveal_strlit("<!DOCTYPE NETSCAPE-Bookmark-file-1>");
    reveal_strlit("<META HTTP-EQUIV=\"Content-Type\" CONTENT=\"text/html; charset=UTF-8\">");
    reveal_strlit("<TITLE>Bookmarks</TITLE>");
    reveal_strlit("<H1>Bookmarks</H1>");
    reveal_strlit("<DL><p>");
    lemma_trim_unchanged(header_line_doctype());
    lemma_trim_unchanged(header_line_meta());
    lemma_trim_unchanged(header_line_title());
    lemma_trim_unchanged(header_line_h1());
    lemma_trim_unchanged(header_line_list());
    lemma_not_entry(header_line_doctype());
    lemma_not_entry(header_line_meta());
    lemma_not_entry(header_line_title());
    lemma_not_entry(header_line_h1());
    if starts_with(header_line_list(), lit_entry_upper()) {
        assert(header_line_list().len() < 12);
    }
    if starts_with(header_line_list(), lit_entry_lower()) {
        assert(header_line_list().len() < 12);
    }
}

/// Writing bookmarks and reading the document again gives back, in order,
/// each bookmark's URL, title, description and tags, and its date as read
/// from RFC 3339 and written back as `%Y-%m-%dT%H:%M:%SZ`, provided each
/// bookmark survives the format (`exportable`): for such bookmarks,
/// `parse_netscape_html(&generate_netscape_html(bookmarks))` succeeds with
/// one bookmark per written one.
pub proof fn lemma_export_import(bs: Seq<Bookmark>)
    requires
        forall|i: int| 0 <= i < bs.len() ==> exportable(#[trigger] bs[i]),
    ensures
        netscape_scan(netscape_document(bs)) == ScanOutcome::Entries(
            bs.map_values(|b: Bookmark| read_back(b)),
        ),
{
    lemma_document_lines(bs);
    lemma_header_not_entries();
    let h = header_lines();
    let rest = entries_lines(bs) + seq![footer_line()];
    let lines = h + rest;
    assert(lines_of(netscape_document(bs)) =~= lines);
    assert forall|k: int| 0 <= k < 5 implies #[trigger] scan_lines(lines, k) == scan_lines(lines, k + 1) by {
        assert(lines[k] == h[k]);
        assert(trim(h[k]) == h[k] && !is_entry_line(h[k]));
    }
    lemma_scan_shift(h, rest, 0);
    lemma_scan_entries(bs);
    assert(scan_lines(lines, 0) == scan_lines(lines, 1));
    assert(scan_lines(lines, 1) == scan_lines(lines, 2));
    assert(scan_lines(lines, 2) == scan_lines(lines, 3));
    assert(scan_lines(lines, 3) == scan_lines(lines, 4));
    assert(scan_lines(lines, 4) == scan_lines(lines, 5));
    assert(h.len() == 5);
}

/// A date that the export and import write back unchanged: read as RFC 3339
/// and written as `%Y-%m-%dT%H:%M:%SZ` by chrono, it is the same text. The
/// whole-second UTC dates written in that form are the dates chrono reads and
/// writes so; what chrono does is named, not restated, so the law takes this
/// as its hypothesis on each date.
pub open spec fn date_stable(d: Seq<char>) -> bool {
    match rfc3339_unix_seconds(d) {
        Some(ts) => utc_timestamp_text(ts, iso_seconds_pattern()) == Some(d),
        None => false,
    }
}

/// What a bookmark with a stable date reads back as: its URL, title,
/// description, tags and its own date.
pub open spec fn read_back_whole(b: Bookmark) -> ImportedEntry {
    ImportedEntry {
        url: b.url@,
        title: b.title@,
        description: b.description@,
        tags: tags_view(b),
        date_added: match b.date_added {
            Some(d) => Some(d@),
            None => None,
        },
    }
}

/// Writing bookmarks and reading the document again gives back each
/// bookmark's URL, title, description, tags and date, in order, provided
/// each bookmark survives the format and each date is one that chrono
/// writes back unchanged.
pub proof fn lemma_export_import_dates(bs: Seq<Bookmark>)
    requires
        forall|i: int| 0 <= i < bs.len() ==> exportable(#[trigger] bs[i]),
        forall|i: int|
            0 <= i < bs.len() ==> (#[trigger] bs[i].date_added matches Some(d) ==> date_stable(
                d@,
            )),
    ensures
        netscape_scan(netscape_document(bs)) == ScanOutcome::Entries(
            bs.map_values(|b: Bookmark| read_back_whole(b)),
        ),
{
    lemma_export_import(bs);
    assert(bs.map_values(|b: Bookmark| read_back(b)) =~= bs.map_values(
        |b: Bookmark| read_back_whole(b),
    )) by {
        assert forall|i: int| 0 <= i < bs.len() implies read_back(bs[i]) == read_back_whole(
            bs[i],
        ) by {
            let b = bs[i];
            match b.date_added {
                Some(d) => {
                    assert(date_stable(d@));
                },
                None => {},
            }
        }
    }
}

} // verus!
