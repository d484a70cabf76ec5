//! Reading a JSON value back as the plain text a form field holds.
use vstd::prelude::*;

use serde_json::Value;

use crate::escape::{
    flat_map_chars, lemma_flat_map_concat, lemma_flat_map_fixed, lemma_flat_map_single,
    lemma_replace_flat_map, piece_is_atomic, replace_all, replace_all_exec,
};
use crate::text::has_char;
use crate::text::{chars_of, string_of};

verus! {

/// A JSON value of serde_json, carried through opaquely.
#[verifier::external_type_specification]
#[verifier::external_body]
pub struct ExValue(Value);

/// The compact JSON text of a value, as its `Display` writes it.
pub uninterp spec fn json_value_text(v: Value) -> Seq<char>;

/// Calls `Display` of `serde_json::Value` (`to_string`), which writes the
/// value as compact JSON. The text depends on the value alone; the contract
/// names it and states nothing more of it.
#[verifier::external_body]
fn value_text(v: &Value) -> (res: String)
    ensures
        res@ == json_value_text(*v),
{
    v.to_string()
}

/// The lower-case hexadecimal digit of `d < 16`.
pub open spec fn hex_digit(d: int) -> char {
    if d < 10 {
        ((d + '0' as int) as u32) as char
    } else {
        ((d - 10 + 'a' as int) as u32) as char
    }
}

/// How serde_json writes one character inside a JSON string: quote and
/// backslash get a backslash, backspace, tab, line feed, form feed and
/// carriage return their short escapes, the other control characters below
/// 0x20 a `\u00XX` escape with lower-case hex digits, and every other
/// character stands for itself.
pub open spec fn json_escape_char(c: char) -> Seq<char> {
    let u = c as u32;
    if c == '"' {
        seq!['\\', '"']
    } else if c == '\\' {
        seq!['\\', '\\']
    } else if u == 0x08 {
        seq!['\\', 'b']
    } else if u == 0x09 {
        seq!['\\', 't']
    } else if u == 0x0A {
        seq!['\\', 'n']
    } else if u == 0x0C {
        seq!['\\', 'f']
    } else if u == 0x0D {
        seq!['\\', 'r']
    } else if u < 0x20 {
        seq!['\\', 'u', '0', '0', hex_digit(u as int / 16), hex_digit(u as int % 16)]
    } else {
        seq![c]
    }
}

/// The JSON text of a string value: the escaped characters between quotes.
pub open spec fn json_string_text_spec(s: Seq<char>) -> Seq<char> {
    seq!['"'] + flat_map_chars(s, |c: char| json_escape_char(c)) + seq!['"']
}

/// Calls `Display` of `serde_json::Value` on a string value. serde_json's
/// serializer writes a string as a quote, then each character escaped as
/// its table of escapes says, then a quote; the contract states exactly that.
#[verifier::external_body]
fn json_string_text(s: &str) -> (res: String)
    ensures
        res@ == json_string_text_spec(s@),
{
    Value::String(s.to_string()).to_string()
}

/// The two characters `\` `n`, an escaped line feed.
pub open spec fn escaped_newline() -> Seq<char> {
    seq!['\\', 'n']
}

/// The text of a JSON value as a form shows it: one leading and one trailing
/// quote are dropped; a text that is then exactly an escaped line feed (what
/// an empty text editor leaves) becomes empty; every escaped line feed left
/// becomes a line feed. Other escapes stay as they are.
pub open spec fn raw_string_spec(text: Seq<char>) -> Seq<char> {
    let a = if text.len() > 0 && text[0] == '"' {
        text.skip(1)
    } else {
        text
    };
    let b = if a.len() > 0 && a.last() == '"' {
        a.drop_last()
    } else {
        a
    };
    let c = if b == escaped_newline() {
        Seq::<char>::empty()
    } else {
        b
    };
    replace_all(c, escaped_newline(), seq!['\n'])
}

/// Reads the JSON text of a value back as plain text, as `raw_string_spec`
/// says.
pub fn raw_string_from_json_text(text: &str) -> (res: String)
    ensures
        res@ == raw_string_spec(text@),
{
    let v = chars_of(text);
    let mut a: Vec<char> = Vec::new();
    let start: usize = if v.len() > 0 && v[0] == '"' {
        1
    } else {
        0
    };
    let mut end: usize = v.len();
    if end > start && v[end - 1] == '"' {
        end = end - 1;
    }
    let mut i = start;
    while i < end
        invariant
            start <= i <= end <= v.len(),
            a@ == v@.subrange(start as int, i as int),
        decreases end - i,
    {
        a.push(v[i]);
        i += 1;
    }
    proof {
        let t = text@;
        let a0 = if t.len() > 0 && t[0] == '"' {
            t.skip(1)
        } else {
            t
        };
        assert(a0 =~= v@.subrange(start as int, v@.len() as int));
        if a0.len() > 0 && a0.last() == '"' {
            assert(a0.drop_last() =~= a@);
        } else {
            assert(a0 =~= a@);
        }
    }
    let newline_escape: Vec<char> = vec!['\\', 'n'];
    assert(newline_escape@ =~= escaped_newline());
    let b = if a.len() == 2 && a[0] == '\\' && a[1] == 'n' {
        assert(a@ =~= escaped_newline());
        Vec::new()
    } else {
        assert(a@ != escaped_newline());
        a
    };
    let line_feed: Vec<char> = vec!['\n'];
    assert(line_feed@ =~= seq!['\n']);
    let out = replace_all_exec(&b, &newline_escape, &line_feed);
    proof {
        let t = text@;
        let a0 = if t.len() > 0 && t[0] == '"' {
            t.skip(1)
        } else {
            t
        };
        let b0 = if a0.len() > 0 && a0.last() == '"' {
            a0.drop_last()
        } else {
            a0
        };
        assert(b0 == a@);
        let c0 = if b0 == escaped_newline() {
            Seq::<char>::empty()
        } else {
            b0
        };
        assert(c0 =~= b@);
    }
    string_of(&out)
}

/// Reads a JSON value back as plain text: its compact JSON text, read as
/// `raw_string_spec` says.
pub fn parse_serde_json_value_to_raw_string(v: &Value) -> (res: String)
    ensures
        res@ == raw_string_spec(json_value_text(*v)),
{
    let text = value_text(v);
    raw_string_from_json_text(&text)
}

/// What a text field turns into after a trip through JSON: the text of the
/// string value, read back as `raw_string_spec` says.
pub open spec fn json_round_trip_spec(s: Seq<char>) -> Seq<char> {
    raw_string_spec(json_string_text_spec(s))
}

/// Sends a text through a JSON string value and reads it back.
pub fn json_round_trip(s: &str) -> (res: String)
    ensures
        res@ == json_round_trip_spec(s@),
{
    let text = json_string_text(s);
    raw_string_from_json_text(&text)
}

/// A text that JSON writes without escapes, line feeds aside: no quote, no
/// backslash, and no control character other than the line feed.
pub open spec fn json_plain(s: Seq<char>) -> bool {
    forall|i: int|
        0 <= i < s.len() ==> #[trigger] s[i] != '"' && s[i] != '\\' && ((s[i] as u32) >= 0x20
            || s[i] == '\n')
}

/// How JSON writes a character of a plain text; a backslash, which plain
/// texts do not hold, is given a stand-in without one.
pub open spec fn plain_escape(c: char) -> Seq<char> {
    if c == '\\' {
        seq!['/']
    } else {
        json_escape_char(c)
    }
}

/// The same function on the characters of `s` gives the same result.
proof fn lemma_flat_map_agree(s: Seq<char>, f: spec_fn(char) -> Seq<char>, g: spec_fn(char) -> Seq<char>)
    requires
        forall|i: int| 0 <= i < s.len() ==> f(#[trigger] s[i]) == g(s[i]),
    ensures
        flat_map_chars(s, f) == flat_map_chars(s, g),
    decreases s.len(),
{
    if s.len() > 0 {
        assert forall|i: int| 0 <= i < s.skip(1).len() implies f(#[trigger] s.skip(1)[i]) == g(
            s.skip(1)[i],
        ) by {
            assert(s.skip(1)[i] == s[i + 1]);
        }
        lemma_flat_map_agree(s.skip(1), f, g);
        assert(f(s[0]) == g(s[0]));
    }
}

/// The escaped form of a plain text is exactly an escaped line feed only for
/// a single line feed.
proof fn lemma_escaped_newline_only(s: Seq<char>)
    requires
        json_plain(s),
        flat_map_chars(s, |c: char| json_escape_char(c)) == escaped_newline(),
    ensures
        s == seq!['\n'],
{
    let f = |c: char| json_escape_char(c);
    if s.len() == 0 {
        assert(flat_map_chars(s, f) =~= Seq::<char>::empty());
    } else {
        let head = f(s[0]);
        assert(s[0] != '"' && s[0] != '\\' && ((s[0] as u32) >= 0x20 || s[0] == '\n'));
        assert(flat_map_chars(s, f) == head + flat_map_chars(s.skip(1), f));
        if s[0] != '\n' {
            assert(head == seq![s[0]]);
            assert((head + flat_map_chars(s.skip(1), f))[0] == s[0]);
        } else {
            assert(head == seq!['\\', 'n']);
            assert(flat_map_chars(s.skip(1), f).len() == 0);
            if s.skip(1).len() > 0 {
                assert(flat_map_chars(s.skip(1), f) == f(s.skip(1)[0]) + flat_map_chars(
                    s.skip(1).skip(1),
                    f,
                ));
                assert(f(s.skip(1)[0]).len() > 0);
            }
            assert(s =~= seq!['\n']);
        }
    }
}

/// A plain text other than a single line feed comes back unchanged from its
/// trip through a JSON string: `raw_string_spec(json_string_text_spec(s)) == s`.
pub proof fn lemma_json_round_trip(s: Seq<char>)
    requires
        json_plain(s),
        s != seq!['\n'],
    ensures
        json_round_trip_spec(s) == s,
{
    let f = |c: char| json_escape_char(c);
    let g = |c: char| plain_escape(c);
    let escaped = flat_map_chars(s, f);
    let text = json_string_text_spec(s);
    assert(text == seq!['"'] + escaped + seq!['"']);
    assert(text.skip(1) =~= escaped + seq!['"']);
    assert((escaped + seq!['"']).drop_last() =~= escaped);
    if escaped == escaped_newline() {
        lemma_escaped_newline_only(s);
    }
    // the escape functions agree on plain texts
    lemma_flat_map_agree(s, f, g);
    // replacing escaped line feeds in the escaped text restores the line feeds
    let h = |c: char| if g(c) == escaped_newline() {
        seq!['\n']
    } else {
        g(c)
    };
    assert forall|c: char| #[trigger] piece_is_atomic(g(c), escaped_newline()) by {
        let x = g(c);
        let p = escaped_newline();
        if x != p && has_char(x, p[0]) {
            assert(x.len() >= 2 && x[0] == '\\');
            assert(x[1] != 'n' || x == p);
            assert(!has_char(x.skip(1), '\\')) by {
                if has_char(x.skip(1), '\\') {
                    let j = choose|j: int| 0 <= j < x.skip(1).len() && x.skip(1)[j] == '\\';
                    assert(x.skip(1)[j] == x[j + 1]);
                }
            }
            assert(0 < 1 < x.len() && 1 < p.len() && x[1] != p[1]);
        }
    }
    lemma_replace_flat_map(s, g, escaped_newline(), seq!['\n'], h);
    assert forall|i: int| 0 <= i < s.len() implies h(#[trigger] s[i]) == seq![s[i]] by {
        assert(s[i] != '"' && s[i] != '\\' && ((s[i] as u32) >= 0x20 || s[i] == '\n'));
    }
    lemma_flat_map_fixed(s, h);
}

} // verus!
