//! Substring replacement and the HTML entity escaping used by the Netscape
//! bookmark format, with the law that unescaping undoes escaping.
use vstd::prelude::*;

use crate::text::{has_char, matches_at, starts_with, append_chars, matches_at_exec};

verus! {

/// `s` with every occurrence of the non-empty `p` replaced by `r`, scanning
/// from the left and never overlapping matches (`str::replace`).
pub open spec fn replace_all(s: Seq<char>, p: Seq<char>, r: Seq<char>) -> Seq<char>
    decreases s.len(),
{
    if s.len() == 0 {
        seq![]
    } else if p.len() > 0 && starts_with(s, p) {
        r + replace_all(s.skip(p.len() as int), p, r)
    } else {
        seq![s[0]] + replace_all(s.skip(1), p, r)
    }
}

/// The concatenation of `f` applied to each character of `s`.
pub open spec fn flat_map_chars(s: Seq<char>, f: spec_fn(char) -> Seq<char>) -> Seq<char>
    decreases s.len(),
{
    if s.len() == 0 {
        seq![]
    } else {
        f(s[0]) + flat_map_chars(s.skip(1), f)
    }
}

pub open spec fn amp_entity() -> Seq<char> {
    seq!['&', 'a', 'm', 'p', ';']
}

pub open spec fn lt_entity() -> Seq<char> {
    seq!['&', 'l', 't', ';']
}

pub open spec fn gt_entity() -> Seq<char> {
    seq!['&', 'g', 't', ';']
}

pub open spec fn quot_entity() -> Seq<char> {
    seq!['&', 'q', 'u', 'o', 't', ';']
}

pub open spec fn apos_dec_entity() -> Seq<char> {
    seq!['&', '#', '3', '9', ';']
}

pub open spec fn apos_hex_entity() -> Seq<char> {
    seq!['&', '#', 'x', '2', '7', ';']
}

pub open spec fn apos_named_entity() -> Seq<char> {
    seq!['&', 'a', 'p', 'o', 's', ';']
}

/// What escaping makes of one character.
pub open spec fn escape_char(c: char) -> Seq<char> {
    if c == '&' {
        amp_entity()
    } else if c == '<' {
        lt_entity()
    } else if c == '>' {
        gt_entity()
    } else if c == '"' {
        quot_entity()
    } else if c == '\'' {
        apos_dec_entity()
    } else {
        seq![c]
    }
}

/// The characters that escaping rewrites.
pub open spec fn is_markup_char(c: char) -> bool {
    c == '&' || c == '<' || c == '>' || c == '"' || c == '\''
}

/// HTML escaping as a chain of replacements: `&` first, then `<`, `>`, `"` and `'`.
pub open spec fn html_escape_spec(s: Seq<char>) -> Seq<char> {
    replace_all(
        replace_all(
            replace_all(
                replace_all(replace_all(s, seq!['&'], amp_entity()), seq!['<'], lt_entity()),
                seq!['>'],
                gt_entity(),
            ),
            seq!['"'],
            quot_entity(),
        ),
        seq!['\''],
        apos_dec_entity(),
    )
}

/// HTML unescaping as a chain of replacements, `&amp;` last.
pub open spec fn html_unescape_spec(s: Seq<char>) -> Seq<char> {
    replace_all(
        replace_all(
            replace_all(
                replace_all(
                    replace_all(
                        replace_all(replace_all(s, lt_entity(), seq!['<']), gt_entity(), seq!['>']),
                        quot_entity(),
                        seq!['"'],
                    ),
                    apos_dec_entity(),
                    seq!['\''],
                ),
                apos_hex_entity(),
                seq!['\''],
            ),
            apos_named_entity(),
            seq!['\''],
        ),
        amp_entity(),
        seq!['&'],
    )
}

// ---------------------------------------------------------------------------
// lemmas
// ---------------------------------------------------------------------------

proof fn lemma_concat_skip(x: Seq<char>, y: Seq<char>, n: int)
    requires
        0 <= n <= x.len(),
    ensures
        (x + y).skip(n) == x.skip(n) + y,
{
    assert((x + y).skip(n) =~= x.skip(n) + y);
}

/// Replacing in `x + y` leaves `x` alone when `x` cannot start a match.
pub proof fn lemma_replace_prefix_free(x: Seq<char>, y: Seq<char>, p: Seq<char>, r: Seq<char>)
    requires
        p.len() > 0,
        !has_char(x, p[0]),
    ensures
        replace_all(x + y, p, r) == x + replace_all(y, p, r),
    decreases x.len(),
{
    if x.len() == 0 {
        assert(x + y =~= y);
        assert(x + replace_all(y, p, r) =~= replace_all(y, p, r));
    } else {
        assert((x + y)[0] == x[0]);
        assert(!starts_with(x + y, p)) by {
            if starts_with(x + y, p) {
                assert((x + y).subrange(0, p.len() as int)[0] == p[0]);
            }
        }
        lemma_concat_skip(x, y, 1);
        assert(!has_char(x.skip(1), p[0])) by {
            if has_char(x.skip(1), p[0]) {
                let i = choose|i: int| 0 <= i < x.skip(1).len() && x.skip(1)[i] == p[0];
                assert(x[i + 1] == p[0]);
            }
        }
        lemma_replace_prefix_free(x.skip(1), y, p, r);
        assert(seq![x[0]] + (x.skip(1) + replace_all(y, p, r)) =~= x + replace_all(y, p, r));
    }
}

/// Replacing in `p + y` turns the leading `p` into `r`.
pub proof fn lemma_replace_exact(y: Seq<char>, p: Seq<char>, r: Seq<char>)
    requires
        p.len() > 0,
    ensures
        replace_all(p + y, p, r) == r + replace_all(y, p, r),
{
    assert((p + y).subrange(0, p.len() as int) =~= p);
    assert((p + y).skip(p.len() as int) =~= y);
}

/// Replacing in `x + y` leaves `x` alone when `x` starts like `p` but
/// differs from it at some position and holds no other first character of `p`.
pub proof fn lemma_replace_near_miss(
    x: Seq<char>,
    y: Seq<char>,
    p: Seq<char>,
    r: Seq<char>,
    j: int,
)
    requires
        p.len() > 0,
        x.len() > 0,
        0 < j < x.len(),
        j < p.len(),
        x[j] != p[j],
        !has_char(x.skip(1), p[0]),
    ensures
        replace_all(x + y, p, r) == x + replace_all(y, p, r),
{
    assert(!starts_with(x + y, p)) by {
        if starts_with(x + y, p) {
            assert((x + y).subrange(0, p.len() as int)[j] == p[j]);
        }
    }
    lemma_concat_skip(x, y, 1);
    lemma_replace_prefix_free(x.skip(1), y, p, r);
    assert(seq![x[0]] + (x.skip(1) + replace_all(y, p, r)) =~= x + replace_all(y, p, r));
}

/// The three ways a piece can sit in front of a match of `p`.
pub open spec fn piece_is_atomic(x: Seq<char>, p: Seq<char>) -> bool {
    ||| x == p
    ||| !has_char(x, p[0])
    ||| (x.len() > 0 && !has_char(x.skip(1), p[0]) && exists|j: int|
        0 < j < x.len() && j < p.len() && x[j] != p[j])
}

/// Replacing `p` in a concatenation of atomic pieces replaces whole pieces.
pub proof fn lemma_replace_flat_map(
    s: Seq<char>,
    e: spec_fn(char) -> Seq<char>,
    p: Seq<char>,
    r: Seq<char>,
    e2: spec_fn(char) -> Seq<char>,
)
    requires
        p.len() > 0,
        forall|c: char| #[trigger] piece_is_atomic(e(c), p),
        forall|c: char|
            #[trigger] e2(c) == if e(c) == p {
                r
            } else {
                e(c)
            },
    ensures
        replace_all(flat_map_chars(s, e), p, r) == flat_map_chars(s, e2),
    decreases s.len(),
{
    if s.len() == 0 {
    } else {
        let x = e(s[0]);
        let y = flat_map_chars(s.skip(1), e);
        lemma_replace_flat_map(s.skip(1), e, p, r, e2);
        assert(piece_is_atomic(x, p));
        if x == p {
            lemma_replace_exact(y, p, r);
        } else if !has_char(x, p[0]) {
            lemma_replace_prefix_free(x, y, p, r);
        } else {
            let j = choose|j: int| 0 < j < x.len() && j < p.len() && x[j] != p[j];
            lemma_replace_near_miss(x, y, p, r, j);
        }
        assert(flat_map_chars(s, e2) == e2(s[0]) + flat_map_chars(s.skip(1), e2));
    }
}

/// `flat_map_chars` depends only on the values of the function.
pub proof fn lemma_flat_map_ext(s: Seq<char>, f: spec_fn(char) -> Seq<char>, g: spec_fn(char) -> Seq<char>)
    requires
        forall|c: char| #[trigger] f(c) == g(c),
    ensures
        flat_map_chars(s, f) == flat_map_chars(s, g),
    decreases s.len(),
{
    if s.len() > 0 {
        lemma_flat_map_ext(s.skip(1), f, g);
    }
}

/// Mapping every character to itself gives the sequence back.
pub proof fn lemma_flat_map_id(s: Seq<char>)
    ensures
        flat_map_chars(s, |c: char| seq![c]) == s,
    decreases s.len(),
{
    if s.len() > 0 {
        lemma_flat_map_id(s.skip(1));
        assert(seq![s[0]] + s.skip(1) =~= s);
    }
}

/// `flat_map_chars` over a concatenation.
pub proof fn lemma_flat_map_concat(a: Seq<char>, b: Seq<char>, f: spec_fn(char) -> Seq<char>)
    ensures
        flat_map_chars(a + b, f) == flat_map_chars(a, f) + flat_map_chars(b, f),
    decreases a.len(),
{
    if a.len() == 0 {
        assert(a + b =~= b);
        assert(flat_map_chars(a, f) + flat_map_chars(b, f) =~= flat_map_chars(b, f));
    } else {
        lemma_concat_skip(a, b, 1);
        assert((a + b)[0] == a[0]);
        lemma_flat_map_concat(a.skip(1), b, f);
        assert(f(a[0]) + (flat_map_chars(a.skip(1), f) + flat_map_chars(b, f)) =~= (f(a[0])
            + flat_map_chars(a.skip(1), f)) + flat_map_chars(b, f));
    }
}

/// Composing two character maps.
pub proof fn lemma_flat_map_compose(
    s: Seq<char>,
    f: spec_fn(char) -> Seq<char>,
    g: spec_fn(char) -> Seq<char>,
    h: spec_fn(char) -> Seq<char>,
)
    requires
        forall|c: char| #[trigger] h(c) == flat_map_chars(f(c), g),
    ensures
        flat_map_chars(flat_map_chars(s, f), g) == flat_map_chars(s, h),
    decreases s.len(),
{
    if s.len() > 0 {
        lemma_flat_map_compose(s.skip(1), f, g, h);
        lemma_flat_map_concat(f(s[0]), flat_map_chars(s.skip(1), f), g);
    }
}

/// Replacing a single character is a character map.
pub proof fn lemma_replace_single(
    s: Seq<char>,
    c: char,
    r: Seq<char>,
    f: spec_fn(char) -> Seq<char>,
)
    requires
        forall|x: char|
            #[trigger] f(x) == if x == c {
                r
            } else {
                seq![x]
            },
    ensures
        replace_all(s, seq![c], r) == flat_map_chars(s, f),
    decreases s.len(),
{
    if s.len() > 0 {
        lemma_replace_single(s.skip(1), c, r, f);
        if s[0] == c {
            assert(s.subrange(0, 1) =~= seq![c]);
        } else {
            assert(!starts_with(s, seq![c])) by {
                if starts_with(s, seq![c]) {
                    assert(s.subrange(0, 1)[0] == c);
                }
            }
        }
    }
}

/// A character map that changes nothing in `s` gives `s` back.
pub proof fn lemma_flat_map_fixed(s: Seq<char>, f: spec_fn(char) -> Seq<char>)
    requires
        forall|i: int| 0 <= i < s.len() ==> f(#[trigger] s[i]) == seq![s[i]],
    ensures
        flat_map_chars(s, f) == s,
    decreases s.len(),
{
    if s.len() > 0 {
        assert forall|i: int| 0 <= i < s.skip(1).len() implies f(#[trigger] s.skip(1)[i]) == seq![
            s.skip(1)[i],
        ] by {
            assert(s.skip(1)[i] == s[i + 1]);
        }
        lemma_flat_map_fixed(s.skip(1), f);
        assert(seq![s[0]] + s.skip(1) =~= s);
    }
}

/// A character map applied to one character.
pub proof fn lemma_flat_map_single(c: char, f: spec_fn(char) -> Seq<char>)
    ensures
        flat_map_chars(seq![c], f) == f(c),
{
    let e = seq![c].skip(1);
    assert(e =~= Seq::<char>::empty());
    assert(flat_map_chars(e, f) =~= Seq::<char>::empty());
    assert(seq![c][0] == c);
    assert(f(c) + Seq::<char>::empty() =~= f(c));
}

/// Escaping is the character map `escape_char`.
pub proof fn lemma_escape_is_flat_map(s: Seq<char>)
    ensures
        html_escape_spec(s) == flat_map_chars(s, |c: char| escape_char(c)),
{
    let f1 = |x: char|
        if x == '&' {
            amp_entity()
        } else {
            seq![x]
        };
    let f2 = |x: char|
        if x == '<' {
            lt_entity()
        } else {
            seq![x]
        };
    let f3 = |x: char|
        if x == '>' {
            gt_entity()
        } else {
            seq![x]
        };
    let f4 = |x: char|
        if x == '"' {
            quot_entity()
        } else {
            seq![x]
        };
    let f5 = |x: char|
        if x == '\'' {
            apos_dec_entity()
        } else {
            seq![x]
        };
    let s1 = replace_all(s, seq!['&'], amp_entity());
    lemma_replace_single(s, '&', amp_entity(), f1);
    let s2 = replace_all(s1, seq!['<'], lt_entity());
    lemma_replace_single(s1, '<', lt_entity(), f2);
    let g2 = |c: char| flat_map_chars(f1(c), f2);
    lemma_flat_map_compose(s, f1, f2, g2);
    let h2 = |c: char|
        if c == '&' {
            amp_entity()
        } else if c == '<' {
            lt_entity()
        } else {
            seq![c]
        };
    assert forall|c: char| #[trigger] g2(c) == h2(c) by {
        if c == '&' {
            lemma_flat_map_fixed(amp_entity(), f2);
        } else {
            lemma_flat_map_single(c, f2);
        }
    }
    lemma_flat_map_ext(s, g2, h2);
    let s3 = replace_all(s2, seq!['>'], gt_entity());
    lemma_replace_single(s2, '>', gt_entity(), f3);
    let g3 = |c: char| flat_map_chars(h2(c), f3);
    lemma_flat_map_compose(s, h2, f3, g3);
    let h3 = |c: char|
        if c == '&' {
            amp_entity()
        } else if c == '<' {
            lt_entity()
        } else if c == '>' {
            gt_entity()
        } else {
            seq![c]
        };
    assert forall|c: char| #[trigger] g3(c) == h3(c) by {
        if c == '&' {
            lemma_flat_map_fixed(amp_entity(), f3);
        } else if c == '<' {
            lemma_flat_map_fixed(lt_entity(), f3);
        } else {
            lemma_flat_map_single(c, f3);
        }
    }
    lemma_flat_map_ext(s, g3, h3);
    let s4 = replace_all(s3, seq!['"'], quot_entity());
    lemma_replace_single(s3, '"', quot_entity(), f4);
    let g4 = |c: char| flat_map_chars(h3(c), f4);
    lemma_flat_map_compose(s, h3, f4, g4);
    let h4 = |c: char|
        if c == '&' {
            amp_entity()
        } else if c == '<' {
            lt_entity()
        } else if c == '>' {
            gt_entity()
        } else if c == '"' {
            quot_entity()
        } else {
            seq![c]
        };
    assert forall|c: char| #[trigger] g4(c) == h4(c) by {
        if c == '&' {
            lemma_flat_map_fixed(amp_entity(), f4);
        } else if c == '<' {
            lemma_flat_map_fixed(lt_entity(), f4);
        } else if c == '>' {
            lemma_flat_map_fixed(gt_entity(), f4);
        } else {
            lemma_flat_map_single(c, f4);
        }
    }
    lemma_flat_map_ext(s, g4, h4);
    lemma_replace_single(s4, '\'', apos_dec_entity(), f5);
    let g5 = |c: char| flat_map_chars(h4(c), f5);
    lemma_flat_map_compose(s, h4, f5, g5);
    let h5 = |c: char| escape_char(c);
    assert forall|c: char| #[trigger] g5(c) == h5(c) by {
        if c == '&' {
            lemma_flat_map_fixed(amp_entity(), f5);
        } else if c == '<' {
            lemma_flat_map_fixed(lt_entity(), f5);
        } else if c == '>' {
            lemma_flat_map_fixed(gt_entity(), f5);
        } else if c == '"' {
            lemma_flat_map_fixed(quot_entity(), f5);
        } else {
            lemma_flat_map_single(c, f5);
        }
    }
    lemma_flat_map_ext(s, g5, h5);
}

proof fn lemma_single_not_amp(c: char)
    requires
        c != '&',
    ensures
        !has_char(seq![c], '&'),
{
}

/// Unescaping undoes escaping: for every string `s`,
/// `html_unescape(html_escape(s)) == s`.
pub proof fn lemma_unescape_escape(s: Seq<char>)
    ensures
        html_unescape_spec(html_escape_spec(s)) == s,
{
    lemma_escape_is_flat_map(s);
    let e0 = |c: char| escape_char(c);
    // after `&lt;`
    let e1 = |c: char|
        if c == '<' {
            seq!['<']
        } else {
            escape_char(c)
        };
    // after `&gt;`
    let e2 = |c: char|
        if c == '<' || c == '>' {
            seq![c]
        } else {
            escape_char(c)
        };
    // after `&quot;`
    let e3 = |c: char|
        if c == '<' || c == '>' || c == '"' {
            seq![c]
        } else {
            escape_char(c)
        };
    // after `&#39;`, `&#x27;` and `&apos;`
    let e4 = |c: char|
        if c == '&' {
            amp_entity()
        } else {
            seq![c]
        };
    let id = |c: char| seq![c];
    let t0 = flat_map_chars(s, e0);
    // pass `&lt;`
    assert forall|c: char| #[trigger] piece_is_atomic(e0(c), lt_entity()) by {
        if c == '&' {
            assert(amp_entity()[1] != lt_entity()[1]);
            assert(!has_char(amp_entity().skip(1), '&'));
        } else if c == '<' {
        } else if c == '>' {
            assert(gt_entity()[1] != lt_entity()[1]);
            assert(!has_char(gt_entity().skip(1), '&'));
        } else if c == '"' {
            assert(quot_entity()[1] != lt_entity()[1]);
            assert(!has_char(quot_entity().skip(1), '&'));
        } else if c == '\'' {
            assert(apos_dec_entity()[1] != lt_entity()[1]);
            assert(!has_char(apos_dec_entity().skip(1), '&'));
        } else {
            lemma_single_not_amp(c);
        }
    }
    let r1 = |c: char|
        if e0(c) == lt_entity() {
            seq!['<']
        } else {
            e0(c)
        };
    assert forall|c: char| #[trigger] r1(c) == e1(c) by {
        if c != '<' {
            if c == '&' {
                assert(amp_entity()[1] != lt_entity()[1]);
            } else if c == '>' {
                assert(gt_entity()[1] != lt_entity()[1]);
            } else if c == '"' {
                assert(quot_entity().len() != lt_entity().len());
            } else if c == '\'' {
                assert(apos_dec_entity().len() != lt_entity().len());
            } else {
                assert(seq![c].len() != lt_entity().len());
            }
        }
    }
    lemma_replace_flat_map(s, e0, lt_entity(), seq!['<'], r1);
    lemma_flat_map_ext(s, r1, e1);
    let t1 = flat_map_chars(s, e1);
    // pass `&gt;`
    assert forall|c: char| #[trigger] piece_is_atomic(e1(c), gt_entity()) by {
        if c == '&' {
            assert(amp_entity()[1] != gt_entity()[1]);
            assert(!has_char(amp_entity().skip(1), '&'));
        } else if c == '<' {
            lemma_single_not_amp(c);
        } else if c == '>' {
        } else if c == '"' {
            assert(quot_entity()[1] != gt_entity()[1]);
            assert(!has_char(quot_entity().skip(1), '&'));
        } else if c == '\'' {
            assert(apos_dec_entity()[1] != gt_entity()[1]);
            assert(!has_char(apos_dec_entity().skip(1), '&'));
        } else {
            lemma_single_not_amp(c);
        }
    }
    let r2 = |c: char|
        if e1(c) == gt_entity() {
            seq!['>']
        } else {
            e1(c)
        };
    assert forall|c: char| #[trigger] r2(c) == e2(c) by {
        if c != '>' {
            if c == '&' {
                assert(amp_entity()[1] != gt_entity()[1]);
            } else if c == '"' {
                assert(quot_entity().len() != gt_entity().len());
            } else if c == '\'' {
                assert(apos_dec_entity().len() != gt_entity().len());
            } else {
                assert(seq![c].len() != gt_entity().len());
            }
        }
    }
    lemma_replace_flat_map(s, e1, gt_entity(), seq!['>'], r2);
    lemma_flat_map_ext(s, r2, e2);
    // pass `&quot;`
    assert forall|c: char| #[trigger] piece_is_atomic(e2(c), quot_entity()) by {
        if c == '&' {
            assert(amp_entity()[1] != quot_entity()[1]);
            assert(!has_char(amp_entity().skip(1), '&'));
        } else if c == '"' {
        } else if c == '\'' {
            assert(apos_dec_entity()[1] != quot_entity()[1]);
            assert(!has_char(apos_dec_entity().skip(1), '&'));
        } else {
            lemma_single_not_amp(c);
        }
    }
    let r3 = |c: char|
        if e2(c) == quot_entity() {
            seq!['"']
        } else {
            e2(c)
        };
    assert forall|c: char| #[trigger] r3(c) == e3(c) by {
        if c != '"' {
            if c == '&' {
                assert(amp_entity().len() != quot_entity().len());
            } else if c == '\'' {
                assert(apos_dec_entity().len() != quot_entity().len());
            } else if c == '<' || c == '>' {
                assert(seq![c].len() != quot_entity().len());
            } else {
                assert(seq![c].len() != quot_entity().len());
            }
        }
    }
    lemma_replace_flat_map(s, e2, quot_entity(), seq!['"'], r3);
    lemma_flat_map_ext(s, r3, e3);
    // pass `&#39;`
    assert forall|c: char| #[trigger] piece_is_atomic(e3(c), apos_dec_entity()) by {
        if c == '&' {
            assert(amp_entity()[1] != apos_dec_entity()[1]);
            assert(!has_char(amp_entity().skip(1), '&'));
        } else if c == '\'' {
        } else {
            lemma_single_not_amp(c);
        }
    }
    let r4 = |c: char|
        if e3(c) == apos_dec_entity() {
            seq!['\'']
        } else {
            e3(c)
        };
    assert forall|c: char| #[trigger] r4(c) == e4(c) by {
        if c == '&' {
            assert(amp_entity()[1] != apos_dec_entity()[1]);
        } else if c != '\'' {
            assert(seq![c].len() != apos_dec_entity().len());
        }
    }
    lemma_replace_flat_map(s, e3, apos_dec_entity(), seq!['\''], r4);
    lemma_flat_map_ext(s, r4, e4);
    // pass `&#x27;`
    assert forall|c: char| #[trigger] piece_is_atomic(e4(c), apos_hex_entity()) by {
        if c == '&' {
            assert(amp_entity()[1] != apos_hex_entity()[1]);
            assert(!has_char(amp_entity().skip(1), '&'));
        } else {
            lemma_single_not_amp(c);
        }
    }
    let r5 = |c: char|
        if e4(c) == apos_hex_entity() {
            seq!['\'']
        } else {
            e4(c)
        };
    assert forall|c: char| #[trigger] r5(c) == e4(c) by {
        if c == '&' {
            assert(amp_entity().len() != apos_hex_entity().len());
        } else {
            assert(seq![c].len() != apos_hex_entity().len());
        }
    }
    lemma_replace_flat_map(s, e4, apos_hex_entity(), seq!['\''], r5);
    lemma_flat_map_ext(s, r5, e4);
    // pass `&apos;`
    assert forall|c: char| #[trigger] piece_is_atomic(e4(c), apos_named_entity()) by {
        if c == '&' {
            assert(amp_entity()[2] != apos_named_entity()[2]);
            assert(!has_char(amp_entity().skip(1), '&'));
        } else {
            lemma_single_not_amp(c);
        }
    }
    let r6 = |c: char|
        if e4(c) == apos_named_entity() {
            seq!['\'']
        } else {
            e4(c)
        };
    assert forall|c: char| #[trigger] r6(c) == e4(c) by {
        if c == '&' {
            assert(amp_entity()[2] != apos_named_entity()[2]);
        } else {
            assert(seq![c].len() != apos_named_entity().len());
        }
    }
    lemma_replace_flat_map(s, e4, apos_named_entity(), seq!['\''], r6);
    lemma_flat_map_ext(s, r6, e4);
    // pass `&amp;`
    assert forall|c: char| #[trigger] piece_is_atomic(e4(c), amp_entity()) by {
        if c != '&' {
            lemma_single_not_amp(c);
        }
    }
    let r7 = |c: char|
        if e4(c) == amp_entity() {
            seq!['&']
        } else {
            e4(c)
        };
    assert forall|c: char| #[trigger] r7(c) == id(c) by {
        if c != '&' {
            assert(seq![c].len() != amp_entity().len());
        }
    }
    lemma_replace_flat_map(s, e4, amp_entity(), seq!['&'], r7);
    lemma_flat_map_ext(s, r7, id);
    lemma_flat_map_id(s);
}

// ---------------------------------------------------------------------------
// executable replacement and escaping
// ---------------------------------------------------------------------------

/// `v` with every occurrence of the non-empty `p` replaced by `r`.
pub fn replace_all_exec(v: &[char], p: &[char], r: &[char]) -> (res: Vec<char>)
    requires
        p.len() > 0,
    ensures
        res@ == replace_all(v@, p@, r@),
{
    let mut out: Vec<char> = Vec::new();
    let mut i: usize = 0;
    assert(v@.skip(0) == v@);
    while i < v.len()
        invariant
            i <= v.len(),
            p.len() > 0,
            replace_all(v@, p@, r@) == out@ + replace_all(v@.skip(i as int), p@, r@),
        decreases v.len() - i,
    {
        let ghost rest = v@.skip(i as int);
        if matches_at_exec(v, p, i) {
            proof {
                assert(rest.subrange(0, p.len() as int) == v@.subrange(i as int, i + p.len()));
                assert(rest.skip(p.len() as int) == v@.skip(i + p.len()));
                assert(out@ + (r@ + replace_all(rest.skip(p.len() as int), p@, r@)) =~= (out@ + r@)
                    + replace_all(v@.skip(i + p.len()), p@, r@));
            }
            append_chars(&mut out, r);
            i += p.len();
        } else {
            proof {
                if starts_with(rest, p@) {
                    assert(rest.subrange(0, p.len() as int) == v@.subrange(
                        i as int,
                        i + p.len(),
                    ));
                }
                assert(rest.skip(1) == v@.skip(i + 1));
                assert(out@ + (seq![rest[0]] + replace_all(rest.skip(1), p@, r@)) =~= out@.push(
                    v@[i as int],
                ) + replace_all(v@.skip(i + 1), p@, r@));
            }
            out.push(v[i]);
            i += 1;
        }
    }
    proof {
        assert(v@.skip(i as int).len() == 0);
        assert(out@ + Seq::<char>::empty() =~= out@);
    }
    out
}

/// HTML-escapes `&`, `<`, `>`, `"` and `'`.
pub fn html_escape(s: &[char]) -> (res: Vec<char>)
    ensures
        res@ == html_escape_spec(s@),
{
    let amp: Vec<char> = vec!['&', 'a', 'm', 'p', ';'];
    let lt: Vec<char> = vec!['&', 'l', 't', ';'];
    let gt: Vec<char> = vec!['&', 'g', 't', ';'];
    let quot: Vec<char> = vec!['&', 'q', 'u', 'o', 't', ';'];
    let apos: Vec<char> = vec!['&', '#', '3', '9', ';'];
    let c_amp: Vec<char> = vec!['&'];
    let c_lt: Vec<char> = vec!['<'];
    let c_gt: Vec<char> = vec!['>'];
    let c_quot: Vec<char> = vec!['"'];
    let c_apos: Vec<char> = vec!['\''];
    assert(amp@ =~= amp_entity() && lt@ =~= lt_entity() && gt@ =~= gt_entity());
    assert(quot@ =~= quot_entity() && apos@ =~= apos_dec_entity());
    assert(c_amp@ =~= seq!['&'] && c_lt@ =~= seq!['<'] && c_gt@ =~= seq!['>']);
    assert(c_quot@ =~= seq!['"'] && c_apos@ =~= seq!['\'']);
    let a = replace_all_exec(s, &c_amp, &amp);
    let b = replace_all_exec(&a, &c_lt, &lt);
    let c = replace_all_exec(&b, &c_gt, &gt);
    let d = replace_all_exec(&c, &c_quot, &quot);
    replace_all_exec(&d, &c_apos, &apos)
}

/// Undoes the HTML entities `&lt;`, `&gt;`, `&quot;`, `&#39;`, `&#x27;`,
/// `&apos;` and, last, `&amp;`.
pub fn html_unescape(s: &[char]) -> (res: Vec<char>)
    ensures
        res@ == html_unescape_spec(s@),
{
    let lt: Vec<char> = vec!['&', 'l', 't', ';'];
    let gt: Vec<char> = vec!['&', 'g', 't', ';'];
    let quot: Vec<char> = vec!['&', 'q', 'u', 'o', 't', ';'];
    let apos_dec: Vec<char> = vec!['&', '#', '3', '9', ';'];
    let apos_hex: Vec<char> = vec!['&', '#', 'x', '2', '7', ';'];
    let apos_named: Vec<char> = vec!['&', 'a', 'p', 'o', 's', ';'];
    let amp: Vec<char> = vec!['&', 'a', 'm', 'p', ';'];
    let c_amp: Vec<char> = vec!['&'];
    let c_lt: Vec<char> = vec!['<'];
    let c_gt: Vec<char> = vec!['>'];
    let c_quot: Vec<char> = vec!['"'];
    let c_apos: Vec<char> = vec!['\''];
    assert(amp@ =~= amp_entity() && lt@ =~= lt_entity() && gt@ =~= gt_entity());
    assert(quot@ =~= quot_entity() && apos_dec@ =~= apos_dec_entity());
    assert(apos_hex@ =~= apos_hex_entity() && apos_named@ =~= apos_named_entity());
    assert(c_amp@ =~= seq!['&'] && c_lt@ =~= seq!['<'] && c_gt@ =~= seq!['>']);
    assert(c_quot@ =~= seq!['"'] && c_apos@ =~= seq!['\'']);
    let a = replace_all_exec(s, &lt, &c_lt);
    let b = replace_all_exec(&a, &gt, &c_gt);
    let c = replace_all_exec(&b, &quot, &c_quot);
    let d = replace_all_exec(&c, &apos_dec, &c_apos);
    let e = replace_all_exec(&d, &apos_hex, &c_apos);
    let f = replace_all_exec(&e, &apos_named, &c_apos);
    replace_all_exec(&f, &amp, &c_amp)
}

} // verus!
