//! How bookmarks are laid out in the database: the order clause of each
//! sort order, the text that stores a bookmark's tags, and the row that a
//! bookmark's new values go to.
use vstd::prelude::*;

use crate::app::config::SortOption;
use crate::models::bookmarks::Bookmark;
use crate::text::{chars_of, join, split_char, split_exec, string_of, texts, trim, trim_exec, append_chars};
use crate::utils::bookmark_parser::round_trip::{lemma_split_join, lemma_trim_unchanged, no_outer_space};

verus! {

/// The `ORDER BY` clause of a sort order.
pub open spec fn order_by_spec(sort: SortOption) -> Seq<char> {
    match sort {
        SortOption::BookmarksDateNewest => "date_added DESC"@,
        SortOption::BookmarksDateOldest => "date_added ASC"@,
        SortOption::BookmarkAlphabeticalAscending => "title COLLATE NOCASE ASC"@,
        SortOption::BookmarkAlphabeticalDescending => "title COLLATE NOCASE DESC"@,
    }
}

/// The `ORDER BY` clause of a sort order: by date of addition, newest or
/// oldest first, or by title regardless of case, ascending or descending.
pub fn order_by_clause(sort: SortOption) -> (res: &'static str)
    ensures
        res@ == order_by_spec(sort),
{
    match sort {
        SortOption::BookmarksDateNewest => "date_added DESC",
        SortOption::BookmarksDateOldest => "date_added ASC",
        SortOption::BookmarkAlphabeticalAscending => "title COLLATE NOCASE ASC",
        SortOption::BookmarkAlphabeticalDescending => "title COLLATE NOCASE DESC",
    }
}

/// The stored text of a bookmark's tags: joined with single spaces.
pub fn encode_tags(tags: &Vec<String>) -> (res: String)
    ensures
        res@ == join(texts(tags@), seq![' ']),
{
    let mut out: Vec<char> = Vec::new();
    let mut i: usize = tags.len();
    let ghost parts = texts(tags@);
    // built from the back: out == join(parts.skip(i))
    while i > 0
        invariant
            i <= tags@.len(),
            parts == texts(tags@),
            i < tags@.len() ==> out@ == join(parts.skip(i as int), seq![' ']),
            i == tags@.len() ==> out@.len() == 0,
        decreases i,
    {
        let mut next = chars_of(tags[i - 1].as_str());
        if i < tags.len() {
            next.push(' ');
            append_chars(&mut next, &out);
        }
        proof {
            let rest = parts.skip(i - 1);
            assert(rest[0] == parts[i - 1]);
            assert(rest.skip(1) =~= parts.skip(i as int));
            if i == tags@.len() {
                assert(rest.len() == 1);
            }
        }
        out = next;
        i -= 1;
    }
    proof {
        assert(parts.skip(0) =~= parts);
        if tags@.len() == 0 {
            assert(join(parts, seq![' ']) =~= Seq::<char>::empty());
        }
    }
    string_of(&out)
}

/// The tags of a stored text: none for an empty text, else the pieces
/// between single spaces, each trimmed.
pub open spec fn decode_tags_spec(s: Seq<char>) -> Seq<Seq<char>> {
    if s.len() == 0 {
        seq![]
    } else {
        split_char(s, ' ').map_values(|p: Seq<char>| trim(p))
    }
}

/// The tags of a stored text.
pub fn decode_tags(s: &str) -> (res: Vec<String>)
    ensures
        texts(res@) == decode_tags_spec(s@),
{
    let v = chars_of(s);
    let mut res: Vec<String> = Vec::new();
    if v.len() == 0 {
        assert(texts(res@) =~= decode_tags_spec(s@));
        return res;
    }
    let pieces = split_exec(&v, ' ');
    let mut i: usize = 0;
    while i < pieces.len()
        invariant
            i <= pieces@.len(),
            texts(pieces@) == split_char(v@, ' '),
            v@ == s@,
            texts(res@) == texts(pieces@).take(i as int).map_values(|p: Seq<char>| trim(p)),
        decreases pieces.len() - i,
    {
        let t = trim_exec(&chars_of(pieces[i].as_str()));
        let ghost before = res@;
        res.push(string_of(&t));
        proof {
            assert(texts(res@) =~= texts(before).push(trim(pieces@[i as int]@)));
            assert(texts(pieces@)[i as int] == pieces@[i as int]@);
            assert(texts(res@) =~= texts(pieces@).take(i + 1).map_values(|p: Seq<char>| trim(p)));
        }
        i += 1;
    }
    proof {
        assert(texts(pieces@).take(pieces@.len() as int) =~= texts(pieces@));
    }
    res
}

/// Tags stored and read again come back unchanged, provided each is not
/// empty, holds no space and has no outer white space.
pub proof fn lemma_tags_storage_round_trip(tags: Seq<Seq<char>>)
    requires
        forall|i: int|
            0 <= i < tags.len() ==> #[trigger] tags[i].len() > 0 && !crate::text::has_char(
                tags[i],
                ' ',
            ) && no_outer_space(tags[i]),
    ensures
        decode_tags_spec(join(tags, seq![' '])) == tags,
{
    if tags.len() > 0 {
        lemma_split_join(tags, ' ');
        assert(join(tags, seq![' ']).len() > 0) by {
            lemma_join_starts(tags, seq![' ']);
        }
        assert forall|i: int| 0 <= i < tags.len() implies trim(#[trigger] tags[i]) == tags[i] by {
            lemma_trim_unchanged(tags[i]);
        }
        assert(tags.map_values(|p: Seq<char>| trim(p)) =~= tags);
    } else {
        assert(join(tags, seq![' ']) =~= Seq::<char>::empty());
        assert(decode_tags_spec(Seq::<char>::empty()) =~= tags);
    }
}

/// Joined parts begin with the first part.
proof fn lemma_join_starts(parts: Seq<Seq<char>>, sep: Seq<char>)
    requires
        parts.len() > 0,
    ensures
        join(parts, sep).len() >= parts[0].len(),
{
    if parts.len() > 1 {
        assert(join(parts, sep) == parts[0] + sep + join(parts.skip(1), sep));
    }
}

/// The stored row that a bookmark's new values replace: its own row when it
/// has a local identifier; otherwise the row of the same account with the
/// same identifier on the instance.
#[derive(Debug, Clone, Copy, PartialEq, Eq, Structural)]
pub enum StoredBookmarkKey {
    Row(i64),
    Instance { account_id: Option<i64>, instance_id: Option<i64> },
}

/// The row that a bookmark's new values replace.
pub fn stored_bookmark_key(bookmark: &Bookmark) -> (res: StoredBookmarkKey)
    ensures
        res == (match bookmark.id {
            Some(id) => StoredBookmarkKey::Row(id),
            None => StoredBookmarkKey::Instance {
                account_id: bookmark.user_account_id,
                instance_id: bookmark.linkding_internal_id,
            },
        }),
{
    match bookmark.id {
        Some(id) => StoredBookmarkKey::Row(id),
        None => StoredBookmarkKey::Instance {
            account_id: bookmark.user_account_id,
            instance_id: bookmark.linkding_internal_id,
        },
    }
}

} // verus!
