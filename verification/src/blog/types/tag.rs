//! Tags and what is shown on their listing pages.

use vstd::prelude::*;
use vstd::string::*;
use crate::text::{
    lemma_text_lt_irreflexive,
    lemma_text_lt_total,
    lemma_text_lt_transitive,
    precedes,
    same_text,
    text_lt,
};

verus! {

/// A picture or other medium shown with a tag.
#[derive(Debug, PartialEq)]
pub struct TagMedia {
    pub class: String,
    pub source: String,
    pub title: String,
    pub caption: String,
}

/// A tag with its own page content.
#[derive(Debug, PartialEq)]
pub struct Tag {
    pub id: String,
    pub title: String,
    pub content: String,
    pub meta_title: String,
    pub meta_description: String,
    pub media: Vec<TagMedia>,
}

/// A tag as the admin list shows it.
#[derive(Debug, PartialEq)]
pub struct AdminTagExcerpt {
    pub id: String,
    pub title: String,
    pub content: String,
    pub meta_title: String,
    pub meta_description: String,
}

/// What an `AdminTagExcerpt` holds.
pub struct AdminTagExcerptView {
    pub id: Seq<char>,
    pub title: Seq<char>,
    pub content: Seq<char>,
    pub meta_title: Seq<char>,
    pub meta_description: Seq<char>,
}

impl View for AdminTagExcerpt {
    type V = AdminTagExcerptView;

    open spec fn view(&self) -> AdminTagExcerptView {
        AdminTagExcerptView {
            id: self.id@,
            title: self.title@,
            content: self.content@,
            meta_title: self.meta_title@,
            meta_description: self.meta_description@,
        }
    }
}

impl DeepView for AdminTagExcerpt {
    type V = AdminTagExcerptView;

    open spec fn deep_view(&self) -> AdminTagExcerptView {
        self@
    }
}

/// The entry for a tag that posts use and of which nothing more is stored.
pub open spec fn bare_tag(id: Seq<char>) -> AdminTagExcerptView {
    AdminTagExcerptView {
        id,
        title: Seq::empty(),
        content: Seq::empty(),
        meta_title: Seq::empty(),
        meta_description: Seq::empty(),
    }
}

/// The stored tags by id: of two with one id the later stays.
pub open spec fn stored_tags(rows: Seq<AdminTagExcerptView>) -> Map<Seq<char>, AdminTagExcerptView>
    decreases rows.len(),
{
    if rows.len() == 0 {
        Map::empty()
    } else {
        stored_tags(rows.drop_last()).insert(rows.last().id, rows.last())
    }
}

/// `known` with a bare entry for each of the tags `in_use` that it lacks.
pub open spec fn with_tags_in_use(
    known: Map<Seq<char>, AdminTagExcerptView>,
    in_use: Seq<Seq<char>>,
) -> Map<Seq<char>, AdminTagExcerptView>
    decreases in_use.len(),
{
    if in_use.len() == 0 {
        known
    } else {
        let before = with_tags_in_use(known, in_use.drop_last());
        if before.contains_key(in_use.last()) {
            before
        } else {
            before.insert(in_use.last(), bare_tag(in_use.last()))
        }
    }
}

/// `list` holds the entries of `known`, each once, in the order of their
/// ids.
pub open spec fn lists_in_order(
    list: Seq<AdminTagExcerptView>,
    known: Map<Seq<char>, AdminTagExcerptView>,
) -> bool {
    &&& forall|i: int, j: int|
        0 <= i < j < list.len() ==> text_lt(#[trigger] list[i].id, #[trigger] list[j].id)
    &&& forall|i: int|
        0 <= i < list.len() ==> known.contains_key(#[trigger] list[i].id) && known[list[i].id]
            == list[i]
    &&& forall|k: Seq<char>|
        known.contains_key(k) ==> exists|i: int| 0 <= i < list.len() && #[trigger] list[i].id == k
}

/// Puts `item` at its place in the ordered `list`. Where an entry with its
/// id is there already, `replace` says which of the two stays.
fn put_in_order(list: &mut Vec<AdminTagExcerpt>, item: AdminTagExcerpt, replace: bool, Ghost(known): Ghost<
    Map<Seq<char>, AdminTagExcerptView>,
>)
    requires
        lists_in_order(old(list).deep_view(), known),
    ensures
        lists_in_order(
            final(list).deep_view(),
            if known.contains_key(item@.id) && !replace {
                known
            } else {
                known.insert(item@.id, item@)
            },
        ),
{
    let ghost before = list.deep_view();
    let ghost id = item@.id;
    let mut p: usize = 0;
    while p < list.len() && precedes(list[p].id.as_str(), item.id.as_str())
        invariant
            p <= list.len(),
            before == list.deep_view(),
            id == item@.id,
            forall|i: int| 0 <= i < p ==> text_lt(#[trigger] before[i].id, id),
        decreases list.len() - p,
    {
        assert(before[p as int] == list@[p as int]@);
        p = p + 1;
    }
    let here = p < list.len() && same_text(list[p].id.as_str(), item.id.as_str());
    proof {
        if p < list.len() {
            assert(before[p as int] == list@[p as int]@);
            lemma_text_lt_total(before[p as int].id, id);
        }
        // all that follows the place comes after the item
        assert forall|j: int| p < j < before.len() implies text_lt(id, #[trigger] before[j].id) by {
            if before[p as int].id != id {
                lemma_text_lt_transitive(id, before[p as int].id, before[j].id);
            }
        }
        // the item's id is in the list only at the place, if at all
        assert forall|i: int| 0 <= i < before.len() && i != p implies #[trigger] before[i].id
            != id by {
            lemma_text_lt_irreflexive(id);
        }
        if known.contains_key(id) {
            let i = choose|i: int| 0 <= i < before.len() && before[i].id == id;
            assert(i == p);
        }
    }
    if here {
        if replace {
            let ghost new_item = item@;
            list.set(p, item);
            proof {
                let after = list.deep_view();
                let m = known.insert(id, new_item);
                assert forall|i: int| 0 <= i < after.len() implies #[trigger] after[i]
                    == (if i == p {
                    new_item
                } else {
                    before[i]
                }) by {
                    assert(after[i] == list@[i]@);
                    if i != p {
                        assert(before[i] == old(list)@[i]@);
                    }
                }
                assert forall|k: Seq<char>| m.contains_key(k) implies exists|i: int|
                    0 <= i < after.len() && #[trigger] after[i].id == k by {
                    if k == id {
                        assert(after[p as int].id == k);
                    } else {
                        let i = choose|i: int| 0 <= i < before.len() && before[i].id == k;
                        assert(after[i].id == k);
                    }
                }
            }
        }
    } else {
        let ghost new_item = item@;
        proof {
            if p < before.len() {
                assert(before[p as int].id != id);
            }
            assert(!known.contains_key(id)) by {
                if known.contains_key(id) {
                    let i = choose|i: int| 0 <= i < before.len() && before[i].id == id;
                    assert(i == p);
                }
            }
        }
        list.insert(p, item);
        proof {
            let after = list.deep_view();
            let m = known.insert(id, new_item);
            assert forall|i: int| 0 <= i < after.len() implies #[trigger] after[i] == (if i < p {
                before[i]
            } else if i == p {
                new_item
            } else {
                before[i - 1]
            }) by {
                assert(after[i] == list@[i]@);
                if i < p {
                    assert(before[i] == old(list)@[i]@);
                } else if i > p {
                    assert(before[i - 1] == old(list)@[i - 1]@);
                }
            }
            assert forall|i: int, j: int| 0 <= i < j < after.len() implies text_lt(
                #[trigger] after[i].id,
                #[trigger] after[j].id,
            ) by {
                if j < p {
                } else if j == p {
                } else if i < p {
                    assert(text_lt(before[i].id, before[j - 1].id)) by {
                        if j - 1 == p {
                            if i < p {
                                lemma_text_lt_transitive(before[i].id, id, before[p as int].id);
                            }
                        }
                    }
                } else if i == p {
                    if j - 1 == p {
                    } else {
                        assert(text_lt(id, before[j - 1].id));
                    }
                } else {
                    assert(text_lt(before[i - 1].id, before[j - 1].id));
                }
            }
            assert forall|k: Seq<char>| m.contains_key(k) implies exists|i: int|
                0 <= i < after.len() && #[trigger] after[i].id == k by {
                if k == id {
                    assert(after[p as int].id == k);
                } else {
                    let i = choose|i: int| 0 <= i < before.len() && before[i].id == k;
                    if i < p {
                        assert(after[i].id == k);
                    } else {
                        assert(after[i + 1].id == k);
                    }
                }
            }
        }
    }
}

/// The list of tags that the admin panel shows, given the stored tags, or
/// that their load failed: every stored tag, and a bare entry for every tag
/// in use of which nothing is stored, in the order of their ids.
pub fn admin_fetch_tag_list(rows: Option<Vec<AdminTagExcerpt>>, in_use_tags: &Vec<String>) -> (r:
    Option<Vec<AdminTagExcerpt>>)
    ensures
        r is Some <==> rows is Some,
        r matches Some(list) ==> lists_in_order(
            list.deep_view(),
            with_tags_in_use(stored_tags(rows->0.deep_view()), in_use_tags.deep_view()),
        ),
{
    let rows = match rows {
        Some(rows) => rows,
        None => {
            return None;
        },
    };
    let ghost all = rows.deep_view();
    let ghost all_rows = rows@;
    let count = rows.len();
    let mut rest = crate::lists::reversed(rows);
    let mut tags: Vec<AdminTagExcerpt> = Vec::new();
    let mut i: usize = 0;
    assert(all_rows.skip(0) =~= all_rows);
    assert(tags.deep_view() =~= Seq::empty());
    while i < count
        invariant
            i <= count == all_rows.len(),
            all.len() == all_rows.len(),
            forall|k: int| 0 <= k < all.len() ==> all[k] == all_rows[k]@,
            rest@ == all_rows.skip(i as int).reverse(),
            lists_in_order(tags.deep_view(), stored_tags(all.take(i as int))),
        decreases count - i,
    {
        let row = crate::lists::take_next(&mut rest, Ghost(all_rows), Ghost(i as int));
        proof {
            assert(all.take(i + 1).drop_last() =~= all.take(i as int));
            assert(all.take(i + 1).last() == row@);
        }
        put_in_order(&mut tags, row, true, Ghost(stored_tags(all.take(i as int))));
        i = i + 1;
    }
    assert(all.take(count as int) =~= all);
    let ghost used = in_use_tags.deep_view();
    let mut j: usize = 0;
    while j < in_use_tags.len()
        invariant
            j <= in_use_tags.len(),
            used == in_use_tags.deep_view(),
            lists_in_order(
                tags.deep_view(),
                with_tags_in_use(stored_tags(all), used.take(j as int)),
            ),
        decreases in_use_tags.len() - j,
    {
        proof {
            assert(used.take(j + 1).drop_last() =~= used.take(j as int));
            assert(used.take(j + 1).last() == in_use_tags@[j as int]@);
        }
        let bare = AdminTagExcerpt {
            id: in_use_tags[j].clone(),
            title: String::new(),
            content: String::new(),
            meta_title: String::new(),
            meta_description: String::new(),
        };
        assert(bare@ == bare_tag(in_use_tags@[j as int]@));
        put_in_order(
            &mut tags,
            bare,
            false,
            Ghost(with_tags_in_use(stored_tags(all), used.take(j as int))),
        );
        j = j + 1;
    }
    assert(used.take(in_use_tags.len() as int) =~= used);
    Some(tags)
}

/// A tag as a row of the database gives it, its media as they were decoded,
/// or `None` where their text did not decode.
#[derive(Debug, PartialEq)]
pub struct TagRow {
    pub id: String,
    pub title: String,
    pub content: String,
    pub meta_title: String,
    pub meta_description: String,
    pub media: Option<Vec<TagMedia>>,
}

impl Tag {
    /// The tag that a row holds. A row whose media did not decode holds
    /// none: the record is passed over.
    pub fn from_sql(row: TagRow) -> (r: Option<Tag>)
        ensures
            r is Some <==> row.media is Some,
            r matches Some(t) ==> t == (Tag {
                id: row.id,
                title: row.title,
                content: row.content,
                meta_title: row.meta_title,
                meta_description: row.meta_description,
                media: row.media->0,
            }),
    {
        match row.media {
            Some(media) => Some(
                Tag {
                    id: row.id,
                    title: row.title,
                    content: row.content,
                    meta_title: row.meta_title,
                    meta_description: row.meta_description,
                    media,
                },
            ),
            None => None,
        }
    }
}

} // verus!
