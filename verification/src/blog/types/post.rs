//! Posts and their excerpts.

use vstd::prelude::*;
use vstd::string::*;
use crate::text::{
    before_first,
    concat2,
    concat3,
    parse_u32,
    parsed_u32,
    piece_before,
    same_text,
    split,
    split_at,
};

verus! {

/// A picture or other medium embedded in a post.
#[derive(Debug, PartialEq)]
pub struct PostMedia {
    pub class: String,
    pub source: String,
    pub title: String,
    pub caption: String,
}

/// What a `PostMedia` holds.
pub struct PostMediaView {
    pub class: Seq<char>,
    pub source: Seq<char>,
    pub title: Seq<char>,
    pub caption: Seq<char>,
}

impl View for PostMedia {
    type V = PostMediaView;

    open spec fn view(&self) -> PostMediaView {
        PostMediaView {
            class: self.class@,
            source: self.source@,
            title: self.title@,
            caption: self.caption@,
        }
    }
}

impl DeepView for PostMedia {
    type V = PostMediaView;

    open spec fn deep_view(&self) -> PostMediaView {
        self@
    }
}

/// A place that a post speaks of. The store carries the coordinates through
/// as the bit patterns of single-precision numbers and never reads them.
#[derive(Debug, PartialEq)]
pub struct PostLocation {
    pub title: String,
    pub desc: String,
    pub lat: u32,
    pub lng: u32,
    pub typ: String,
}

/// A post as the persistence layer hands it over.
#[derive(Debug, PartialEq)]
pub struct Post {
    pub id: u32,
    pub author_name: String,
    pub author_home_post: u32,
    pub date_posted: u64,
    pub date_modified: u64,
    pub state: String,
    pub title: String,
    pub content: String,
    pub meta_title: String,
    pub meta_description: String,
    pub meta_keywords: Vec<String>,
    pub url_canonical: String,
    pub url_historic: Vec<String>,
    pub tags: Vec<String>,
    pub media: Vec<PostMedia>,
    pub locations: Vec<PostLocation>,
    pub related_posts: Vec<u32>,
}

/// What a `Post` holds.
pub struct PostView {
    pub id: u32,
    pub author_name: Seq<char>,
    pub author_home_post: u32,
    pub date_posted: u64,
    pub date_modified: u64,
    pub state: Seq<char>,
    pub title: Seq<char>,
    pub content: Seq<char>,
    pub meta_title: Seq<char>,
    pub meta_description: Seq<char>,
    pub meta_keywords: Seq<Seq<char>>,
    pub url_canonical: Seq<char>,
    pub url_historic: Seq<Seq<char>>,
    pub tags: Seq<Seq<char>>,
    pub media: Seq<PostMediaView>,
    pub locations: Seq<PostLocation>,
    pub related_posts: Seq<u32>,
}

impl View for Post {
    type V = PostView;

    open spec fn view(&self) -> PostView {
        PostView {
            id: self.id,
            author_name: self.author_name@,
            author_home_post: self.author_home_post,
            date_posted: self.date_posted,
            date_modified: self.date_modified,
            state: self.state@,
            title: self.title@,
            content: self.content@,
            meta_title: self.meta_title@,
            meta_description: self.meta_description@,
            meta_keywords: self.meta_keywords.deep_view(),
            url_canonical: self.url_canonical@,
            url_historic: self.url_historic.deep_view(),
            tags: self.tags.deep_view(),
            media: self.media.deep_view(),
            locations: self.locations@,
            related_posts: self.related_posts@,
        }
    }
}

impl DeepView for Post {
    type V = PostView;

    open spec fn deep_view(&self) -> PostView {
        self@
    }
}

/// The short form of a post that list pages show.
#[derive(Debug, PartialEq)]
pub struct PostExcerpt {
    pub id: u32,
    pub author: String,
    pub date_posted: u64,
    pub title: String,
    pub content: String,
    pub content_full: String,
    pub url_canonical: String,
    pub thumbnail: String,
}

/// What a `PostExcerpt` holds.
pub struct PostExcerptView {
    pub id: u32,
    pub author: Seq<char>,
    pub date_posted: u64,
    pub title: Seq<char>,
    pub content: Seq<char>,
    pub content_full: Seq<char>,
    pub url_canonical: Seq<char>,
    pub thumbnail: Seq<char>,
}

impl View for PostExcerpt {
    type V = PostExcerptView;

    open spec fn view(&self) -> PostExcerptView {
        PostExcerptView {
            id: self.id,
            author: self.author@,
            date_posted: self.date_posted,
            title: self.title@,
            content: self.content@,
            content_full: self.content_full@,
            url_canonical: self.url_canonical@,
            thumbnail: self.thumbnail@,
        }
    }
}

impl DeepView for PostExcerpt {
    type V = PostExcerptView;

    open spec fn deep_view(&self) -> PostExcerptView {
        self@
    }
}

impl Clone for PostExcerpt {
    fn clone(&self) -> (r: Self)
        ensures
            r@ == self@,
    {
        PostExcerpt {
            id: self.id,
            author: self.author.clone(),
            date_posted: self.date_posted,
            title: self.title.clone(),
            content: self.content.clone(),
            content_full: self.content_full.clone(),
            url_canonical: self.url_canonical.clone(),
            thumbnail: self.thumbnail.clone(),
        }
    }
}

/// A post as the admin list shows it.
#[derive(Debug, PartialEq)]
pub struct AdminPostExcerpt {
    pub id: u32,
    pub author: String,
    pub date_posted: u64,
    pub date_modified: u64,
    pub state: String,
    pub title: String,
    pub meta_title: String,
    pub meta_description: String,
    pub url_canonical: String,
    pub tags: Option<Vec<String>>,
}

/// The mark in a post's content up to which the excerpt reads.
pub open spec fn more_mark() -> Seq<char> {
    "<!--more-->"@
}

/// The picture shown where a post has no featured medium.
pub open spec fn default_thumbnail() -> Seq<char> {
    "/gallery/not_found.png"@
}

/// The class of the medium that serves as a post's thumbnail.
pub open spec fn featured_class() -> Seq<char> {
    "featured"@
}

/// The source of the first featured medium at or after index `from`.
pub open spec fn thumbnail_from(media: Seq<PostMediaView>, from: int) -> Seq<char>
    decreases media.len() - from,
{
    if from < 0 || from >= media.len() {
        default_thumbnail()
    } else if media[from].class == featured_class() {
        media[from].source
    } else {
        thumbnail_from(media, from + 1)
    }
}

/// The excerpt of a post: its content up to the more-mark, closed by `</p>`,
/// and the source of its first featured medium as thumbnail.
pub open spec fn excerpt_of(p: PostView) -> PostExcerptView {
    PostExcerptView {
        id: p.id,
        author: p.author_name,
        date_posted: p.date_posted,
        title: p.title,
        content: before_first(p.content, more_mark()) + "</p>"@,
        content_full: p.content,
        url_canonical: p.url_canonical,
        thumbnail: thumbnail_from(p.media, 0),
    }
}

impl Post {
    /// The excerpt of this post.
    pub fn get_excerpt(&self) -> (r: PostExcerpt)
        ensures
            r@ == excerpt_of(self@),
    {
        let head = piece_before(self.content.as_str(), "<!--more-->");
        let content = concat2(head.as_str(), "</p>");
        let mut thumbnail = String::from_str("/gallery/not_found.png");
        let mut i: usize = 0;
        while i < self.media.len()
            invariant_except_break
                i <= self.media.len(),
                thumbnail_from(self@.media, 0) == thumbnail_from(self@.media, i as int),
                thumbnail@ == default_thumbnail(),
            ensures
                thumbnail@ == thumbnail_from(self@.media, 0),
            decreases self.media.len() - i,
        {
            assert(self@.media[i as int] == self.media@[i as int]@);
            if same_text(self.media[i].class.as_str(), "featured") {
                thumbnail = self.media[i].source.clone();
                break;
            }
            i = i + 1;
        }
        PostExcerpt {
            id: self.id,
            author: self.author_name.clone(),
            date_posted: self.date_posted,
            title: self.title.clone(),
            content,
            content_full: self.content.clone(),
            url_canonical: self.url_canonical.clone(),
            thumbnail,
        }
    }
}

/// The author under whose id a post is stored: the number that the post
/// names as its author, else the first user.
pub open spec fn author_of(p: PostView) -> u32 {
    match parsed_u32(p.author_name) {
        Some(id) => id,
        None => 1,
    }
}

impl Post {
    /// Whether this post was never stored: it has no id yet.
    pub fn is_new(&self) -> (r: bool)
        ensures
            r == (self.id == 0),
    {
        self.id == 0
    }

    /// The id of the author to store this post under. The admin panel sends
    /// the author's id in place of the name.
    pub fn author_id(&self) -> (r: u32)
        ensures
            r == author_of(self@),
    {
        match parse_u32(self.author_name.as_str()) {
            Some(id) => id,
            None => 1,
        }
    }

    /// The id of this post once stored, where storing a new row gave the id
    /// `last_insert_id`: that id for a new post, else the post's own.
    pub fn stored_id(&self, last_insert_id: u64) -> (r: u64)
        ensures
            r == (if self.id == 0 {
                last_insert_id
            } else {
                self.id as u64
            }),
    {
        if self.id == 0 {
            last_insert_id
        } else {
            self.id as u64
        }
    }
}

/// A search for posts, ready to be run: the query with its placeholders,
/// and the value for each of them.
#[derive(Debug, PartialEq)]
pub struct SearchQuery {
    pub query: String,
    pub params: Vec<String>,
}

/// The number of words of a search that count.
pub open spec fn search_word_limit() -> nat {
    10
}

/// The words of a search that count: the pieces between its blanks, as far
/// as the limit allows.
pub open spec fn search_words(search: Seq<char>) -> Seq<Seq<char>> {
    let words = split_at(search, ' ');
    if words.len() > search_word_limit() {
        words.take(search_word_limit() as int)
    } else {
        words
    }
}

/// The condition that the column `column` is like each of `n` words.
pub open spec fn like_all(column: Seq<char>, n: nat) -> Seq<char>
    decreases n,
{
    if n == 0 {
        Seq::empty()
    } else if n == 1 {
        column + " LIKE ?"@
    } else {
        like_all(column, (n - 1) as nat) + " AND "@ + column + " LIKE ?"@
    }
}

/// The value for a placeholder that a word is looked for with: the word
/// between two wildcards.
pub open spec fn like_value(word: Seq<char>) -> Seq<char> {
    "%"@ + word + "%"@
}

/// The query that finds the posts whose title, or whose content, holds all
/// of `n` words, newest first.
pub open spec fn search_statement(n: nat) -> Seq<char> {
    "SELECT id FROM posts WHERE ("@ + like_all("title"@, n) + ") OR ("@ + like_all(
        "content"@,
        n,
    ) + ") ORDER BY id DESC "@
}

/// The values for the placeholders of the query for `words`: one for each
/// word, once for the title and once more for the content.
pub open spec fn search_values(words: Seq<Seq<char>>) -> Seq<Seq<char>> {
    words.map_values(|w: Seq<char>| like_value(w)) + words.map_values(
        |w: Seq<char>| like_value(w),
    )
}

/// The search for the posts that hold every word of `search_string`.
pub fn fetch_posts_by_search_string(search_string: &str) -> (r: SearchQuery)
    ensures
        r.query@ == search_statement(search_words(search_string@).len()),
        r.params.deep_view() == search_values(search_words(search_string@)),
{
    let words = split(search_string, ' ');
    let ghost all = search_words(search_string@);
    let count: usize = if words.len() > 10 {
        10
    } else {
        words.len()
    };
    let mut title = String::new();
    let mut content = String::new();
    let mut params: Vec<String> = Vec::new();
    let mut i: usize = 0;
    assert(params.deep_view() =~= all.take(0).map_values(|w: Seq<char>| like_value(w)));
    while i < count
        invariant
            i <= count <= words.len(),
            count == all.len(),
            forall|k: int| 0 <= k < count ==> all[k] == words@[k]@,
            title@ == like_all("title"@, i as nat),
            content@ == like_all("content"@, i as nat),
            params.deep_view() == all.take(i as int).map_values(|w: Seq<char>| like_value(w)),
        decreases count - i,
    {
        let ghost before = params.deep_view();
        let value = concat3("%", words[i].as_str(), "%");
        params.push(value);
        assert(params.deep_view() =~= before.push(like_value(all[i as int])));
        assert(params.deep_view() =~= all.take(i + 1).map_values(
            |w: Seq<char>| like_value(w),
        ));
        if i == 0 {
            title = String::from_str("title LIKE ?");
            content = String::from_str("content LIKE ?");
            assert(title@ =~= "title"@ + " LIKE ?"@) by {
                reveal_strlit("title LIKE ?");
                reveal_strlit("title");
                reveal_strlit(" LIKE ?");
            }
            assert(content@ =~= "content"@ + " LIKE ?"@) by {
                reveal_strlit("content LIKE ?");
                reveal_strlit("content");
                reveal_strlit(" LIKE ?");
            }
        } else {
            title = concat3(title.as_str(), " AND ", "title");
            title = concat2(title.as_str(), " LIKE ?");
            content = concat3(content.as_str(), " AND ", "content");
            content = concat2(content.as_str(), " LIKE ?");
        }
        i = i + 1;
    }
    assert(all.take(count as int) =~= all);
    let ghost once = params.deep_view();
    let mut k: usize = 0;
    while k < count
        invariant
            k <= count,
            params.len() == count + k,
            forall|j: int| 0 <= j < count ==> #[trigger] params@[j]@ == once[j],
            forall|j: int| count <= j < count + k ==> #[trigger] params@[j]@ == once[j - count],
            once.len() == count,
        decreases count - k,
    {
        let copy = params[k].clone();
        params.push(copy);
        k = k + 1;
    }
    assert(params.deep_view() =~= once + once);
    let head = concat3("SELECT id FROM posts WHERE (", title.as_str(), ") OR (");
    let query = concat3(head.as_str(), content.as_str(), ") ORDER BY id DESC ");
    SearchQuery { query, params }
}

/// A post as a row of the database gives it. A list that is stored as text
/// is here as it was decoded, or `None` where the text did not decode.
#[derive(Debug, PartialEq)]
pub struct PostRow {
    pub id: u32,
    pub author_name: String,
    pub author_home_post: u32,
    pub date_posted: u64,
    pub date_modified: u64,
    pub state: String,
    pub title: String,
    pub content: String,
    pub meta_title: String,
    pub meta_description: String,
    pub meta_keywords: Option<Vec<String>>,
    pub url_canonical: String,
    pub url_historic: Option<Vec<String>>,
    pub tags: Option<Vec<String>>,
    pub media: Option<Vec<PostMedia>>,
    pub locations: Option<Vec<PostLocation>>,
    pub related_posts: Option<Vec<u32>>,
}

impl PostRow {
    /// Every list of the row was decoded.
    pub open spec fn decoded(self) -> bool {
        self.meta_keywords is Some && self.url_historic is Some && self.tags is Some
            && self.media is Some && self.locations is Some && self.related_posts is Some
    }

    /// The post that the row holds, where every list was decoded.
    pub open spec fn post(self) -> Post {
        Post {
            id: self.id,
            author_name: self.author_name,
            author_home_post: self.author_home_post,
            date_posted: self.date_posted,
            date_modified: self.date_modified,
            state: self.state,
            title: self.title,
            content: self.content,
            meta_title: self.meta_title,
            meta_description: self.meta_description,
            meta_keywords: self.meta_keywords->0,
            url_canonical: self.url_canonical,
            url_historic: self.url_historic->0,
            tags: self.tags->0,
            media: self.media->0,
            locations: self.locations->0,
            related_posts: self.related_posts->0,
        }
    }
}

impl Post {
    /// The post that a row holds. A row of which a list did not decode
    /// holds none: the record is passed over, and the load goes on.
    pub fn from_sql(row: PostRow) -> (r: Option<Post>)
        ensures
            r is Some <==> row.decoded(),
            r matches Some(p) ==> p == row.post(),
    {
        let meta_keywords = row.meta_keywords?;
        let url_historic = row.url_historic?;
        let tags = row.tags?;
        let media = row.media?;
        let locations = row.locations?;
        let related_posts = row.related_posts?;
        Some(
            Post {
                id: row.id,
                author_name: row.author_name,
                author_home_post: row.author_home_post,
                date_posted: row.date_posted,
                date_modified: row.date_modified,
                state: row.state,
                title: row.title,
                content: row.content,
                meta_title: row.meta_title,
                meta_description: row.meta_description,
                meta_keywords,
                url_canonical: row.url_canonical,
                url_historic,
                tags,
                media,
                locations,
                related_posts,
            },
        )
    }
}

} // verus!
