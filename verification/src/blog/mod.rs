//! The content store: posts, tags, menus, redirects and comments in memory,
//! the indexes derived from them, the cache, and the buffer of view events.
//!
//! Each kind of content is replaced as a whole when it is loaded again: a
//! load that failed leaves the store as it was, one that succeeded leaves no
//! trace of what was there before.

pub mod cache;
pub mod context;
pub mod gallery;
pub mod pages;
pub mod routes;
pub mod sitemap;
pub mod types;

use std::collections::HashMap;
use vstd::prelude::*;
use vstd::hash_map::StringHashMap;
use vstd::string::*;
use crate::blog::cache::{Cache, CacheView};
use crate::blog::sitemap::{
    count_pages,
    location_of_post,
    page_count,
    post_locations,
    push_tag_locations,
    tag_locations,
    SiteMap,
    SiteMapUrl,
    SiteMapUrlView,
    SiteMapView,
};
use crate::blog::types::snippet::{substitute_snippets, with_snippets, Snippet, SnippetView};
use crate::blog::types::comment::Comment;
use crate::blog::types::menu::{Menu, MenuItem};
use crate::blog::types::post::{Post, PostExcerpt, PostExcerptView, PostView};
use crate::blog::types::redirect::Redirect;
use crate::blog::types::tag::Tag;
use crate::config::{config_get_count, config_get_string, count_setting, string_setting};
use crate::lists::{reversed, take_next};
use crate::blog::types::post::excerpt_of;
use crate::text::{
    concat2,
    concat3,
    decimal,
    decimal_string,
    lowercase,
    replace,
    replace_all,
    same_text,
};
use crate::utils::{InstagramPostCompact, PinterestPostCompact};

verus! {

/// What the store notes for later.
#[derive(Debug, PartialEq)]
pub enum BlogMessage {
    /// A post was viewed.
    PostView { post_id: u32, viewed_at: u64, remote_ip: String, user_agent: String, referer: String },
}

/// What was fetched for a round of maintenance; `None` for a fetch that
/// failed or was not made.
pub struct Fetched {
    /// The second social feed.
    pub pinterest: Option<Vec<PinterestPostCompact>>,
    /// The first social feed.
    pub instagram: Option<Vec<InstagramPostCompact>>,
    /// The ids of the latest posts.
    pub latest: Option<Vec<u32>>,
    /// The ids of the most viewed posts.
    pub featured: Option<Vec<u32>>,
}

/// Which fetches a round of maintenance needs.
#[derive(Debug, PartialEq)]
pub struct DueFetches {
    pub pinterest: bool,
    pub instagram: bool,
    pub latest: bool,
    pub featured: bool,
}

/// All that is loaded when the store starts.
pub struct Loaded<E> {
    pub posts: Result<Vec<Post>, E>,
    pub snippets: Option<Vec<Snippet>>,
    pub menus: Result<Vec<Menu>, E>,
    pub redirects: Result<Vec<Redirect>, E>,
    pub tags: Result<Vec<Tag>, E>,
    pub comments: Result<Vec<Comment>, E>,
}

/// What a store holds.
pub struct BlogView {
    /// The posts by id.
    pub posts: Map<u32, PostView>,
    /// The excerpt of each post, by id.
    pub excerpts: Map<u32, PostExcerptView>,
    /// The post that each canonical address, in lower case, belongs to.
    pub seo_urls: Map<Seq<char>, u32>,
    /// The post that each former address, in lower case, belongs to.
    pub seo_urls_historic: Map<Seq<char>, u32>,
    /// The comments of each post, in the order loaded.
    pub comments: Map<u32, Seq<Comment>>,
    /// The tags that have a page of their own, by id.
    pub tags: Map<Seq<char>, Tag>,
    /// The posts of each tag in use, in the order loaded.
    pub tag_posts: Map<Seq<char>, Seq<u32>>,
    /// The tags in use, in the order in which the posts first name them.
    pub tag_names: Seq<Seq<char>>,
    /// The menus by name.
    pub menus: Map<Seq<char>, Seq<MenuItem>>,
    /// The targets of the redirects, by name.
    pub redirects: Map<Seq<char>, Seq<char>>,
    /// The cache.
    pub cache: CacheView,
    /// The view events not yet flushed, oldest first.
    pub messages: Seq<BlogMessage>,
}

/// The menus of a load, by name: of two with one name the later stays.
pub open spec fn menus_table(menus: Seq<Menu>) -> Map<Seq<char>, Seq<MenuItem>>
    decreases menus.len(),
{
    if menus.len() == 0 {
        Map::empty()
    } else {
        menus_table(menus.drop_last()).insert(menus.last().name@, menus.last().items@)
    }
}

/// The redirects of a load, by name: of two with one name the later stays.
pub open spec fn redirects_table(redirects: Seq<Redirect>) -> Map<Seq<char>, Seq<char>>
    decreases redirects.len(),
{
    if redirects.len() == 0 {
        Map::empty()
    } else {
        redirects_table(redirects.drop_last()).insert(
            redirects.last().name@,
            redirects.last().target@,
        )
    }
}

/// The tags of a load, by id: of two with one id the later stays.
pub open spec fn tags_table(tags: Seq<Tag>) -> Map<Seq<char>, Tag>
    decreases tags.len(),
{
    if tags.len() == 0 {
        Map::empty()
    } else {
        tags_table(tags.drop_last()).insert(tags.last().id@, tags.last())
    }
}

/// The state of a post that is not served.
pub open spec fn draft_state() -> Seq<char> {
    "draft"@
}

/// The status of a comment that is served.
pub open spec fn approved_status() -> Seq<char> {
    "approved"@
}

/// The posts of a load that are served: all but the drafts, in their order.
pub open spec fn served_posts(posts: Seq<PostView>) -> Seq<PostView>
    decreases posts.len(),
{
    if posts.len() == 0 {
        Seq::empty()
    } else if posts.last().state == draft_state() {
        served_posts(posts.drop_last())
    } else {
        served_posts(posts.drop_last()).push(posts.last())
    }
}

/// The comments of a load that are served: the approved ones, in their
/// order.
pub open spec fn served_comments(comments: Seq<Comment>) -> Seq<Comment>
    decreases comments.len(),
{
    if comments.len() == 0 {
        Seq::empty()
    } else if comments.last().status@ == approved_status() {
        served_comments(comments.drop_last()).push(comments.last())
    } else {
        served_comments(comments.drop_last())
    }
}

/// No draft is served, and every post served was loaded.
pub proof fn lemma_served_posts(posts: Seq<PostView>)
    ensures
        served_posts(posts).len() <= posts.len(),
        forall|i: int|
            0 <= i < served_posts(posts).len() ==> (#[trigger] served_posts(posts)[i]).state
                != draft_state() && posts.contains(served_posts(posts)[i]),
        forall|i: int|
            0 <= i < posts.len() && posts[i].state != draft_state() ==> served_posts(
                posts,
            ).contains(#[trigger] posts[i]),
    decreases posts.len(),
{
    if posts.len() > 0 {
        let before = posts.drop_last();
        lemma_served_posts(before);
        assert forall|i: int| 0 <= i < served_posts(posts).len() implies (#[trigger] served_posts(
            posts,
        )[i]).state != draft_state() && posts.contains(served_posts(posts)[i]) by {
            if i < served_posts(before).len() {
                let k = choose|k: int| 0 <= k < before.len() && before[k] == served_posts(before)[i];
                assert(posts[k] == served_posts(posts)[i]);
            } else {
                assert(posts[posts.len() - 1] == served_posts(posts)[i]);
            }
        }
        assert forall|i: int|
            0 <= i < posts.len() && posts[i].state != draft_state() implies served_posts(
            posts,
        ).contains(#[trigger] posts[i]) by {
            if i < posts.len() - 1 {
                assert(before[i] == posts[i]);
                let k = choose|k: int|
                    0 <= k < served_posts(before).len() && served_posts(before)[k] == before[i];
                assert(served_posts(posts)[k] == posts[i]);
            } else {
                assert(served_posts(posts)[served_posts(posts).len() - 1] == posts[i]);
            }
        }
    }
}

/// The comments that `table` has for `post_id`; none where it knows none.
pub open spec fn comments_for(table: Map<u32, Seq<Comment>>, post_id: u32) -> Seq<Comment> {
    if table.contains_key(post_id) {
        table[post_id]
    } else {
        Seq::empty()
    }
}

/// The comments of a load, by the post they belong to, each post's in the
/// order loaded.
pub open spec fn comments_table(comments: Seq<Comment>) -> Map<u32, Seq<Comment>>
    decreases comments.len(),
{
    if comments.len() == 0 {
        Map::empty()
    } else {
        let before = comments_table(comments.drop_last());
        let c = comments.last();
        before.insert(c.post_id, comments_for(before, c.post_id).push(c))
    }
}

/// A post as the store keeps it: its placeholders replaced by the snippets
/// they name.
pub open spec fn loaded_post(p: PostView, snippets: Seq<SnippetView>) -> PostView {
    PostView { content: with_snippets(p.content, snippets), ..p }
}

/// The posts of a load, by id: of two with one id the later stays.
pub open spec fn posts_table(posts: Seq<PostView>, snippets: Seq<SnippetView>) -> Map<
    u32,
    PostView,
>
    decreases posts.len(),
{
    if posts.len() == 0 {
        Map::empty()
    } else {
        posts_table(posts.drop_last(), snippets).insert(
            posts.last().id,
            loaded_post(posts.last(), snippets),
        )
    }
}

/// The excerpts of the posts of a load, by id.
pub open spec fn excerpts_table(posts: Seq<PostView>, snippets: Seq<SnippetView>) -> Map<
    u32,
    PostExcerptView,
>
    decreases posts.len(),
{
    if posts.len() == 0 {
        Map::empty()
    } else {
        excerpts_table(posts.drop_last(), snippets).insert(
            posts.last().id,
            excerpt_of(loaded_post(posts.last(), snippets)),
        )
    }
}

/// The owner of each canonical address, in lower case: of two posts with one
/// address the one loaded later owns it.
pub open spec fn seo_index(posts: Seq<PostView>) -> Map<Seq<char>, u32>
    decreases posts.len(),
{
    if posts.len() == 0 {
        Map::empty()
    } else {
        seo_index(posts.drop_last()).insert(
            lowercase(posts.last().url_canonical),
            posts.last().id,
        )
    }
}

/// `table` with the former addresses `urls`, in lower case, owned by `id`.
pub open spec fn add_historic(table: Map<Seq<char>, u32>, urls: Seq<Seq<char>>, id: u32) -> Map<
    Seq<char>,
    u32,
>
    decreases urls.len(),
{
    if urls.len() == 0 {
        table
    } else {
        add_historic(table, urls.drop_last(), id).insert(lowercase(urls.last()), id)
    }
}

/// The owner of each former address, in lower case: of two posts with one
/// former address the one loaded later owns it.
pub open spec fn historic_index(posts: Seq<PostView>) -> Map<Seq<char>, u32>
    decreases posts.len(),
{
    if posts.len() == 0 {
        Map::empty()
    } else {
        add_historic(
            historic_index(posts.drop_last()),
            posts.last().url_historic,
            posts.last().id,
        )
    }
}

/// The tags in use and the posts of each.
pub struct TagIndex {
    /// The tags in the order in which the posts first name them.
    pub names: Seq<Seq<char>>,
    /// The posts of each tag, in the order loaded.
    pub lists: Map<Seq<char>, Seq<u32>>,
}

/// A tag as it stands in addresses: with a hyphen for every blank.
pub open spec fn encoded_tag(tag: Seq<char>) -> Seq<char> {
    replace_all(tag, " "@, "-"@)
}

/// The index with the post `id` under the tag `tag`.
pub open spec fn index_add(idx: TagIndex, tag: Seq<char>, id: u32) -> TagIndex {
    if idx.lists.contains_key(tag) {
        TagIndex { names: idx.names, lists: idx.lists.insert(tag, idx.lists[tag].push(id)) }
    } else {
        TagIndex { names: idx.names.push(tag), lists: idx.lists.insert(tag, seq![id]) }
    }
}

/// The index with the post `id` under each of `tags`.
pub open spec fn index_add_all(idx: TagIndex, tags: Seq<Seq<char>>, id: u32) -> TagIndex
    decreases tags.len(),
{
    if tags.len() == 0 {
        idx
    } else {
        index_add(index_add_all(idx, tags.drop_last(), id), encoded_tag(tags.last()), id)
    }
}

/// The tags of the posts of a load.
pub open spec fn tag_index(posts: Seq<PostView>) -> TagIndex
    decreases posts.len(),
{
    if posts.len() == 0 {
        TagIndex { names: Seq::empty(), lists: Map::empty() }
    } else {
        index_add_all(tag_index(posts.drop_last()), posts.last().tags, posts.last().id)
    }
}

/// The number of posts that `lists` has for `tag`.
pub open spec fn tag_size(lists: Map<Seq<char>, Seq<u32>>, tag: Seq<char>) -> nat {
    if lists.contains_key(tag) {
        lists[tag].len()
    } else {
        0
    }
}

/// The site map's addresses for the listing pages of the tags `names`.
pub open spec fn all_tag_locations(
    base: Seq<char>,
    names: Seq<Seq<char>>,
    lists: Map<Seq<char>, Seq<u32>>,
    per_page: u32,
    time: u64,
) -> Seq<SiteMapUrlView>
    decreases names.len(),
{
    if names.len() == 0 {
        Seq::empty()
    } else {
        all_tag_locations(base, names.drop_last(), lists, per_page, time) + tag_locations(
            base,
            names.last(),
            page_count(tag_size(lists, names.last()), per_page as nat),
            time,
        )
    }
}

/// The number of seconds by which the listing pages of the tags are dated
/// back: a week.
pub open spec fn tag_page_age() -> u64 {
    604800
}

/// The site map of a load at `now`: the address of every post, then the
/// listing pages of every tag in use, at as many posts a page as the setting
/// `posts_per_page` says, dated a week back.
pub open spec fn site_map_of(c: config::Config, now: u64, posts: Seq<PostView>) -> SiteMapView {
    let base = site_address(c) + "/"@;
    let idx = tag_index(posts);
    let time = if now >= tag_page_age() {
        (now - tag_page_age()) as u64
    } else {
        0
    };
    SiteMapView {
        content: Some(
            post_locations(base, posts) + all_tag_locations(
                base,
                idx.names,
                idx.lists,
                count_setting(c, "posts_per_page"@),
                time,
            ),
        ),
    }
}

/// The snippets of a load; none where it failed.
pub open spec fn snippets_of(loaded: Option<Vec<Snippet>>) -> Seq<SnippetView> {
    match loaded {
        Some(list) => list.deep_view(),
        None => Seq::empty(),
    }
}

/// The setting that names the `n`th tag whose excerpts are kept ready.
pub open spec fn tag_setting(n: u8) -> Seq<char> {
    "cached_tag_"@ + decimal(n as nat)
}

/// The number of excerpts kept ready for a tag, and of latest and most viewed
/// posts to ask for.
pub const READY_EXCERPTS: u32 = 8;

/// The number of excerpts kept ready for a tag.
pub open spec fn ready_excerpts() -> nat {
    READY_EXCERPTS as nat
}

/// The store after the events `events` were noted in turn.
pub open spec fn noted_all(v: BlogView, events: Seq<BlogMessage>) -> BlogView
    decreases events.len(),
{
    if events.len() == 0 {
        v
    } else {
        noted_all(v, events.drop_last()).noted(events.last())
    }
}

/// The address of the site itself: `https://`, then the setting `fqdn`.
pub open spec fn site_address(c: config::Config) -> Seq<char> {
    "https://"@ + string_setting(c, "fqdn"@)
}

/// The part `[page * size, page * size + size)` of `source`, cut at its end.
pub open spec fn page_slice(source: Seq<u32>, page: nat, size: nat) -> Seq<u32> {
    let start = if page * size < source.len() {
        page * size
    } else {
        source.len()
    };
    let end = if page * size + size < source.len() {
        page * size + size
    } else {
        source.len()
    };
    source.subrange(start as int, end as int)
}

/// The excerpts that `table` has for `keys`, in their order; a key without
/// an excerpt is passed over.
pub open spec fn excerpts_for(table: Map<u32, PostExcerptView>, keys: Seq<u32>) -> Seq<
    PostExcerptView,
>
    decreases keys.len(),
{
    if keys.len() == 0 {
        Seq::empty()
    } else if table.contains_key(keys.last()) {
        excerpts_for(table, keys.drop_last()).push(table[keys.last()])
    } else {
        excerpts_for(table, keys.drop_last())
    }
}

impl BlogView {
    /// The post that the address `url` leads to, 0 where it leads to none:
    /// the owner of the canonical address that `url` is in lower case, else
    /// the owner of the former address that it is in lower case.
    pub open spec fn post_for_url(self, url: Seq<char>) -> u32 {
        if self.seo_urls.contains_key(lowercase(url)) && self.seo_urls[lowercase(url)] != 0 {
            self.seo_urls[lowercase(url)]
        } else if self.seo_urls_historic.contains_key(lowercase(url)) {
            self.seo_urls_historic[lowercase(url)]
        } else {
            0
        }
    }

    /// The posts of `tag`; none where no post has it.
    pub open spec fn posts_of_tag(self, tag: Seq<char>) -> Seq<u32> {
        if self.tag_posts.contains_key(tag) {
            self.tag_posts[tag]
        } else {
            Seq::empty()
        }
    }

    /// The store with the tags in use and the site map of the posts `raw`.
    pub open spec fn with_sitemap_of(self, c: config::Config, now: u64, raw: Seq<PostView>) -> BlogView {
        BlogView {
            tag_posts: tag_index(raw).lists,
            tag_names: tag_index(raw).names,
            cache: self.cache.with_sitemap(site_map_of(c, now, raw)),
            ..self
        }
    }

    /// The store after the posts `loaded` were loaded at `now`: posts,
    /// excerpts, both address indexes, the tags in use and the site map are
    /// those of the posts served among them, and nothing of the posts before
    /// is left.
    pub open spec fn with_posts(
        self,
        c: config::Config,
        now: u64,
        loaded: Seq<PostView>,
        snippets: Seq<SnippetView>,
    ) -> BlogView {
        let raw = served_posts(loaded);
        BlogView {
            posts: posts_table(raw, snippets),
            excerpts: excerpts_table(raw, snippets),
            seo_urls: seo_index(raw),
            seo_urls_historic: historic_index(raw),
            ..self.with_sitemap_of(c, now, raw)
        }
    }

    /// The store with the menus of a load in place of its own.
    pub open spec fn with_menus(self, menus: Seq<Menu>) -> BlogView {
        BlogView { menus: menus_table(menus), ..self }
    }

    /// The store with the redirects of a load in place of its own.
    pub open spec fn with_redirects(self, redirects: Seq<Redirect>) -> BlogView {
        BlogView { redirects: redirects_table(redirects), ..self }
    }

    /// The store with the tags of a load in place of its own.
    pub open spec fn with_tags(self, tags: Seq<Tag>) -> BlogView {
        BlogView { tags: tags_table(tags), ..self }
    }

    /// The store with the approved comments of a load in place of its own.
    pub open spec fn with_comments(self, comments: Seq<Comment>) -> BlogView {
        BlogView { comments: comments_table(served_comments(comments)), ..self }
    }

    /// The store after an attempt to load the menus: as it was where the
    /// load failed.
    pub open spec fn menus_loaded<E>(self, loaded: Result<Vec<Menu>, E>) -> BlogView {
        match loaded {
            Ok(menus) => self.with_menus(menus@),
            Err(_) => self,
        }
    }

    /// The store after an attempt to load the redirects: as it was where the
    /// load failed.
    pub open spec fn redirects_loaded<E>(self, loaded: Result<Vec<Redirect>, E>) -> BlogView {
        match loaded {
            Ok(redirects) => self.with_redirects(redirects@),
            Err(_) => self,
        }
    }

    /// The store after an attempt to load the tags: as it was where the load
    /// failed.
    pub open spec fn tags_loaded<E>(self, loaded: Result<Vec<Tag>, E>) -> BlogView {
        match loaded {
            Ok(tags) => self.with_tags(tags@),
            Err(_) => self,
        }
    }

    /// The store after an attempt to load the comments: as it was where the
    /// load failed.
    pub open spec fn comments_loaded<E>(self, loaded: Result<Vec<Comment>, E>) -> BlogView {
        match loaded {
            Ok(comments) => self.with_comments(comments@),
            Err(_) => self,
        }
    }

    /// The excerpts kept ready for `tag`: those of its first posts.
    pub open spec fn tag_excerpts(self, tag: Seq<char>) -> Seq<PostExcerptView> {
        excerpts_for(self.excerpts, page_slice(self.posts_of_tag(tag), 0, ready_excerpts()))
    }

    /// The excerpts of the posts `ids`, where their fetch gave any.
    pub open spec fn excerpts_of_ids(self, ids: Option<Vec<u32>>) -> Option<Seq<PostExcerptView>> {
        match ids {
            Some(list) => Some(excerpts_for(self.excerpts, list@)),
            None => None,
        }
    }

    /// The store after the excerpts of the `n`th configured tag were
    /// refreshed at `now`.
    pub open spec fn with_tag_refreshed(self, c: config::Config, now: u64, n: u8) -> BlogView {
        let tag = string_setting(c, tag_setting(n));
        BlogView { cache: self.cache.with_tag(c, now, n, tag, self.tag_excerpts(tag)), ..self }
    }

    /// The store after the excerpts of the configured tags 1 to `n` were
    /// refreshed at `now`, one after the other.
    pub open spec fn with_tags_refreshed(self, c: config::Config, now: u64, n: nat) -> BlogView
        decreases n,
    {
        if n == 0 || n > 255 {
            self
        } else {
            self.with_tags_refreshed(c, now, (n - 1) as nat).with_tag_refreshed(c, now, n as u8)
        }
    }

    /// The store after every expiring entry of the cache was refreshed at
    /// `now` with what was fetched: the two social feeds, the latest and the
    /// most viewed posts, then the five configured tags. Each stands for
    /// itself: a fetch that failed leaves its entry alone and hinders no
    /// other.
    pub open spec fn refreshed_all(self, c: config::Config, now: u64, f: Fetched) -> BlogView {
        (BlogView {
            cache: self.cache.with_pinterest(c, now, f.pinterest.deep_view()).with_instagram(
                c,
                now,
                f.instagram.deep_view(),
            ).with_latest(c, now, self.excerpts_of_ids(f.latest)).with_featured(
                c,
                now,
                self.excerpts_of_ids(f.featured),
            ),
            ..self
        }).with_tags_refreshed(c, now, 5)
    }

    /// The store with its buffer of view events emptied.
    pub open spec fn drained(self) -> BlogView {
        BlogView { messages: Seq::empty(), ..self }
    }

    /// The store with one more view event noted.
    pub open spec fn noted(self, m: BlogMessage) -> BlogView {
        BlogView { messages: self.messages.push(m), ..self }
    }
}

/// Where an address is both the canonical address of one post and a former
/// address of another, it leads to the post whose canonical address it is.
pub proof fn lemma_canonical_precedes_historic(v: BlogView, url: Seq<char>)
    requires
        v.seo_urls.contains_key(lowercase(url)),
        v.seo_urls[lowercase(url)] != 0,
    ensures
        v.post_for_url(url) == v.seo_urls[lowercase(url)],
{
}

/// An address that is no post's canonical address, but some post's former
/// address, leads to that post, whatever the case it is asked in.
pub proof fn lemma_historic_address_leads_to_owner(v: BlogView, url: Seq<char>)
    requires
        !v.seo_urls.contains_key(lowercase(url)),
        v.seo_urls_historic.contains_key(lowercase(url)),
    ensures
        v.post_for_url(url) == v.seo_urls_historic[lowercase(url)],
{
}

/// A former address, in lower case, is in the index once it was put there,
/// and belongs to the post it was put under last.
pub proof fn lemma_add_historic(table: Map<Seq<char>, u32>, urls: Seq<Seq<char>>, id: u32, k: Seq<char>)
    ensures
        add_historic(table, urls, id).contains_key(k) <==> table.contains_key(k) || exists|j: int|
            0 <= j < urls.len() && lowercase(urls[j]) == k,
        (exists|j: int| 0 <= j < urls.len() && lowercase(urls[j]) == k) ==> add_historic(
            table,
            urls,
            id,
        )[k] == id,
        !(exists|j: int| 0 <= j < urls.len() && lowercase(urls[j]) == k) && table.contains_key(k)
            ==> add_historic(table, urls, id)[k] == table[k],
    decreases urls.len(),
{
    if urls.len() > 0 {
        let before = urls.drop_last();
        lemma_add_historic(table, before, id, k);
        if exists|j: int| 0 <= j < urls.len() && lowercase(urls[j]) == k {
            let j = choose|j: int| 0 <= j < urls.len() && lowercase(urls[j]) == k;
            if j < urls.len() - 1 {
                assert(lowercase(before[j]) == k);
            }
        }
        if exists|j: int| 0 <= j < before.len() && lowercase(before[j]) == k {
            let j = choose|j: int| 0 <= j < before.len() && lowercase(before[j]) == k;
            assert(lowercase(urls[j]) == k);
        }
        if lowercase(urls.last()) == k {
            assert(lowercase(urls[urls.len() - 1]) == k);
        }
    }
}

/// A former address belongs to the last post of a load that has it,
/// whatever its case.
pub proof fn lemma_historic_index_owner(posts: Seq<PostView>, i: int, h: int)
    requires
        0 <= i < posts.len(),
        0 <= h < posts[i].url_historic.len(),
        forall|j: int, g: int|
            i < j < posts.len() && 0 <= g < posts[j].url_historic.len() ==> lowercase(
                #[trigger] posts[j].url_historic[g],
            ) != lowercase(posts[i].url_historic[h]),
    ensures
        historic_index(posts).contains_key(lowercase(posts[i].url_historic[h])),
        historic_index(posts)[lowercase(posts[i].url_historic[h])] == posts[i].id,
    decreases posts.len(),
{
    let k = lowercase(posts[i].url_historic[h]);
    let last = posts.last();
    lemma_add_historic(historic_index(posts.drop_last()), last.url_historic, last.id, k);
    if i < posts.len() - 1 {
        lemma_historic_index_owner(posts.drop_last(), i, h);
        assert(!(exists|g: int| 0 <= g < last.url_historic.len() && lowercase(last.url_historic[g]) == k)) by {
            if exists|g: int| 0 <= g < last.url_historic.len() && lowercase(last.url_historic[g]) == k {
                let g = choose|g: int|
                    0 <= g < last.url_historic.len() && lowercase(last.url_historic[g]) == k;
                assert(lowercase(posts[posts.len() - 1].url_historic[g]) != k);
            }
        }
    } else {
        assert(lowercase(last.url_historic[h]) == k);
    }
}

/// A canonical address belongs to the last post of a load that has it,
/// whatever its case.
pub proof fn lemma_seo_index_owner(posts: Seq<PostView>, i: int)
    requires
        0 <= i < posts.len(),
        forall|j: int|
            i < j < posts.len() ==> lowercase(posts[j].url_canonical) != lowercase(
                posts[i].url_canonical,
            ),
    ensures
        seo_index(posts).contains_key(lowercase(posts[i].url_canonical)),
        seo_index(posts)[lowercase(posts[i].url_canonical)] == posts[i].id,
    decreases posts.len(),
{
    if i < posts.len() - 1 {
        lemma_seo_index_owner(posts.drop_last(), i);
    }
}

/// A load of posts makes a generation of its own: posts, excerpts, address
/// indexes and tags after it are those of the load alone, whatever the store
/// held before. A reader meets the store either before the load or after it,
/// and so either all of the old generation or all of the new one.
pub proof fn lemma_reload_replaces_generation(
    a: BlogView,
    b: BlogView,
    c: config::Config,
    now: u64,
    raw: Seq<PostView>,
    snippets: Seq<SnippetView>,
)
    ensures
        a.with_posts(c, now, raw, snippets).posts == b.with_posts(c, now, raw, snippets).posts,
        a.with_posts(c, now, raw, snippets).excerpts == b.with_posts(
            c,
            now,
            raw,
            snippets,
        ).excerpts,
        a.with_posts(c, now, raw, snippets).seo_urls == b.with_posts(
            c,
            now,
            raw,
            snippets,
        ).seo_urls,
        a.with_posts(c, now, raw, snippets).seo_urls_historic == b.with_posts(
            c,
            now,
            raw,
            snippets,
        ).seo_urls_historic,
        a.with_posts(c, now, raw, snippets).tag_posts == b.with_posts(
            c,
            now,
            raw,
            snippets,
        ).tag_posts,
        a.with_posts(c, now, raw, snippets).tag_names == b.with_posts(
            c,
            now,
            raw,
            snippets,
        ).tag_names,
        a.with_posts(c, now, raw, snippets).cache.lookup(crate::blog::cache::sitemap_key())
            == b.with_posts(c, now, raw, snippets).cache.lookup(
            crate::blog::cache::sitemap_key(),
        ),
{
}

/// Every post of a load is in the store after it, and no other.
pub proof fn lemma_posts_table_domain(posts: Seq<PostView>, snippets: Seq<SnippetView>, id: u32)
    ensures
        posts_table(posts, snippets).contains_key(id) <==> exists|i: int|
            0 <= i < posts.len() && posts[i].id == id,
        excerpts_table(posts, snippets).contains_key(id) <==> posts_table(
            posts,
            snippets,
        ).contains_key(id),
    decreases posts.len(),
{
    if posts.len() > 0 {
        lemma_posts_table_domain(posts.drop_last(), snippets, id);
        if posts_table(posts, snippets).contains_key(id) {
            if posts.last().id == id {
                assert(posts[posts.len() - 1].id == id);
            } else {
                let i = choose|i: int| 0 <= i < posts.len() - 1 && posts.drop_last()[i].id == id;
                assert(posts[i].id == id);
            }
        }
        if exists|i: int| 0 <= i < posts.len() && posts[i].id == id {
            let i = choose|i: int| 0 <= i < posts.len() && posts[i].id == id;
            if i < posts.len() - 1 {
                assert(posts.drop_last()[i].id == id);
            }
        }
    }
}

/// Refreshing the cache touches nothing but the cache.
pub proof fn lemma_refresh_touches_cache_only(v: BlogView, c: config::Config, now: u64, f: Fetched)
    ensures
        v.refreshed_all(c, now, f) == (BlogView { cache: v.refreshed_all(c, now, f).cache, ..v }),
{
    let start = BlogView {
        cache: v.cache.with_pinterest(c, now, f.pinterest.deep_view()).with_instagram(
            c,
            now,
            f.instagram.deep_view(),
        ).with_latest(c, now, v.excerpts_of_ids(f.latest)).with_featured(
            c,
            now,
            v.excerpts_of_ids(f.featured),
        ),
        ..v
    };
    lemma_tags_refresh_touches_cache_only(start, c, now, 5);
}

proof fn lemma_tags_refresh_touches_cache_only(v: BlogView, c: config::Config, now: u64, n: nat)
    ensures
        v.with_tags_refreshed(c, now, n) == (BlogView {
            cache: v.with_tags_refreshed(c, now, n).cache,
            ..v
        }),
    decreases n,
{
    reveal_with_fuel(BlogView::with_tags_refreshed, 2);
    if n != 0 && n <= 255 {
        lemma_tags_refresh_touches_cache_only(v, c, now, (n - 1) as nat);
    }
}

/// Events noted are kept in the order noted, behind those already there.
pub proof fn lemma_noted_all(v: BlogView, events: Seq<BlogMessage>)
    ensures
        noted_all(v, events) == (BlogView { messages: v.messages + events, ..v }),
    decreases events.len(),
{
    if events.len() == 0 {
        assert(v.messages + events =~= v.messages);
    } else {
        lemma_noted_all(v, events.drop_last());
        assert((v.messages + events.drop_last()).push(events.last()) =~= v.messages + events);
    }
}

/// After any number of views were noted in a store whose buffer was empty,
/// one round of maintenance hands exactly these views to be persisted, in
/// the order noted, and leaves the buffer empty.
pub proof fn lemma_views_are_flushed_once(
    v: BlogView,
    events: Seq<BlogMessage>,
    c: config::Config,
    now: u64,
    f: Fetched,
)
    requires
        v.messages.len() == 0,
    ensures
        noted_all(v, events).refreshed_all(c, now, f).messages == events,
        noted_all(v, events).refreshed_all(c, now, f).messages.len() == events.len(),
        noted_all(v, events).refreshed_all(c, now, f).drained().messages.len() == 0,
{
    lemma_noted_all(v, events);
    lemma_refresh_touches_cache_only(noted_all(v, events), c, now, f);
    assert(v.messages + events =~= events);
}

/// Every post and every excerpt in the store stands under its own id.
pub proof fn lemma_posts_table_ids(posts: Seq<PostView>, snippets: Seq<SnippetView>, id: u32)
    requires
        posts_table(posts, snippets).contains_key(id),
    ensures
        posts_table(posts, snippets)[id].id == id,
        excerpts_table(posts, snippets)[id].id == id,
    decreases posts.len(),
{
    lemma_posts_table_domain(posts, snippets, id);
    if posts.len() > 0 && posts.last().id != id {
        lemma_posts_table_domain(posts.drop_last(), snippets, id);
        lemma_posts_table_ids(posts.drop_last(), snippets, id);
    }
}

/// An index of tags is in order: it names each of its tags once, has a list
/// for each tag it names and for no other, and no list is empty.
pub open spec fn index_in_order(idx: TagIndex) -> bool {
    &&& idx.names.no_duplicates()
    &&& forall|t: Seq<char>| idx.lists.contains_key(t) <==> idx.names.contains(t)
    &&& forall|t: Seq<char>| idx.lists.contains_key(t) ==> (#[trigger] idx.lists[t]).len() > 0
}

proof fn lemma_index_add_in_order(idx: TagIndex, tag: Seq<char>, id: u32)
    requires
        index_in_order(idx),
    ensures
        index_in_order(index_add(idx, tag, id)),
{
    let after = index_add(idx, tag, id);
    assert forall|t: Seq<char>| after.lists.contains_key(t) <==> after.names.contains(t) by {
        if after.names.contains(t) {
            let i = choose|i: int| 0 <= i < after.names.len() && after.names[i] == t;
            if i < idx.names.len() {
                assert(idx.names[i] == t);
                assert(idx.names.contains(t));
                assert(idx.lists.contains_key(t));
            }
        }
        if after.lists.contains_key(t) {
            if t == tag && !idx.lists.contains_key(tag) {
                assert(after.names[idx.names.len() as int] == t);
            } else {
                assert(idx.lists.contains_key(t));
                assert(idx.names.contains(t));
                let i = choose|i: int| 0 <= i < idx.names.len() && idx.names[i] == t;
                assert(after.names[i] == t);
            }
        }
    }
    assert forall|t: Seq<char>| after.lists.contains_key(t) implies (#[trigger] after.lists[t]).len()
        > 0 by {
        if t != tag {
            assert(idx.lists.contains_key(t));
            assert(idx.lists[t].len() > 0);
        }
    }
    if !idx.lists.contains_key(tag) {
        assert(!idx.names.contains(tag));
        assert forall|i: int, j: int|
            0 <= i < after.names.len() && 0 <= j < after.names.len() && i != j implies after.names[i]
            != after.names[j] by {
            if i < idx.names.len() && j < idx.names.len() {
                assert(idx.names[i] != idx.names[j]);
            } else if i < idx.names.len() {
                assert(idx.names.contains(idx.names[i]));
            } else {
                assert(idx.names.contains(idx.names[j]));
            }
        }
    }
}

proof fn lemma_index_add_all_in_order(idx: TagIndex, tags: Seq<Seq<char>>, id: u32)
    requires
        index_in_order(idx),
    ensures
        index_in_order(index_add_all(idx, tags, id)),
    decreases tags.len(),
{
    if tags.len() > 0 {
        lemma_index_add_all_in_order(idx, tags.drop_last(), id);
        lemma_index_add_in_order(
            index_add_all(idx, tags.drop_last(), id),
            encoded_tag(tags.last()),
            id,
        );
    }
}

/// The tags of a load are in order: each tag in use is named once, and has
/// the posts that use it, of which there is at least one.
pub proof fn lemma_tag_index_in_order(posts: Seq<PostView>)
    ensures
        index_in_order(tag_index(posts)),
    decreases posts.len(),
{
    if posts.len() > 0 {
        lemma_tag_index_in_order(posts.drop_last());
        lemma_index_add_all_in_order(
            tag_index(posts.drop_last()),
            posts.last().tags,
            posts.last().id,
        );
    }
}

/// Successive pages of a list lie one behind the other and none is longer
/// than a page; past the end of the list every page is empty.
pub proof fn lemma_page_slice(source: Seq<u32>, page: nat, size: nat)
    ensures
        page_slice(source, page, size).len() <= size,
        page * size + size <= source.len() ==> page_slice(source, page, size)
            == source.subrange((page * size) as int, (page * size + size) as int),
        page * size >= source.len() ==> page_slice(source, page, size).len() == 0,
        forall|i: int|
            0 <= i < page_slice(source, page, size).len() ==> page_slice(source, page, size)[i]
                == source[page * size + i],
{
}

/// The content store.
pub struct Blog {
    posts: HashMap<u32, Post>,
    post_excerpts: HashMap<u32, PostExcerpt>,
    seo_urls: StringHashMap<u32>,
    seo_urls_historic: StringHashMap<u32>,
    comments: HashMap<u32, Vec<Comment>>,
    tags: StringHashMap<Tag>,
    tag_2_posts: StringHashMap<Vec<u32>>,
    tag_names: Vec<String>,
    menus: StringHashMap<Vec<MenuItem>>,
    redirects: StringHashMap<String>,
    cache: Cache,
    messages: Vec<BlogMessage>,
}

spec fn posts_model(m: Map<u32, Post>) -> Map<u32, PostView> {
    m.map_values(|p: Post| p@)
}

spec fn excerpts_model(m: Map<u32, PostExcerpt>) -> Map<u32, PostExcerptView> {
    m.map_values(|e: PostExcerpt| e@)
}

spec fn comments_model(m: Map<u32, Vec<Comment>>) -> Map<u32, Seq<Comment>> {
    m.map_values(|v: Vec<Comment>| v@)
}

spec fn lists_model(m: Map<Seq<char>, Vec<u32>>) -> Map<Seq<char>, Seq<u32>> {
    m.map_values(|v: Vec<u32>| v@)
}

spec fn menus_model(m: Map<Seq<char>, Vec<MenuItem>>) -> Map<Seq<char>, Seq<MenuItem>> {
    m.map_values(|v: Vec<MenuItem>| v@)
}

spec fn redirects_model(m: Map<Seq<char>, String>) -> Map<Seq<char>, Seq<char>> {
    m.map_values(|s: String| s@)
}

impl View for Blog {
    type V = BlogView;

    closed spec fn view(&self) -> BlogView {
        BlogView {
            posts: posts_model(self.posts@),
            excerpts: excerpts_model(self.post_excerpts@),
            seo_urls: self.seo_urls@,
            seo_urls_historic: self.seo_urls_historic@,
            comments: comments_model(self.comments@),
            tags: self.tags@,
            tag_posts: lists_model(self.tag_2_posts@),
            tag_names: self.tag_names.deep_view(),
            menus: menus_model(self.menus@),
            redirects: redirects_model(self.redirects@),
            cache: self.cache@,
            messages: self.messages@,
        }
    }
}

/// The posts of a load that are served.
fn without_drafts(posts: Vec<Post>) -> (r: Vec<Post>)
    ensures
        r.deep_view() == served_posts(posts.deep_view()),
{
    let ghost all = posts.deep_view();
    let ghost all_posts = posts@;
    let count = posts.len();
    let mut rest = reversed(posts);
    let mut kept: Vec<Post> = Vec::new();
    let mut i: usize = 0;
    assert(all_posts.skip(0) =~= all_posts);
    assert(kept.deep_view() =~= served_posts(all.take(0)));
    while i < count
        invariant
            i <= count == all_posts.len(),
            all.len() == all_posts.len(),
            forall|k: int| 0 <= k < all.len() ==> all[k] == all_posts[k]@,
            rest@ == all_posts.skip(i as int).reverse(),
            kept.deep_view() == served_posts(all.take(i as int)),
        decreases count - i,
    {
        let post = take_next(&mut rest, Ghost(all_posts), Ghost(i as int));
        proof {
            assert(all.take(i + 1).drop_last() =~= all.take(i as int));
            assert(all.take(i + 1).last() == post@);
        }
        if !same_text(post.state.as_str(), "draft") {
            let ghost before = kept.deep_view();
            kept.push(post);
            assert(kept.deep_view() =~= before.push(post@));
        }
        i = i + 1;
    }
    assert(all.take(count as int) =~= all);
    kept
}

/// The comments of a load that are served.
fn approved_only(comments: Vec<Comment>) -> (r: Vec<Comment>)
    ensures
        r@ == served_comments(comments@),
{
    let ghost all = comments@;
    let count = comments.len();
    let mut rest = reversed(comments);
    let mut kept: Vec<Comment> = Vec::new();
    let mut i: usize = 0;
    assert(all.skip(0) =~= all);
    assert(kept@ =~= served_comments(all.take(0)));
    while i < count
        invariant
            i <= count == all.len(),
            rest@ == all.skip(i as int).reverse(),
            kept@ == served_comments(all.take(i as int)),
        decreases count - i,
    {
        let comment = take_next(&mut rest, Ghost(all), Ghost(i as int));
        proof {
            assert(all.take(i + 1).drop_last() =~= all.take(i as int));
            assert(all.take(i + 1).last() == comment);
        }
        if same_text(comment.status.as_str(), "approved") {
            kept.push(comment);
        }
        i = i + 1;
    }
    assert(all.take(count as int) =~= all);
    kept
}

/// Puts the post `id` under each of `tags`.
fn add_tags(names: &mut Vec<String>, lists: &mut StringHashMap<Vec<u32>>, tags: &Vec<String>, id: u32)
    ensures
        (TagIndex { names: final(names).deep_view(), lists: lists_model(final(lists)@) })
            == index_add_all(
            TagIndex { names: old(names).deep_view(), lists: lists_model(old(lists)@) },
            tags.deep_view(),
            id,
        ),
{
    let ghost start = TagIndex { names: names.deep_view(), lists: lists_model(lists@) };
    let ghost all = tags.deep_view();
    let mut i: usize = 0;
    while i < tags.len()
        invariant
            i <= tags.len(),
            all == tags.deep_view(),
            (TagIndex { names: names.deep_view(), lists: lists_model(lists@) }) == index_add_all(
                start,
                all.take(i as int),
                id,
            ),
        decreases tags.len() - i,
    {
        let encoded = replace(tags[i].as_str(), " ", "-");
        proof {
            assert(all.take(i + 1).drop_last() =~= all.take(i as int));
            assert(all.take(i + 1).last() == tags@[i as int]@);
        }
        let ghost names_before = names.deep_view();
        let ghost lists_before = lists@;
        match lists.get(encoded.as_str()) {
            Some(list) => {
                let mut longer = list.clone();
                assert(longer@ =~= list@);
                longer.push(id);
                lists.insert(encoded, longer);
                assert(lists_model(lists@) =~= lists_model(lists_before).insert(
                    encoded@,
                    lists_model(lists_before)[encoded@].push(id),
                ));
            },
            None => {
                let mut first: Vec<u32> = Vec::new();
                first.push(id);
                names.push(encoded.clone());
                lists.insert(encoded, first);
                assert(names.deep_view() =~= names_before.push(encoded@));
                assert(lists_model(lists@) =~= lists_model(lists_before).insert(
                    encoded@,
                    seq![id],
                ));
            },
        }
        i = i + 1;
    }
    assert(all.take(tags.len() as int) =~= all);
}

/// Puts the former addresses `urls`, in lower case, under the post `id`.
fn add_historic_urls(table: &mut StringHashMap<u32>, urls: &Vec<String>, id: u32)
    ensures
        final(table)@ == add_historic(old(table)@, urls.deep_view(), id),
{
    let ghost all = urls.deep_view();
    let mut i: usize = 0;
    while i < urls.len()
        invariant
            i <= urls.len(),
            all == urls.deep_view(),
            table@ == add_historic(old(table)@, all.take(i as int), id),
        decreases urls.len() - i,
    {
        proof {
            assert(all.take(i + 1).drop_last() =~= all.take(i as int));
            assert(all.take(i + 1).last() == urls@[i as int]@);
        }
        table.insert(urls[i].as_str().to_lowercase(), id);
        i = i + 1;
    }
    assert(all.take(urls.len() as int) =~= all);
}

impl Blog {
    /// A store that holds nothing.
    pub fn new() -> (r: Blog)
        ensures
            r@ == (BlogView {
                posts: Map::empty(),
                excerpts: Map::empty(),
                seo_urls: Map::empty(),
                seo_urls_historic: Map::empty(),
                comments: Map::empty(),
                tags: Map::empty(),
                tag_posts: Map::empty(),
                tag_names: Seq::empty(),
                menus: Map::empty(),
                redirects: Map::empty(),
                cache: CacheView { entries: Map::empty(), html_min_time: 0 },
                messages: Seq::empty(),
            }),
    {
        broadcast use vstd::std_specs::hash::group_hash_axioms;

        let r = Blog {
            posts: HashMap::new(),
            post_excerpts: HashMap::new(),
            seo_urls: StringHashMap::new(),
            seo_urls_historic: StringHashMap::new(),
            comments: HashMap::new(),
            tags: StringHashMap::new(),
            tag_2_posts: StringHashMap::new(),
            tag_names: Vec::new(),
            menus: StringHashMap::new(),
            redirects: StringHashMap::new(),
            cache: Cache::new(),
            messages: Vec::new(),
        };
        assert(r@.posts =~= Map::empty());
        assert(r@.excerpts =~= Map::empty());
        assert(r@.comments =~= Map::empty());
        assert(r@.tag_posts =~= Map::empty());
        assert(r@.tag_names =~= Seq::empty());
        assert(r@.menus =~= Map::empty());
        assert(r@.redirects =~= Map::empty());
        r
    }

    /// Builds the tags in use and the site map from the posts of a load, and
    /// stores the site map in the cache.
    pub fn reload_sitemap(&mut self, c: &config::Config, now: u64, posts: &Vec<Post>)
        ensures
            final(self)@ == old(self)@.with_sitemap_of(*c, now, posts.deep_view()),
    {
        let ghost all = posts.deep_view();
        let fqdn = config_get_string(c, "fqdn");
        let base = concat3("https://", fqdn.as_str(), "/");
        let mut locs: Vec<SiteMapUrl> = Vec::new();
        let mut names: Vec<String> = Vec::new();
        let mut lists: StringHashMap<Vec<u32>> = StringHashMap::new();
        let mut i: usize = 0;
        assert(locs.deep_view() =~= post_locations(base@, all.take(0)));
        assert(names.deep_view() =~= tag_index(all.take(0)).names);
        assert(lists_model(lists@) =~= tag_index(all.take(0)).lists);
        while i < posts.len()
            invariant
                i <= posts.len(),
                all == posts.deep_view(),
                locs.deep_view() == post_locations(base@, all.take(i as int)),
                (TagIndex { names: names.deep_view(), lists: lists_model(lists@) }) == tag_index(
                    all.take(i as int),
                ),
            decreases posts.len() - i,
        {
            let post = &posts[i];
            proof {
                assert(all.take(i + 1).drop_last() =~= all.take(i as int));
                assert(all.take(i + 1).last() == post@);
            }
            let ghost before = locs.deep_view();
            let loc = location_of_post(base.as_str(), post);
            locs.push(loc);
            assert(locs.deep_view() =~= before.push(loc@));
            assert(locs.deep_view() =~= post_locations(base@, all.take(i + 1)));
            add_tags(&mut names, &mut lists, &post.tags, post.id);
            i = i + 1;
        }
        assert(all.take(posts.len() as int) =~= all);
        let time: u64 = if now >= 604800 {
            now - 604800
        } else {
            0
        };
        let per_page = config_get_count(c, "posts_per_page");
        let ghost idx = tag_index(all);
        let mut j: usize = 0;
        assert(locs.deep_view() =~= post_locations(base@, all) + all_tag_locations(
            base@,
            idx.names.take(0),
            idx.lists,
            per_page,
            time,
        ));
        while j < names.len()
            invariant
                j <= names.len(),
                names.deep_view() == idx.names,
                lists_model(lists@) == idx.lists,
                locs.deep_view() == post_locations(base@, all) + all_tag_locations(
                    base@,
                    idx.names.take(j as int),
                    idx.lists,
                    per_page,
                    time,
                ),
            decreases names.len() - j,
        {
            let name = &names[j];
            proof {
                assert(idx.names.take(j + 1).drop_last() =~= idx.names.take(j as int));
                assert(idx.names.take(j + 1).last() == name@);
            }
            let len = match lists.get(name.as_str()) {
                Some(list) => list.len(),
                None => 0,
            };
            assert(len == tag_size(idx.lists, name@));
            let pages = count_pages(len, per_page);
            let ghost before = locs.deep_view();
            push_tag_locations(&mut locs, base.as_str(), name.as_str(), pages, time);
            assert(locs.deep_view() =~= post_locations(base@, all) + all_tag_locations(
                base@,
                idx.names.take(j + 1),
                idx.lists,
                per_page,
                time,
            ));
            j = j + 1;
        }
        assert(idx.names.take(names.len() as int) =~= idx.names);
        self.tag_2_posts = lists;
        self.tag_names = names;
        let map = SiteMap { content: Some(locs) };
        assert(map@ == site_map_of(*c, now, all));
        self.cache.cache_sitemap(map);
    }

    /// Replaces the posts by those of a load at `now`, together with all that
    /// is derived from them: excerpts, both address indexes, the tags in use
    /// and the site map. Drafts are left out. In each post's content the
    /// placeholders give way to the snippets they name. Returns the number
    /// of posts now served. A load that failed hands its error on and leaves
    /// the store as it was.
    pub fn reload_posts<E>(
        &mut self,
        c: &config::Config,
        now: u64,
        loaded: Result<Vec<Post>, E>,
        snippets: Option<Vec<Snippet>>,
    ) -> (r: Result<usize, E>)
        ensures
            match loaded {
                Ok(posts) => r == Ok::<usize, E>(served_posts(posts.deep_view()).len() as usize)
                    && final(self)@ == old(self)@.with_posts(
                    *c,
                    now,
                    posts.deep_view(),
                    snippets_of(snippets),
                ),
                Err(e) => r == Err::<usize, E>(e) && final(self)@ == old(self)@,
            },
    {
        broadcast use vstd::std_specs::hash::group_hash_axioms;

        match loaded {
            Err(e) => Err(e),
            Ok(loaded_posts) => {
                let blog_posts = without_drafts(loaded_posts);
                let ghost all = blog_posts.deep_view();
                let ghost all_posts = blog_posts@;
                let ghost known = snippets_of(snippets);
                let post_count = blog_posts.len();
                self.reload_sitemap(c, now, &blog_posts);
                let snippets = match snippets {
                    Some(list) => list,
                    None => {
                        let none: Vec<Snippet> = Vec::new();
                        assert(none.deep_view() =~= Seq::empty());
                        none
                    },
                };
                let mut posts: HashMap<u32, Post> = HashMap::new();
                let mut post_excerpts: HashMap<u32, PostExcerpt> = HashMap::new();
                let mut seo_urls: StringHashMap<u32> = StringHashMap::new();
                let mut seo_urls_historic: StringHashMap<u32> = StringHashMap::new();
                let mut rest = reversed(blog_posts);
                let mut i: usize = 0;
                assert(all_posts.skip(0) =~= all_posts);
                assert(posts_model(posts@) =~= posts_table(all.take(0), known));
                assert(excerpts_model(post_excerpts@) =~= excerpts_table(all.take(0), known));
                while i < post_count
                    invariant
                        i <= post_count == all_posts.len(),
                        all.len() == all_posts.len(),
                        forall|k: int| 0 <= k < all.len() ==> all[k] == all_posts[k]@,
                        known == snippets.deep_view(),
                        rest@ == all_posts.skip(i as int).reverse(),
                        posts_model(posts@) == posts_table(all.take(i as int), known),
                        excerpts_model(post_excerpts@) == excerpts_table(
                            all.take(i as int),
                            known,
                        ),
                        seo_urls@ == seo_index(all.take(i as int)),
                        seo_urls_historic@ == historic_index(all.take(i as int)),
                    decreases post_count - i,
                {
                    let mut post = take_next(&mut rest, Ghost(all_posts), Ghost(i as int));
                    proof {
                        assert(all.take(i + 1).drop_last() =~= all.take(i as int));
                        assert(all.take(i + 1).last() == post@);
                    }
                    let ghost raw = post@;
                    seo_urls.insert(post.url_canonical.as_str().to_lowercase(), post.id);
                    add_historic_urls(&mut seo_urls_historic, &post.url_historic, post.id);
                    let modified_content = substitute_snippets(post.content.as_str(), &snippets);
                    post.content = modified_content;
                    assert(post@ == loaded_post(raw, known));
                    let ghost posts_before = posts@;
                    let ghost excerpts_before = post_excerpts@;
                    let excerpt = post.get_excerpt();
                    post_excerpts.insert(post.id, excerpt);
                    posts.insert(post.id, post);
                    assert(posts_model(posts@) =~= posts_model(posts_before).insert(
                        raw.id,
                        loaded_post(raw, known),
                    ));
                    assert(excerpts_model(post_excerpts@) =~= excerpts_model(
                        excerpts_before,
                    ).insert(raw.id, excerpt_of(loaded_post(raw, known))));
                    i = i + 1;
                }
                assert(all.take(post_count as int) =~= all);
                self.posts = posts;
                self.post_excerpts = post_excerpts;
                self.seo_urls = seo_urls;
                self.seo_urls_historic = seo_urls_historic;
                Ok(post_count)
            },
        }
    }

    /// Replaces the menus by those of a load and returns their number. A
    /// load that failed hands its error on and leaves the menus as they
    /// were.
    pub fn reload_menus<E>(&mut self, loaded: Result<Vec<Menu>, E>) -> (r: Result<usize, E>)
        ensures
            match loaded {
                Ok(list) => r == Ok::<usize, E>(list.len()) && final(self)@ == old(self)@.with_menus(
                    list@,
                ),
                Err(e) => r == Err::<usize, E>(e) && final(self)@ == old(self)@,
            },
    {
        match loaded {
            Err(e) => Err(e),
            Ok(menus) => {
                let ghost all = menus@;
                let count = menus.len();
                let mut rest = reversed(menus);
                let mut table: StringHashMap<Vec<MenuItem>> = StringHashMap::new();
                let mut i: usize = 0;
                assert(all.skip(0) =~= all);
                assert(menus_model(table@) =~= menus_table(all.take(0)));
                while i < count
                    invariant
                        i <= count == all.len(),
                        rest@ == all.skip(i as int).reverse(),
                        menus_model(table@) == menus_table(all.take(i as int)),
                    decreases count - i,
                {
                    let menu = take_next(&mut rest, Ghost(all), Ghost(i as int));
                    proof {
                        assert(all.take(i + 1).drop_last() =~= all.take(i as int));
                        assert(all.take(i + 1).last() == menu);
                    }
                    let ghost before = table@;
                    table.insert(menu.name, menu.items);
                    assert(menus_model(table@) =~= menus_model(before).insert(
                        menu.name@,
                        menu.items@,
                    ));
                    i = i + 1;
                }
                assert(all.take(count as int) =~= all);
                self.menus = table;
                Ok(count)
            },
        }
    }

    /// Replaces the redirects by those of a load and returns their number. A
    /// load that failed hands its error on and leaves the redirects as they
    /// were.
    pub fn reload_redirects<E>(&mut self, loaded: Result<Vec<Redirect>, E>) -> (r: Result<usize, E>)
        ensures
            match loaded {
                Ok(list) => r == Ok::<usize, E>(list.len()) && final(self)@ == old(self)@.with_redirects(
                    list@,
                ),
                Err(e) => r == Err::<usize, E>(e) && final(self)@ == old(self)@,
            },
    {
        match loaded {
            Err(e) => Err(e),
            Ok(redirects) => {
                let ghost all = redirects@;
                let count = redirects.len();
                let mut rest = reversed(redirects);
                let mut table: StringHashMap<String> = StringHashMap::new();
                let mut i: usize = 0;
                assert(all.skip(0) =~= all);
                assert(redirects_model(table@) =~= redirects_table(all.take(0)));
                while i < count
                    invariant
                        i <= count == all.len(),
                        rest@ == all.skip(i as int).reverse(),
                        redirects_model(table@) == redirects_table(all.take(i as int)),
                    decreases count - i,
                {
                    let redirect = take_next(&mut rest, Ghost(all), Ghost(i as int));
                    proof {
                        assert(all.take(i + 1).drop_last() =~= all.take(i as int));
                        assert(all.take(i + 1).last() == redirect);
                    }
                    let ghost before = table@;
                    table.insert(redirect.name, redirect.target);
                    assert(redirects_model(table@) =~= redirects_model(before).insert(
                        redirect.name@,
                        redirect.target@,
                    ));
                    i = i + 1;
                }
                assert(all.take(count as int) =~= all);
                self.redirects = table;
                Ok(count)
            },
        }
    }

    /// Replaces the tags by those of a load and returns their number. A load
    /// that failed hands its error on and leaves the tags as they were.
    pub fn reload_tags<E>(&mut self, loaded: Result<Vec<Tag>, E>) -> (r: Result<usize, E>)
        ensures
            match loaded {
                Ok(list) => r == Ok::<usize, E>(list.len()) && final(self)@ == old(self)@.with_tags(
                    list@,
                ),
                Err(e) => r == Err::<usize, E>(e) && final(self)@ == old(self)@,
            },
    {
        match loaded {
            Err(e) => Err(e),
            Ok(tags) => {
                let ghost all = tags@;
                let count = tags.len();
                let mut rest = reversed(tags);
                let mut table: StringHashMap<Tag> = StringHashMap::new();
                let mut i: usize = 0;
                assert(all.skip(0) =~= all);
                while i < count
                    invariant
                        i <= count == all.len(),
                        rest@ == all.skip(i as int).reverse(),
                        table@ == tags_table(all.take(i as int)),
                    decreases count - i,
                {
                    let tag = take_next(&mut rest, Ghost(all), Ghost(i as int));
                    proof {
                        assert(all.take(i + 1).drop_last() =~= all.take(i as int));
                        assert(all.take(i + 1).last() == tag);
                    }
                    let key = tag.id.clone();
                    table.insert(key, tag);
                    i = i + 1;
                }
                assert(all.take(count as int) =~= all);
                self.tags = table;
                Ok(count)
            },
        }
    }

    /// Replaces the comments by the approved ones of a load, and returns
    /// their number. A load that failed hands its error on and leaves the
    /// comments as they were.
    pub fn reload_comments<E>(&mut self, loaded: Result<Vec<Comment>, E>) -> (r: Result<usize, E>)
        ensures
            match loaded {
                Ok(list) => r == Ok::<usize, E>(served_comments(list@).len() as usize) && final(self)@ == old(self)@.with_comments(
                    list@,
                ),
                Err(e) => r == Err::<usize, E>(e) && final(self)@ == old(self)@,
            },
    {
        broadcast use vstd::std_specs::hash::group_hash_axioms;

        match loaded {
            Err(e) => Err(e),
            Ok(loaded_comments) => {
                let comments = approved_only(loaded_comments);
                let ghost all = comments@;
                let count = comments.len();
                let mut rest = reversed(comments);
                let mut table: HashMap<u32, Vec<Comment>> = HashMap::new();
                let mut i: usize = 0;
                assert(all.skip(0) =~= all);
                assert(comments_model(table@) =~= comments_table(all.take(0)));
                while i < count
                    invariant
                        i <= count == all.len(),
                        rest@ == all.skip(i as int).reverse(),
                        comments_model(table@) == comments_table(all.take(i as int)),
                    decreases count - i,
                {
                    let comment = take_next(&mut rest, Ghost(all), Ghost(i as int));
                    proof {
                        assert(all.take(i + 1).drop_last() =~= all.take(i as int));
                        assert(all.take(i + 1).last() == comment);
                    }
                    let ghost before = table@;
                    let post_id = comment.post_id;
                    let mut list = match table.remove(&post_id) {
                        Some(list) => list,
                        None => Vec::new(),
                    };
                    assert(list@ =~= comments_for(comments_model(before), post_id));
                    list.push(comment);
                    table.insert(post_id, list);
                    assert(comments_model(table@) =~= comments_model(before).insert(
                        post_id,
                        comments_for(comments_model(before), post_id).push(comment),
                    ));
                    i = i + 1;
                }
                assert(all.take(count as int) =~= all);
                self.comments = table;
                Ok(count)
            },
        }
    }

    /// The cache of this store.
    pub fn cache(&self) -> (r: &Cache)
        ensures
            r@ == self@.cache,
    {
        &self.cache
    }

    /// Stores the rendered page that callers know as `key`, made at `now`.
    pub fn cache_html(&mut self, c: &config::Config, now: u64, key: String, html: String)
        ensures
            final(self)@ == (BlogView {
                cache: old(self)@.cache.with_html(*c, now, key@, html@),
                ..old(self)@
            }),
    {
        self.cache.cache_html(c, now, key, html);
    }

    /// The posts of the tag `tag_id`, in the order loaded.
    pub fn get_tag_posts(&self, tag_id: &str) -> (r: Option<&Vec<u32>>)
        ensures
            r is Some <==> self@.tag_posts.contains_key(tag_id@),
            r matches Some(list) ==> list@ == self@.tag_posts[tag_id@],
    {
        self.tag_2_posts.get(tag_id)
    }

    /// The menu called `key`.
    pub fn get_menu(&self, key: &str) -> (r: Option<&Vec<MenuItem>>)
        ensures
            r is Some <==> self@.menus.contains_key(key@),
            r matches Some(items) ==> items@ == self@.menus[key@],
    {
        self.menus.get(key)
    }

    /// The post with the id `key`.
    pub fn get_post(&self, key: u32) -> (r: Option<&Post>)
        ensures
            r is Some <==> self@.posts.contains_key(key),
            r matches Some(post) ==> post@ == self@.posts[key],
    {
        broadcast use vstd::std_specs::hash::group_hash_axioms;

        self.posts.get(&key)
    }

    /// The tag with the id `tag_id`.
    pub fn get_tag(&self, tag_id: &str) -> (r: Option<&Tag>)
        ensures
            r is Some <==> self@.tags.contains_key(tag_id@),
            r matches Some(tag) ==> *tag == self@.tags[tag_id@],
    {
        self.tags.get(tag_id)
    }

    /// The comments of the post `post_id`.
    pub fn get_post_comments(&self, post_id: u32) -> (r: Option<&Vec<Comment>>)
        ensures
            r is Some <==> self@.comments.contains_key(post_id),
            r matches Some(list) ==> list@ == self@.comments[post_id],
    {
        broadcast use vstd::std_specs::hash::group_hash_axioms;

        self.comments.get(&post_id)
    }

    /// The target of the redirect called `name`; the address of the site
    /// itself where there is none.
    pub fn lookup_redirect(&self, c: &config::Config, name: &str) -> (r: String)
        ensures
            r@ == (if self@.redirects.contains_key(name@) {
                self@.redirects[name@]
            } else {
                site_address(*c)
            }),
    {
        match self.redirects.get(name) {
            Some(target) => target.clone(),
            None => {
                let fqdn = config_get_string(c, "fqdn");
                concat2("https://", fqdn.as_str())
            },
        }
    }

    /// The post that the address `seo_url` leads to; 0 where it leads to
    /// none. The canonical addresses are asked first, the former addresses
    /// after them, both without regard to case.
    pub fn get_post_by_seo_url(&self, seo_url: &str) -> (r: u32)
        ensures
            r == self@.post_for_url(seo_url@),
    {
        let mut post_key: u32 = 0;
        let seo_url_lower = seo_url.to_lowercase();
        match self.seo_urls.get(seo_url_lower.as_str()) {
            Some(val) => {
                post_key = *val;
            },
            None => {},
        }
        if post_key == 0 {
            match self.seo_urls_historic.get(seo_url_lower.as_str()) {
                Some(val) => {
                    post_key = *val;
                },
                None => {},
            }
        }
        post_key
    }

    /// The excerpts of the posts `keys`, in their order; a key without an
    /// excerpt is passed over.
    pub fn get_post_excerpts(&self, keys: &Vec<u32>) -> (r: Vec<PostExcerpt>)
        ensures
            r.deep_view() == excerpts_for(self@.excerpts, keys@),
    {
        broadcast use vstd::std_specs::hash::group_hash_axioms;

        let mut excerpts: Vec<PostExcerpt> = Vec::new();
        let mut i: usize = 0;
        assert(excerpts.deep_view() =~= excerpts_for(self@.excerpts, keys@.take(0)));
        while i < keys.len()
            invariant
                i <= keys.len(),
                excerpts.deep_view() == excerpts_for(self@.excerpts, keys@.take(i as int)),
            decreases keys.len() - i,
        {
            proof {
                assert(keys@.take(i + 1).drop_last() =~= keys@.take(i as int));
                assert(keys@.take(i + 1).last() == keys@[i as int]);
            }
            let ghost before = excerpts.deep_view();
            match self.post_excerpts.get(&keys[i]) {
                Some(post_excerpt) => {
                    let copy = post_excerpt.clone();
                    excerpts.push(copy);
                    assert(excerpts.deep_view() =~= before.push(copy@));
                },
                None => {},
            }
            i = i + 1;
        }
        assert(keys@.take(keys.len() as int) =~= keys@);
        excerpts
    }

    /// The part `[page * per_page, page * per_page + per_page)` of `source`,
    /// cut at its end.
    pub fn get_pagination_slice(source: &Vec<u32>, page: u32, per_page: u32) -> (r: Vec<u32>)
        ensures
            r@ == page_slice(source@, page as nat, per_page as nat),
    {
        let mut slice: Vec<u32> = Vec::new();
        assert((page as int) * (per_page as int) <= 0xffff_ffff * 0xffff_ffff)
            by (nonlinear_arith)
            requires
                0 <= page <= 0xffff_ffff,
                0 <= per_page <= 0xffff_ffff,
        ;
        let offset: u64 = (page as u64) * (per_page as u64);
        let limit: u64 = offset + per_page as u64;
        let len: usize = source.len();
        let start: usize = if offset < len as u64 {
            offset as usize
        } else {
            len
        };
        let end: usize = if limit < len as u64 {
            limit as usize
        } else {
            len
        };
        let mut i: usize = start;
        while i < end
            invariant
                start <= i <= end <= source.len(),
                slice@ == source@.subrange(start as int, i as int),
            decreases end - i,
        {
            slice.push(source[i]);
            i = i + 1;
            assert(slice@ =~= source@.subrange(start as int, i as int));
        }
        slice
    }

    /// The excerpts of the first `limit` posts of the tag `tag_id`.
    pub fn get_post_excerpts_by_tag(&self, tag_id: &str, limit: u32) -> (r: Vec<PostExcerpt>)
        ensures
            r.deep_view() == excerpts_for(
                self@.excerpts,
                page_slice(self@.posts_of_tag(tag_id@), 0, limit as nat),
            ),
    {
        match self.tag_2_posts.get(tag_id) {
            Some(ids) => {
                let first = Self::get_pagination_slice(ids, 0, limit);
                self.get_post_excerpts(&first)
            },
            None => {
                let none: Vec<PostExcerpt> = Vec::new();
                assert(page_slice(Seq::<u32>::empty(), 0, limit as nat) =~= Seq::empty());
                assert(none.deep_view() =~= Seq::empty());
                none
            },
        }
    }

    /// The tags that some post has, in the order in which the posts first
    /// name them.
    pub fn get_all_in_use_tags(&self) -> (r: Vec<String>)
        ensures
            r.deep_view() == self@.tag_names,
    {
        let copy = self.tag_names.clone();
        assert(copy.deep_view() =~= self.tag_names.deep_view());
        copy
    }

    /// Notes that the post `post_id` was viewed.
    pub fn message_post_viewed(
        &mut self,
        post_id: u32,
        viewed_at: u64,
        remote_ip: String,
        user_agent: String,
        referer: String,
    )
        ensures
            final(self)@ == old(self)@.noted(
                BlogMessage::PostView { post_id, viewed_at, remote_ip, user_agent, referer },
            ),
    {
        self.messages.push(
            BlogMessage::PostView { post_id, viewed_at, remote_ip, user_agent, referer },
        );
    }

    /// Which of the fetches a round of maintenance at `now` needs: those
    /// whose entry in the cache is not fresh.
    pub fn due_fetches(&self, now: u64) -> (r: DueFetches)
        ensures
            r.pinterest == !self@.cache.fresh(crate::blog::cache::pinterest_key(), now),
            r.instagram == !self@.cache.fresh(crate::blog::cache::instagram_key(), now),
            r.latest == !self@.cache.fresh(crate::blog::cache::latest_key(), now),
            r.featured == !self@.cache.fresh(crate::blog::cache::featured_key(), now),
    {
        DueFetches {
            pinterest: !self.cache.not_yet_expired(now, "pinterest_posts"),
            instagram: !self.cache.not_yet_expired(now, "instagram_posts"),
            latest: !self.cache.not_yet_expired(now, "latest_posts"),
            featured: !self.cache.not_yet_expired(now, "featured_posts"),
        }
    }

    /// Refreshes the excerpts of the `n`th configured tag at `now`.
    fn refresh_tag(&mut self, c: &config::Config, now: u64, n: u8)
        ensures
            final(self)@ == old(self)@.with_tag_refreshed(*c, now, n),
    {
        let setting = concat2("cached_tag_", decimal_string(n as u64).as_str());
        let tag = config_get_string(c, setting.as_str());
        let found = self.get_post_excerpts_by_tag(tag.as_str(), READY_EXCERPTS);
        self.cache.cache_posts_by_tag(c, now, n, tag.as_str(), found);
    }

    /// Refreshes every expiring entry of the cache at `now` with what was
    /// fetched.
    fn refresh_cache(&mut self, c: &config::Config, now: u64, fetched: Fetched)
        ensures
            final(self)@ == old(self)@.refreshed_all(*c, now, fetched),
    {
        let latest = match &fetched.latest {
            Some(ids) => Some(self.get_post_excerpts(ids)),
            None => None,
        };
        let featured = match &fetched.featured {
            Some(ids) => Some(self.get_post_excerpts(ids)),
            None => None,
        };
        self.cache.cache_pinterest_posts(c, now, fetched.pinterest);
        self.cache.cache_instagram_posts(c, now, fetched.instagram);
        self.cache.cache_latest_posts(c, now, latest);
        self.cache.cache_featured_posts(c, now, featured);
        let ghost start = self@;
        let mut n: u8 = 0;
        while n < 5
            invariant
                n <= 5,
                self@ == start.with_tags_refreshed(*c, now, n as nat),
            decreases 5 - n,
        {
            n = n + 1;
            self.refresh_tag(c, now, n);
        }
    }

    /// One round of maintenance at `now`: every expiring entry of the cache
    /// is refreshed with what was fetched, and the buffer of view events is
    /// emptied. Returns the events that were in it, oldest first, to be
    /// persisted as one batch.
    pub fn maintenance_task(&mut self, c: &config::Config, now: u64, fetched: Fetched) -> (views:
        Vec<BlogMessage>)
        ensures
            views@ == old(self)@.messages,
            final(self)@ == old(self)@.refreshed_all(*c, now, fetched).drained(),
    {
        proof {
            lemma_refresh_touches_cache_only(self@, *c, now, fetched);
        }
        self.refresh_cache(c, now, fetched);
        let mut views: Vec<BlogMessage> = Vec::new();
        std::mem::swap(&mut views, &mut self.messages);
        views
    }

    /// Fills the store when the service starts, at `now`: the posts first,
    /// then menus, redirects, tags and comments, then the cache. Returns the
    /// number of posts now served. Where the load of the posts failed its
    /// error is handed on and the store stays as it was. A failed load of
    /// another kind is passed over: that kind stays as it was, and the
    /// caller, who holds the error, may note it.
    pub fn startup<E>(&mut self, c: &config::Config, now: u64, loaded: Loaded<E>, fetched: Fetched) -> (r:
        Result<usize, E>)
        ensures
            match loaded.posts {
                Ok(posts) => r == Ok::<usize, E>(served_posts(posts.deep_view()).len() as usize)
                    && final(self)@ == old(
                    self,
                )@.with_posts(
                    *c,
                    now,
                    posts.deep_view(),
                    snippets_of(loaded.snippets),
                ).menus_loaded(loaded.menus).redirects_loaded(loaded.redirects).tags_loaded(
                    loaded.tags,
                ).comments_loaded(loaded.comments).refreshed_all(*c, now, fetched),
                Err(e) => r == Err::<usize, E>(e) && final(self)@ == old(self)@,
            },
    {
        match self.reload_posts(c, now, loaded.posts, loaded.snippets) {
            Err(e) => Err(e),
            Ok(post_count) => {
                let _ = self.reload_menus(loaded.menus);
                let _ = self.reload_redirects(loaded.redirects);
                let _ = self.reload_tags(loaded.tags);
                let _ = self.reload_comments(loaded.comments);
                self.refresh_cache(c, now, fetched);
                Ok(post_count)
            },
        }
    }

    /// Invalidates every page rendered before `now`.
    pub fn invalidate_html_cache(&mut self, now: u64) -> (r: usize)
        ensures
            r == 1,
            final(self)@ == (BlogView { cache: old(self)@.cache.invalidated(now), ..old(self)@ }),
    {
        self.cache.reset_html_cache(now);
        1
    }
}

} // verus!
