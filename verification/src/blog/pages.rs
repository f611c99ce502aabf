//! The pages of the site: what each is rendered from, and under which key
//! its rendering is cached.
//!
//! Rendering itself is the caller's part. A page function answers with the
//! cached rendering where there is one, else with the template and the
//! context to render; `finish_page` takes the outcome and caches it.

use vstd::prelude::*;
use vstd::string::*;
use crate::blog::context::{Context, ContextView, Page, PageView, PostLookup, PostLookupView};
use crate::blog::sitemap::{count_pages, page_count};
use crate::blog::{excerpts_for, page_slice, site_address, Blog, BlogMessage, BlogView};
use crate::config::{config_get_count, config_get_string, count_setting, string_setting};
use crate::text::{concat2, concat3, decimal, decimal_string};

verus! {

/// The key of the page rendered from `template` alone.
pub open spec fn base_page_key(template: Seq<char>) -> Seq<char> {
    "base_"@ + template
}

/// The key of the page of the post `post_key`.
pub open spec fn post_page_key(post_key: u32) -> Seq<char> {
    "post_"@ + decimal(post_key as nat)
}

/// The key of the page `page` of the tag `tag_id`.
pub open spec fn tag_page_key(tag_id: Seq<char>, page: u32) -> Seq<char> {
    "tag_"@ + tag_id + "_"@ + decimal(page as nat)
}

/// The key of the rendered site map.
pub open spec fn site_map_page_key() -> Seq<char> {
    "site_map"@
}

/// The key of the rendered feed.
pub open spec fn feed_page_key() -> Seq<char> {
    "rss_feed"@
}

/// The number of pages that `len` items fill, as far as 32 bits count.
pub open spec fn total_pages(len: nat, per_page: u32) -> u32 {
    if page_count(len, per_page as nat) > u32::MAX {
        u32::MAX
    } else {
        page_count(len, per_page as nat) as u32
    }
}

/// What an address says of the page it shows, behind `mark`: nothing for the
/// first page, else the page's number counted from 1.
pub open spec fn page_suffix(mark: Seq<char>, page: u32) -> Seq<char> {
    if page > 0 {
        mark + decimal((page + 1) as nat)
    } else {
        Seq::empty()
    }
}

impl BlogView {
    /// The context that every page starts from: the settings of the site,
    /// the time, and the main menu.
    pub open spec fn base_context(self, c: config::Config, now: u64) -> ContextView {
        ContextView {
            title: Some(string_setting(c, "title"@)),
            subtitle: Some(string_setting(c, "subtitle"@)),
            meta_title: Some(string_setting(c, "meta_title"@)),
            meta_description: Some(string_setting(c, "meta_description"@)),
            locale: Some(string_setting(c, "locale"@)),
            canonical: Some(site_address(c) + "/"@),
            time: now,
            facebook_app_id: Some(string_setting(c, "facebook_app_id"@)),
            facebook_user: Some(string_setting(c, "facebook_user"@)),
            instagram_user: Some(string_setting(c, "instagram_user"@)),
            twitter_user: Some(string_setting(c, "twitter_user"@)),
            youtube_channel: Some(string_setting(c, "youtube_channel"@)),
            main_menu: if self.menus.contains_key("main"@) {
                Some(self.menus["main"@])
            } else {
                None
            },
            excerpts_tag_1: None,
            excerpts_tag_2: None,
            excerpts_tag_3: None,
            excerpts_tag_4: None,
            excerpts_tag_5: None,
            post: None,
            post_related: None,
            post_comments: None,
            instagram_posts: None,
            pinterest_posts: None,
            latest_posts: None,
            featured_posts: None,
            tag: None,
            tag_id: None,
            search_string: None,
            post_list: None,
            page_current: 0,
            page_total: 0,
        }
    }

    /// The context of a page rendered from a template alone: the base, with
    /// the feeds and the excerpts kept ready in the cache.
    pub open spec fn index_context(self, c: config::Config, now: u64) -> ContextView {
        ContextView {
            instagram_posts: self.cache.instagram_posts(),
            pinterest_posts: self.cache.pinterest_posts(),
            latest_posts: self.cache.latest_posts(),
            featured_posts: self.cache.featured_posts(),
            excerpts_tag_1: self.cache.posts_by_tag(1),
            excerpts_tag_2: self.cache.posts_by_tag(2),
            excerpts_tag_3: self.cache.posts_by_tag(3),
            excerpts_tag_4: self.cache.posts_by_tag(4),
            excerpts_tag_5: self.cache.posts_by_tag(5),
            ..self.base_context(c, now)
        }
    }

    /// The page rendered from `template` alone, as asked for at `now`.
    pub open spec fn base_page(self, c: config::Config, now: u64, template: Seq<char>) -> PageView {
        match self.cache.html(base_page_key(template), now) {
            Some(html) => PageView::Cached(html),
            None => PageView::Render {
                cache_key: Some(base_page_key(template)),
                template,
                context: self.index_context(c, now),
            },
        }
    }

    /// The context of the page of the post `post_key`, which is in the store.
    pub open spec fn post_context(self, c: config::Config, now: u64, post_key: u32) -> ContextView {
        let post = self.posts[post_key];
        ContextView {
            post: Some(post),
            canonical: Some(site_address(c) + "/"@ + post.url_canonical),
            meta_title: Some(post.meta_title),
            meta_description: Some(post.meta_description),
            post_related: if post.related_posts.len() > 0 {
                Some(excerpts_for(self.excerpts, post.related_posts))
            } else {
                None
            },
            post_comments: if self.comments.contains_key(post.id) {
                Some(self.comments[post.id])
            } else {
                None
            },
            ..self.base_context(c, now)
        }
    }

    /// The page of the post `post_key` to render; none where the store has
    /// no such post.
    pub open spec fn post_page(self, c: config::Config, now: u64, post_key: u32) -> Option<
        PageView,
    > {
        if post_key > 0 && self.posts.contains_key(post_key) {
            Some(
                PageView::Render {
                    cache_key: Some(post_page_key(post_key)),
                    template: "post.html"@,
                    context: self.post_context(c, now, post_key),
                },
            )
        } else {
            None
        }
    }

    /// What a request at `now` for the page at the address `url` comes to:
    /// nothing where the address leads to no post; else the cached page of
    /// the post it leads to, where there is one; else the order to render
    /// it, where the store holds the post.
    pub open spec fn post_lookup(self, now: u64, url: Seq<char>) -> PostLookupView {
        let post_key = self.post_for_url(url);
        if post_key == 0 {
            PostLookupView::Missing
        } else {
            match self.cache.html(post_page_key(post_key), now) {
                Some(html) => PostLookupView::Cached(html),
                None => if self.posts.contains_key(post_key) {
                    PostLookupView::Render { post_key }
                } else {
                    PostLookupView::Missing
                },
            }
        }
    }

    /// The post whose view a request for the address `url` at `now` counts,
    /// if it counts one: the post that the address leads to, where its page
    /// is in the cache or the post is in the store. An address that leads to
    /// no post counts nothing.
    pub open spec fn viewed_post(self, now: u64, url: Seq<char>) -> Option<u32> {
        let post_key = self.post_for_url(url);
        if post_key == 0 {
            None
        } else if self.cache.html(post_page_key(post_key), now) is Some {
            Some(post_key)
        } else if self.posts.contains_key(post_key) {
            Some(self.posts[post_key].id)
        } else {
            None
        }
    }

    /// The context of the page `page` of the tag `tag_id`.
    pub open spec fn tag_context(
        self,
        c: config::Config,
        now: u64,
        tag_id: Seq<char>,
        page: u32,
    ) -> ContextView {
        let base = self.base_context(c, now);
        let per_page = count_setting(c, "posts_per_page"@);
        let listed = self.tag_posts.contains_key(tag_id);
        let tag = if self.tags.contains_key(tag_id) {
            Some(self.tags[tag_id])
        } else {
            None
        };
        ContextView {
            page_current: if listed {
                page
            } else {
                0
            },
            page_total: if listed {
                total_pages(self.tag_posts[tag_id].len(), per_page)
            } else {
                0
            },
            post_list: if listed {
                Some(
                    excerpts_for(
                        self.excerpts,
                        page_slice(self.tag_posts[tag_id], page as nat, per_page as nat),
                    ),
                )
            } else {
                None
            },
            tag,
            tag_id: Some(tag_id),
            canonical: Some(site_address(c) + "/tag/"@ + tag_id + page_suffix("?p="@, page)),
            meta_title: if tag is Some && tag->0.meta_title@.len() > 0 {
                Some(tag->0.meta_title@)
            } else {
                base.meta_title
            },
            meta_description: if tag is Some && tag->0.meta_description@.len() > 0 {
                Some(tag->0.meta_description@)
            } else {
                base.meta_description
            },
            ..base
        }
    }

    /// The page `page` of the tag `tag_id`, as asked for at `now`.
    pub open spec fn tag_page(self, c: config::Config, now: u64, tag_id: Seq<char>, page: u32) -> PageView {
        match self.cache.html(tag_page_key(tag_id, page), now) {
            Some(html) => PageView::Cached(html),
            None => PageView::Render {
                cache_key: Some(tag_page_key(tag_id, page)),
                template: "post_list.html"@,
                context: self.tag_context(c, now, tag_id, page),
            },
        }
    }

    /// The page `page` of the search for `search`, which found the posts
    /// `found` or failed. It is never cached.
    pub open spec fn search_page(
        self,
        c: config::Config,
        now: u64,
        search: Seq<char>,
        page: u32,
        found: Option<Seq<u32>>,
    ) -> PageView {
        let per_page = count_setting(c, "posts_per_page"@);
        PageView::Render {
            cache_key: None,
            template: "post_list.html"@,
            context: ContextView {
                page_current: if found is Some {
                    page
                } else {
                    0
                },
                page_total: if found is Some {
                    total_pages(found->0.len(), per_page)
                } else {
                    0
                },
                post_list: match found {
                    Some(ids) => Some(
                        excerpts_for(self.excerpts, page_slice(ids, page as nat, per_page as nat)),
                    ),
                    None => None,
                },
                search_string: Some(search),
                canonical: Some(
                    site_address(c) + "/search?q="@ + search + page_suffix("&p="@, page),
                ),
                ..self.base_context(c, now)
            },
        }
    }

    /// The rendered site map, as asked for at `now`.
    pub open spec fn site_map_page(self, now: u64) -> PageView {
        match self.cache.html(site_map_page_key(), now) {
            Some(html) => PageView::Cached(html),
            None => PageView::RenderSiteMap {
                cache_key: site_map_page_key(),
                template: "sitemap.xml"@,
                site_map: self.cache.site_map(),
            },
        }
    }

    /// The rendered feed, as asked for at `now`.
    pub open spec fn feed_page(self, c: config::Config, now: u64) -> PageView {
        match self.cache.html(feed_page_key(), now) {
            Some(html) => PageView::Cached(html),
            None => PageView::Render {
                cache_key: Some(feed_page_key()),
                template: "feed.rss"@,
                context: ContextView {
                    latest_posts: self.cache.latest_posts(),
                    ..self.base_context(c, now)
                },
            },
        }
    }

    /// The store after the outcome `rendered` of a rendering at `now` was
    /// taken: a page that was rendered is cached under its key, if it has
    /// one; a rendering that failed leaves the store as it was.
    pub open spec fn with_rendered(
        self,
        c: config::Config,
        now: u64,
        cache_key: Option<String>,
        rendered: Result<String, String>,
    ) -> BlogView {
        match (cache_key, rendered) {
            (Some(key), Ok(html)) => BlogView {
                cache: self.cache.with_html(c, now, key@, html@),
                ..self
            },
            _ => self,
        }
    }
}

/// The message for a context that the templates could not take.
pub fn context_error(text: &str) -> (r: String)
    ensures
        r@ == "Template context error: "@ + text@,
{
    concat2("Template context error: ", text)
}

/// The message for a template that could not be rendered.
pub fn render_error(text: &str) -> (r: String)
    ensures
        r@ == "Template render error: "@ + text@,
{
    concat2("Template render error: ", text)
}

fn some_setting(c: &config::Config, k: &str) -> (r: Option<String>)
    ensures
        r.deep_view() == Some(string_setting(*c, k@)),
{
    Some(config_get_string(c, k))
}

fn suffix_for(mark: &str, page: u32) -> (r: String)
    ensures
        r@ == page_suffix(mark@, page),
{
    if page > 0 {
        concat2(mark, decimal_string(page as u64 + 1).as_str())
    } else {
        String::new()
    }
}

fn pages_in_all(len: usize, per_page: u32) -> (r: u32)
    ensures
        r == total_pages(len as nat, per_page),
{
    let pages = count_pages(len, per_page);
    if pages > 0xffff_ffff {
        0xffff_ffff
    } else {
        pages as u32
    }
}

impl Blog {
    /// The context that every page starts from.
    pub fn create_base_context(&self, c: &config::Config, now: u64) -> (r: Context<'_>)
        ensures
            r@ == self@.base_context(*c, now),
    {
        let fqdn = config_get_string(c, "fqdn");
        Context {
            title: some_setting(c, "title"),
            subtitle: some_setting(c, "subtitle"),
            meta_title: some_setting(c, "meta_title"),
            meta_description: some_setting(c, "meta_description"),
            locale: some_setting(c, "locale"),
            canonical: Some(concat3("https://", fqdn.as_str(), "/")),
            time: now,
            facebook_app_id: some_setting(c, "facebook_app_id"),
            facebook_user: some_setting(c, "facebook_user"),
            instagram_user: some_setting(c, "instagram_user"),
            twitter_user: some_setting(c, "twitter_user"),
            youtube_channel: some_setting(c, "youtube_channel"),
            main_menu: self.get_menu("main"),
            excerpts_tag_1: None,
            excerpts_tag_2: None,
            excerpts_tag_3: None,
            excerpts_tag_4: None,
            excerpts_tag_5: None,
            post: None,
            post_related: None,
            post_comments: None,
            instagram_posts: None,
            pinterest_posts: None,
            latest_posts: None,
            featured_posts: None,
            tag: None,
            tag_id: None,
            search_string: None,
            post_list: None,
            page_current: 0,
            page_total: 0,
        }
    }

    /// The page rendered from `template` alone, as asked for at `now`: its
    /// cached rendering, else what to render it from.
    pub fn get_html_base(&self, c: &config::Config, now: u64, template: &str) -> (r: Page<'_>)
        ensures
            r@ == self@.base_page(*c, now, template@),
    {
        let cache_key = concat2("base_", template);
        match self.cache().get_html(cache_key.as_str(), now) {
            Some(html) => {
                return Page::Cached(html);
            },
            None => {},
        }
        let mut context = self.create_base_context(c, now);
        context.instagram_posts = self.cache().get_instagram_posts();
        context.pinterest_posts = self.cache().get_pinterest_posts();
        context.latest_posts = self.cache().get_latest_posts();
        context.featured_posts = self.cache().get_featured_posts();
        context.excerpts_tag_1 = self.cache().get_posts_by_tag(1);
        context.excerpts_tag_2 = self.cache().get_posts_by_tag(2);
        context.excerpts_tag_3 = self.cache().get_posts_by_tag(3);
        context.excerpts_tag_4 = self.cache().get_posts_by_tag(4);
        context.excerpts_tag_5 = self.cache().get_posts_by_tag(5);
        Page::Render { cache_key: Some(cache_key), template: String::from_str(template), context }
    }

    /// Looks up the page at the address `url` as asked for at `now`, and
    /// says which post's view the request counts, if any. The store is only
    /// read: the view is for the caller to note.
    pub fn find_html_post(&self, now: u64, url: &str) -> (r: (PostLookup, Option<u32>))
        ensures
            r.0@ == self@.post_lookup(now, url@),
            r.1 == self@.viewed_post(now, url@),
    {
        let post_key = self.get_post_by_seo_url(url);
        if post_key == 0 {
            return (PostLookup::Missing, None);
        }
        let cache_key = concat2("post_", decimal_string(post_key as u64).as_str());
        match self.cache().get_html(cache_key.as_str(), now) {
            Some(html) => {
                return (PostLookup::Cached(html), Some(post_key));
            },
            None => {},
        }
        match self.get_post(post_key) {
            Some(post) => (PostLookup::Render { post_key }, Some(post.id)),
            None => (PostLookup::Missing, None),
        }
    }

    /// Takes a request at `now` for the page at the address `url`. Where the
    /// address leads to a post, by a cached page or by the store, the view
    /// is noted for the next round of maintenance; an address that leads to
    /// no post counts no view.
    pub fn get_html_post(
        &mut self,
        now: u64,
        url: &str,
        remote_ip: String,
        user_agent: String,
        referer: String,
    ) -> (r: PostLookup)
        ensures
            r@ == old(self)@.post_lookup(now, url@),
            final(self)@ == (match old(self)@.viewed_post(now, url@) {
                Some(post_id) => old(self)@.noted(
                    BlogMessage::PostView {
                        post_id,
                        viewed_at: now,
                        remote_ip,
                        user_agent,
                        referer,
                    },
                ),
                None => old(self)@,
            }),
    {
        let (lookup, viewed) = self.find_html_post(now, url);
        match viewed {
            Some(post_id) => {
                self.message_post_viewed(post_id, now, remote_ip, user_agent, referer);
            },
            None => {},
        }
        lookup
    }

    /// What to render the page of the post `post_key` from; nothing where
    /// the store has no such post.
    pub fn get_post_page(&self, c: &config::Config, now: u64, post_key: u32) -> (r: Option<Page<'_>>)
        ensures
            r is Some <==> self@.post_page(*c, now, post_key) is Some,
            r matches Some(page) ==> page@ == self@.post_page(*c, now, post_key)->0,
    {
        if post_key == 0 {
            return None;
        }
        let post = match self.get_post(post_key) {
            Some(post) => post,
            None => {
                return None;
            },
        };
        let mut context = self.create_base_context(c, now);
        context.post = Some(post);
        let fqdn = config_get_string(c, "fqdn");
        let address = concat3("https://", fqdn.as_str(), "/");
        assert(address@ =~= site_address(*c) + "/"@);
        context.canonical = Some(concat2(address.as_str(), post.url_canonical.as_str()));
        context.meta_title = Some(post.meta_title.clone());
        context.meta_description = Some(post.meta_description.clone());
        if post.related_posts.len() > 0 {
            context.post_related = Some(self.get_post_excerpts(&post.related_posts));
        }
        context.post_comments = self.get_post_comments(post.id);
        let cache_key = concat2("post_", decimal_string(post_key as u64).as_str());
        Some(
            Page::Render {
                cache_key: Some(cache_key),
                template: String::from_str("post.html"),
                context,
            },
        )
    }

    /// The page `page` of the search for `search_string` at `now`, given the
    /// posts that the search found, or that it failed. It is never cached.
    pub fn get_html_search(
        &self,
        c: &config::Config,
        now: u64,
        search_string: String,
        page: u32,
        found: Option<Vec<u32>>,
    ) -> (r: Page<'_>)
        ensures
            r@ == self@.search_page(*c, now, search_string@, page, found.deep_view()),
    {
        let mut context = self.create_base_context(c, now);
        match &found {
            Some(ids) => {
                let per_page = config_get_count(c, "posts_per_page");
                context.page_current = page;
                context.page_total = pages_in_all(ids.len(), per_page);
                let shown = Self::get_pagination_slice(ids, page, per_page);
                context.post_list = Some(self.get_post_excerpts(&shown));
                assert(ids.deep_view() =~= ids@);
            },
            None => {},
        }
        let page_param = suffix_for("&p=", page);
        let fqdn = config_get_string(c, "fqdn");
        let address = concat3("https://", fqdn.as_str(), "/search?q=");
        let canonical = concat3(address.as_str(), search_string.as_str(), page_param.as_str());
        assert(canonical@ =~= site_address(*c) + "/search?q="@ + search_string@ + page_suffix(
            "&p="@,
            page,
        ));
        context.canonical = Some(canonical);
        context.search_string = Some(search_string);
        Page::Render { cache_key: None, template: String::from_str("post_list.html"), context }
    }

    /// The page `page` of the tag `tag_id`, as asked for at `now`: its cached
    /// rendering, else what to render it from.
    pub fn get_html_tag(&self, c: &config::Config, now: u64, tag_id: String, page: u32) -> (r: Page<
        '_,
    >)
        ensures
            r@ == self@.tag_page(*c, now, tag_id@, page),
    {
        let head = concat3("tag_", tag_id.as_str(), "_");
        let cache_key = concat2(head.as_str(), decimal_string(page as u64).as_str());
        match self.cache().get_html(cache_key.as_str(), now) {
            Some(html) => {
                return Page::Cached(html);
            },
            None => {},
        }
        let mut context = self.create_base_context(c, now);
        match self.get_tag_posts(tag_id.as_str()) {
            Some(ids) => {
                let per_page = config_get_count(c, "posts_per_page");
                context.page_current = page;
                context.page_total = pages_in_all(ids.len(), per_page);
                let shown = Self::get_pagination_slice(ids, page, per_page);
                context.post_list = Some(self.get_post_excerpts(&shown));
            },
            None => {},
        }
        context.tag = self.get_tag(tag_id.as_str());
        let page_param = suffix_for("?p=", page);
        let fqdn = config_get_string(c, "fqdn");
        let address = concat3("https://", fqdn.as_str(), "/tag/");
        let canonical = concat3(address.as_str(), tag_id.as_str(), page_param.as_str());
        assert(canonical@ =~= site_address(*c) + "/tag/"@ + tag_id@ + page_suffix("?p="@, page));
        context.canonical = Some(canonical);
        match context.tag {
            Some(tag) => {
                if tag.meta_title.as_str().unicode_len() > 0 {
                    context.meta_title = Some(tag.meta_title.clone());
                }
                if tag.meta_description.as_str().unicode_len() > 0 {
                    context.meta_description = Some(tag.meta_description.clone());
                }
            },
            None => {},
        }
        context.tag_id = Some(tag_id);
        Page::Render {
            cache_key: Some(cache_key),
            template: String::from_str("post_list.html"),
            context,
        }
    }

    /// The rendered site map, as asked for at `now`: its cached rendering,
    /// else what to render it from.
    pub fn get_html_site_map(&self, now: u64) -> (r: Page<'_>)
        ensures
            r@ == self@.site_map_page(now),
    {
        match self.cache().get_html("site_map", now) {
            Some(html) => {
                return Page::Cached(html);
            },
            None => {},
        }
        Page::RenderSiteMap {
            cache_key: String::from_str("site_map"),
            template: String::from_str("sitemap.xml"),
            site_map: self.cache().get_site_map(),
        }
    }

    /// The rendered feed, as asked for at `now`: its cached rendering, else
    /// what to render it from.
    pub fn get_html_rss_feed(&self, c: &config::Config, now: u64) -> (r: Page<'_>)
        ensures
            r@ == self@.feed_page(*c, now),
    {
        match self.cache().get_html("rss_feed", now) {
            Some(html) => {
                return Page::Cached(html);
            },
            None => {},
        }
        let mut context = self.create_base_context(c, now);
        context.latest_posts = self.cache().get_latest_posts();
        Page::Render {
            cache_key: Some(String::from_str("rss_feed")),
            template: String::from_str("feed.rss"),
            context,
        }
    }

    /// Takes the outcome of a rendering at `now`: a page that was rendered
    /// is cached under `cache_key`, if there is one, and handed back; an
    /// error is handed back and nothing is cached.
    pub fn finish_page(
        &mut self,
        c: &config::Config,
        now: u64,
        cache_key: Option<String>,
        rendered: Result<String, String>,
    ) -> (r: Result<String, String>)
        ensures
            r == rendered,
            final(self)@ == old(self)@.with_rendered(*c, now, cache_key, rendered),
    {
        match rendered {
            Ok(html) => {
                match cache_key {
                    Some(key) => {
                        self.cache_html(c, now, key, html.clone());
                    },
                    None => {},
                }
                Ok(html)
            },
            Err(err) => Err(err),
        }
    }
}

} // verus!
