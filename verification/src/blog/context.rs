//! What a page is rendered from.

use vstd::prelude::*;
use vstd::string::*;
use crate::blog::sitemap::{SiteMap, SiteMapView};
use crate::blog::types::comment::Comment;
use crate::blog::types::menu::MenuItem;
use crate::blog::types::post::{Post, PostExcerpt, PostExcerptView, PostView};
use crate::blog::types::tag::Tag;
use crate::utils::{
    InstagramPostCompact,
    InstagramPostView,
    PinterestPostCompact,
    PinterestPostView,
};

verus! {

/// The values that a template is rendered with. What the store itself owns
/// is lent to the context; what comes from the cache is a copy.
#[derive(Debug)]
pub struct Context<'a> {
    pub title: Option<String>,
    pub subtitle: Option<String>,
    pub meta_title: Option<String>,
    pub meta_description: Option<String>,
    pub locale: Option<String>,
    pub canonical: Option<String>,
    pub time: u64,
    pub facebook_app_id: Option<String>,
    pub facebook_user: Option<String>,
    pub instagram_user: Option<String>,
    pub twitter_user: Option<String>,
    pub youtube_channel: Option<String>,
    pub main_menu: Option<&'a Vec<MenuItem>>,
    pub excerpts_tag_1: Option<Vec<PostExcerpt>>,
    pub excerpts_tag_2: Option<Vec<PostExcerpt>>,
    pub excerpts_tag_3: Option<Vec<PostExcerpt>>,
    pub excerpts_tag_4: Option<Vec<PostExcerpt>>,
    pub excerpts_tag_5: Option<Vec<PostExcerpt>>,
    pub post: Option<&'a Post>,
    pub post_related: Option<Vec<PostExcerpt>>,
    pub post_comments: Option<&'a Vec<Comment>>,
    pub instagram_posts: Option<Vec<InstagramPostCompact>>,
    pub pinterest_posts: Option<Vec<PinterestPostCompact>>,
    pub latest_posts: Option<Vec<PostExcerpt>>,
    pub featured_posts: Option<Vec<PostExcerpt>>,
    pub tag: Option<&'a Tag>,
    pub tag_id: Option<String>,
    pub search_string: Option<String>,
    pub post_list: Option<Vec<PostExcerpt>>,
    pub page_current: u32,
    pub page_total: u32,
}

/// What a `Context` holds.
pub struct ContextView {
    pub title: Option<Seq<char>>,
    pub subtitle: Option<Seq<char>>,
    pub meta_title: Option<Seq<char>>,
    pub meta_description: Option<Seq<char>>,
    pub locale: Option<Seq<char>>,
    pub canonical: Option<Seq<char>>,
    pub time: u64,
    pub facebook_app_id: Option<Seq<char>>,
    pub facebook_user: Option<Seq<char>>,
    pub instagram_user: Option<Seq<char>>,
    pub twitter_user: Option<Seq<char>>,
    pub youtube_channel: Option<Seq<char>>,
    pub main_menu: Option<Seq<MenuItem>>,
    pub excerpts_tag_1: Option<Seq<PostExcerptView>>,
    pub excerpts_tag_2: Option<Seq<PostExcerptView>>,
    pub excerpts_tag_3: Option<Seq<PostExcerptView>>,
    pub excerpts_tag_4: Option<Seq<PostExcerptView>>,
    pub excerpts_tag_5: Option<Seq<PostExcerptView>>,
    pub post: Option<PostView>,
    pub post_related: Option<Seq<PostExcerptView>>,
    pub post_comments: Option<Seq<Comment>>,
    pub instagram_posts: Option<Seq<InstagramPostView>>,
    pub pinterest_posts: Option<Seq<PinterestPostView>>,
    pub latest_posts: Option<Seq<PostExcerptView>>,
    pub featured_posts: Option<Seq<PostExcerptView>>,
    pub tag: Option<Tag>,
    pub tag_id: Option<Seq<char>>,
    pub search_string: Option<Seq<char>>,
    pub post_list: Option<Seq<PostExcerptView>>,
    pub page_current: u32,
    pub page_total: u32,
}

impl<'a> View for Context<'a> {
    type V = ContextView;

    open spec fn view(&self) -> ContextView {
        ContextView {
            title: self.title.deep_view(),
            subtitle: self.subtitle.deep_view(),
            meta_title: self.meta_title.deep_view(),
            meta_description: self.meta_description.deep_view(),
            locale: self.locale.deep_view(),
            canonical: self.canonical.deep_view(),
            time: self.time,
            facebook_app_id: self.facebook_app_id.deep_view(),
            facebook_user: self.facebook_user.deep_view(),
            instagram_user: self.instagram_user.deep_view(),
            twitter_user: self.twitter_user.deep_view(),
            youtube_channel: self.youtube_channel.deep_view(),
            main_menu: match self.main_menu {
                Some(items) => Some(items@),
                None => None,
            },
            excerpts_tag_1: self.excerpts_tag_1.deep_view(),
            excerpts_tag_2: self.excerpts_tag_2.deep_view(),
            excerpts_tag_3: self.excerpts_tag_3.deep_view(),
            excerpts_tag_4: self.excerpts_tag_4.deep_view(),
            excerpts_tag_5: self.excerpts_tag_5.deep_view(),
            post: match self.post {
                Some(post) => Some(post@),
                None => None,
            },
            post_related: self.post_related.deep_view(),
            post_comments: match self.post_comments {
                Some(list) => Some(list@),
                None => None,
            },
            instagram_posts: self.instagram_posts.deep_view(),
            pinterest_posts: self.pinterest_posts.deep_view(),
            latest_posts: self.latest_posts.deep_view(),
            featured_posts: self.featured_posts.deep_view(),
            tag: match self.tag {
                Some(tag) => Some(*tag),
                None => None,
            },
            tag_id: self.tag_id.deep_view(),
            search_string: self.search_string.deep_view(),
            post_list: self.post_list.deep_view(),
            page_current: self.page_current,
            page_total: self.page_total,
        }
    }
}

/// What is to be done for a page that was asked for.
#[derive(Debug)]
#[allow(inconsistent_fields)]
pub enum Page<'a> {
    /// The page is in the cache: this is it.
    Cached(String),
    /// The page is to be rendered from `template` and `context`, and then
    /// stored under `cache_key`, if there is one.
    Render { cache_key: Option<String>, template: String, context: Context<'a> },
    /// The site map is to be rendered from `template` and `site_map`, and
    /// then stored under `cache_key`.
    RenderSiteMap { cache_key: String, template: String, site_map: Option<SiteMap> },
}

/// What a `Page` holds.
#[allow(inconsistent_fields)]
pub enum PageView {
    Cached(Seq<char>),
    Render { cache_key: Option<Seq<char>>, template: Seq<char>, context: ContextView },
    RenderSiteMap { cache_key: Seq<char>, template: Seq<char>, site_map: Option<SiteMapView> },
}

impl<'a> View for Page<'a> {
    type V = PageView;

    open spec fn view(&self) -> PageView {
        match *self {
            Page::Cached(html) => PageView::Cached(html@),
            Page::Render { cache_key, template, context } => PageView::Render {
                cache_key: cache_key.deep_view(),
                template: template@,
                context: context@,
            },
            Page::RenderSiteMap { cache_key, template, site_map } => PageView::RenderSiteMap {
                cache_key: cache_key@,
                template: template@,
                site_map: site_map.deep_view(),
            },
        }
    }
}

/// What a request for a post's page comes to.
#[derive(Debug, PartialEq)]
pub enum PostLookup {
    /// The page is in the cache: this is it.
    Cached(String),
    /// The page of the post `post_key` is to be rendered.
    Render { post_key: u32 },
    /// The address leads to no post.
    Missing,
}

/// What a `PostLookup` holds.
pub enum PostLookupView {
    Cached(Seq<char>),
    Render { post_key: u32 },
    Missing,
}

impl View for PostLookup {
    type V = PostLookupView;

    open spec fn view(&self) -> PostLookupView {
        match *self {
            PostLookup::Cached(html) => PostLookupView::Cached(html@),
            PostLookup::Render { post_key } => PostLookupView::Render { post_key },
            PostLookup::Missing => PostLookupView::Missing,
        }
    }
}

} // verus!
