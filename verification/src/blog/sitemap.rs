//! The site map: every address that search engines should know of.

use vstd::prelude::*;
use vstd::string::*;
use crate::blog::types::post::{Post, PostMedia, PostMediaView, PostView};
use crate::text::{concat2, concat3, contains, contains_text, decimal, decimal_string};

verus! {

/// A picture listed under an address of the site map.
#[derive(Debug, PartialEq)]
pub struct SiteMapImage {
    pub loc: String,
    pub title: Option<String>,
    pub caption: Option<String>,
}

/// What a `SiteMapImage` holds.
pub struct SiteMapImageView {
    pub loc: Seq<char>,
    pub title: Option<Seq<char>>,
    pub caption: Option<Seq<char>>,
}

impl View for SiteMapImage {
    type V = SiteMapImageView;

    open spec fn view(&self) -> SiteMapImageView {
        SiteMapImageView {
            loc: self.loc@,
            title: self.title.deep_view(),
            caption: self.caption.deep_view(),
        }
    }
}

impl DeepView for SiteMapImage {
    type V = SiteMapImageView;

    open spec fn deep_view(&self) -> SiteMapImageView {
        self@
    }
}

/// A copy of an optional string.
pub fn clone_opt_string(s: &Option<String>) -> (r: Option<String>)
    ensures
        r.deep_view() == s.deep_view(),
{
    match s {
        Some(t) => Some(t.clone()),
        None => None,
    }
}

impl Clone for SiteMapImage {
    fn clone(&self) -> (r: Self)
        ensures
            r@ == self@,
    {
        SiteMapImage {
            loc: self.loc.clone(),
            title: clone_opt_string(&self.title),
            caption: clone_opt_string(&self.caption),
        }
    }
}

/// One address of the site map.
#[derive(Debug, PartialEq)]
pub struct SiteMapUrl {
    pub loc: String,
    pub lastmod: u64,
    pub changefreq: Option<String>,
    pub priority: Option<String>,
    pub images: Option<Vec<SiteMapImage>>,
}

/// What a `SiteMapUrl` holds.
pub struct SiteMapUrlView {
    pub loc: Seq<char>,
    pub lastmod: u64,
    pub changefreq: Option<Seq<char>>,
    pub priority: Option<Seq<char>>,
    pub images: Option<Seq<SiteMapImageView>>,
}

impl View for SiteMapUrl {
    type V = SiteMapUrlView;

    open spec fn view(&self) -> SiteMapUrlView {
        SiteMapUrlView {
            loc: self.loc@,
            lastmod: self.lastmod,
            changefreq: self.changefreq.deep_view(),
            priority: self.priority.deep_view(),
            images: self.images.deep_view(),
        }
    }
}

impl DeepView for SiteMapUrl {
    type V = SiteMapUrlView;

    open spec fn deep_view(&self) -> SiteMapUrlView {
        self@
    }
}

impl Clone for SiteMapUrl {
    fn clone(&self) -> (r: Self)
        ensures
            r@ == self@,
    {
        let images = match &self.images {
            Some(list) => {
                let copy = list.clone();
                assert(copy.deep_view() =~= list.deep_view());
                Some(copy)
            },
            None => None,
        };
        SiteMapUrl {
            loc: self.loc.clone(),
            lastmod: self.lastmod,
            changefreq: clone_opt_string(&self.changefreq),
            priority: clone_opt_string(&self.priority),
            images,
        }
    }
}

/// The site map.
#[derive(Debug, PartialEq)]
pub struct SiteMap {
    pub content: Option<Vec<SiteMapUrl>>,
}

/// What a `SiteMap` holds.
pub struct SiteMapView {
    pub content: Option<Seq<SiteMapUrlView>>,
}

impl View for SiteMap {
    type V = SiteMapView;

    open spec fn view(&self) -> SiteMapView {
        SiteMapView { content: self.content.deep_view() }
    }
}

impl DeepView for SiteMap {
    type V = SiteMapView;

    open spec fn deep_view(&self) -> SiteMapView {
        self@
    }
}

impl Clone for SiteMap {
    fn clone(&self) -> (r: Self)
        ensures
            r@ == self@,
    {
        let content = match &self.content {
            Some(list) => {
                let copy = list.clone();
                assert(copy.deep_view() =~= list.deep_view());
                Some(copy)
            },
            None => None,
        };
        SiteMap { content }
    }
}


/// The host whose pictures the site map lists.
pub open spec fn listed_host() -> Seq<char> {
    "nomadicdays.org"@
}

/// A text, unless it is empty.
pub open spec fn text_or_none(s: Seq<char>) -> Option<Seq<char>> {
    if s.len() == 0 {
        None
    } else {
        Some(s)
    }
}

/// The site map's picture for a medium.
pub open spec fn image_of(m: PostMediaView) -> SiteMapImageView {
    SiteMapImageView {
        loc: m.source,
        title: text_or_none(m.title),
        caption: text_or_none(m.caption),
    }
}

/// The pictures that the site map lists for a post: those of its media whose
/// source names the listed host, in their order.
pub open spec fn images_of(media: Seq<PostMediaView>) -> Seq<SiteMapImageView>
    decreases media.len(),
{
    if media.len() == 0 {
        Seq::empty()
    } else if contains_text(media.last().source, listed_host()) {
        images_of(media.drop_last()).push(image_of(media.last()))
    } else {
        images_of(media.drop_last())
    }
}

/// The site map's address for a post: its canonical address under `base`,
/// with its pictures.
pub open spec fn post_location(base: Seq<char>, p: PostView) -> SiteMapUrlView {
    SiteMapUrlView {
        loc: base + p.url_canonical,
        lastmod: p.date_modified,
        changefreq: None,
        priority: Some("0.9"@),
        images: if images_of(p.media).len() > 0 {
            Some(images_of(p.media))
        } else {
            None
        },
    }
}

/// The site map's addresses for the posts, in their order.
pub open spec fn post_locations(base: Seq<char>, posts: Seq<PostView>) -> Seq<SiteMapUrlView> {
    Seq::new(posts.len(), |i: int| post_location(base, posts[i]))
}

/// The number of pages that `len` items fill at `per_page` items a page;
/// none where a page holds nothing.
pub open spec fn page_count(len: nat, per_page: nat) -> nat {
    if per_page == 0 {
        0
    } else if len % per_page == 0 {
        len / per_page
    } else {
        len / per_page + 1
    }
}

/// The site map's address for the page `page` of a tag, counted from 1.
pub open spec fn tag_location(base: Seq<char>, tag: Seq<char>, page: nat, time: u64) -> SiteMapUrlView {
    SiteMapUrlView {
        loc: if page == 1 {
            base + "tag/"@ + tag
        } else {
            base + "tag/"@ + tag + "?p="@ + decimal(page)
        },
        lastmod: time,
        changefreq: None,
        priority: Some("0.5"@),
        images: None,
    }
}

/// The site map's addresses for the first `pages` pages of a tag.
pub open spec fn tag_locations(base: Seq<char>, tag: Seq<char>, pages: nat, time: u64) -> Seq<
    SiteMapUrlView,
> {
    Seq::new(pages, |i: int| tag_location(base, tag, (i + 1) as nat, time))
}

/// The number of pages that `len` items fill at `per_page` items a page.
pub fn count_pages(len: usize, per_page: u32) -> (r: usize)
    ensures
        r == page_count(len as nat, per_page as nat),
{
    if per_page == 0 {
        0
    } else if len % (per_page as usize) == 0 {
        len / (per_page as usize)
    } else {
        assert(per_page >= 2);
        assert((len as int) / (per_page as int) < usize::MAX as int) by (nonlinear_arith)
            requires
                per_page >= 2,
                0 <= len <= usize::MAX,
        ;
        len / (per_page as usize) + 1
    }
}

fn text_unless_empty(s: &String) -> (r: Option<String>)
    ensures
        r.deep_view() == text_or_none(s@),
{
    if s.as_str().unicode_len() == 0 {
        None
    } else {
        Some(s.clone())
    }
}

/// The pictures that the site map lists for the media of a post.
pub fn images_for(media: &Vec<PostMedia>) -> (r: Vec<SiteMapImage>)
    ensures
        r.deep_view() == images_of(media.deep_view()),
{
    let ghost all = media.deep_view();
    let mut out: Vec<SiteMapImage> = Vec::new();
    let mut i: usize = 0;
    assert(out.deep_view() =~= images_of(all.take(0)));
    while i < media.len()
        invariant
            i <= media.len(),
            all == media.deep_view(),
            out.deep_view() == images_of(all.take(i as int)),
        decreases media.len() - i,
    {
        let image = &media[i];
        proof {
            assert(all.take(i + 1).drop_last() =~= all.take(i as int));
            assert(all.take(i + 1).last() == image@);
        }
        if contains(image.source.as_str(), "nomadicdays.org") {
            let ghost before = out.deep_view();
            let item = SiteMapImage {
                loc: image.source.clone(),
                title: text_unless_empty(&image.title),
                caption: text_unless_empty(&image.caption),
            };
            out.push(item);
            assert(out.deep_view() =~= before.push(image_of(image@)));
        }
        i = i + 1;
    }
    assert(all.take(media.len() as int) =~= all);
    out
}

/// The site map's address for `post` under `base`.
pub fn location_of_post(base: &str, post: &Post) -> (r: SiteMapUrl)
    ensures
        r@ == post_location(base@, post@),
{
    let images = images_for(&post.media);
    SiteMapUrl {
        loc: concat2(base, post.url_canonical.as_str()),
        lastmod: post.date_modified,
        changefreq: None,
        priority: Some(String::from_str("0.9")),
        images: if images.len() > 0 {
            Some(images)
        } else {
            None
        },
    }
}

/// Appends the site map's addresses for the first `pages` pages of `tag`.
pub fn push_tag_locations(
    locs: &mut Vec<SiteMapUrl>,
    base: &str,
    tag: &str,
    pages: usize,
    time: u64,
)
    ensures
        final(locs).deep_view() == old(locs).deep_view() + tag_locations(
            base@,
            tag@,
            pages as nat,
            time,
        ),
{
    let ghost start = locs.deep_view();
    let first = concat3(base, "tag/", tag);
    let mut page: usize = 0;
    assert(locs.deep_view() =~= start + tag_locations(base@, tag@, 0, time));
    while page < pages
        invariant
            page <= pages,
            first@ == base@ + "tag/"@ + tag@,
            locs.deep_view() == start + tag_locations(base@, tag@, page as nat, time),
        decreases pages - page,
    {
        page = page + 1;
        let ghost before = locs.deep_view();
        let loc = if page == 1 {
            first.clone()
        } else {
            concat3(first.as_str(), "?p=", decimal_string(page as u64).as_str())
        };
        let item = SiteMapUrl {
            loc,
            lastmod: time,
            changefreq: None,
            priority: Some(String::from_str("0.5")),
            images: None,
        };
        assert(item@ == tag_location(base@, tag@, page as nat, time));
        locs.push(item);
        assert(locs.deep_view() =~= before.push(item@));
        assert(locs.deep_view() =~= start + tag_locations(base@, tag@, page as nat, time));
    }
}

} // verus!
