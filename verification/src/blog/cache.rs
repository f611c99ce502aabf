//! The cache store: named entries, each with its own time of expiry.
//!
//! An entry is superseded by key and never removed. Rendered pages carry the
//! time they were made as well, and all of them made before a moment can be
//! invalidated at once by moving a watermark.

use vstd::prelude::*;
use vstd::hash_map::StringHashMap;
use vstd::string::*;
use crate::blog::sitemap::{SiteMap, SiteMapView};
use crate::blog::types::post::{PostExcerpt, PostExcerptView};
use crate::config::{config_get_seconds, seconds_setting};
use crate::text::{concat2, decimal, decimal_string};
use crate::utils::{
    InstagramPostCompact,
    InstagramPostView,
    PinterestPostCompact,
    PinterestPostView,
};

verus! {

/// What the cache can hold under a key.
#[allow(inconsistent_fields)]
#[derive(Debug, PartialEq)]
pub enum CacheItem {
    PinterestPosts { decay_time: u64, data: Vec<PinterestPostCompact> },
    InstagramPosts { decay_time: u64, data: Vec<InstagramPostCompact> },
    FeaturedPosts { decay_time: u64, data: Vec<PostExcerpt> },
    LatestPosts { decay_time: u64, data: Vec<PostExcerpt> },
    CachedTag { decay_time: u64, data: Vec<PostExcerpt> },
    SiteMap { data: SiteMap },
    Html { cached_at: u64, decay_time: u64, data: String },
}

/// What a `CacheItem` holds.
#[allow(inconsistent_fields)]
pub enum CacheEntry {
    PinterestPosts { decay_time: u64, data: Seq<PinterestPostView> },
    InstagramPosts { decay_time: u64, data: Seq<InstagramPostView> },
    FeaturedPosts { decay_time: u64, data: Seq<PostExcerptView> },
    LatestPosts { decay_time: u64, data: Seq<PostExcerptView> },
    CachedTag { decay_time: u64, data: Seq<PostExcerptView> },
    SiteMap { data: SiteMapView },
    Html { cached_at: u64, decay_time: u64, data: Seq<char> },
}

impl View for CacheItem {
    type V = CacheEntry;

    open spec fn view(&self) -> CacheEntry {
        match *self {
            CacheItem::PinterestPosts { decay_time, data } => CacheEntry::PinterestPosts {
                decay_time,
                data: data.deep_view(),
            },
            CacheItem::InstagramPosts { decay_time, data } => CacheEntry::InstagramPosts {
                decay_time,
                data: data.deep_view(),
            },
            CacheItem::FeaturedPosts { decay_time, data } => CacheEntry::FeaturedPosts {
                decay_time,
                data: data.deep_view(),
            },
            CacheItem::LatestPosts { decay_time, data } => CacheEntry::LatestPosts {
                decay_time,
                data: data.deep_view(),
            },
            CacheItem::CachedTag { decay_time, data } => CacheEntry::CachedTag {
                decay_time,
                data: data.deep_view(),
            },
            CacheItem::SiteMap { data } => CacheEntry::SiteMap { data: data@ },
            CacheItem::Html { cached_at, decay_time, data } => CacheEntry::Html {
                cached_at,
                decay_time,
                data: data@,
            },
        }
    }
}

impl DeepView for CacheItem {
    type V = CacheEntry;

    open spec fn deep_view(&self) -> CacheEntry {
        self@
    }
}

/// A copy of a list of excerpts.
pub fn clone_excerpts(list: &Vec<PostExcerpt>) -> (r: Vec<PostExcerpt>)
    ensures
        r.deep_view() == list.deep_view(),
{
    let copy = list.clone();
    assert(copy.deep_view() =~= list.deep_view());
    copy
}

impl Clone for CacheItem {
    fn clone(&self) -> (r: Self)
        ensures
            r@ == self@,
    {
        match self {
            CacheItem::PinterestPosts { decay_time, data } => {
                let copy = data.clone();
                assert(copy.deep_view() =~= data.deep_view());
                CacheItem::PinterestPosts { decay_time: *decay_time, data: copy }
            },
            CacheItem::InstagramPosts { decay_time, data } => {
                let copy = data.clone();
                assert(copy.deep_view() =~= data.deep_view());
                CacheItem::InstagramPosts { decay_time: *decay_time, data: copy }
            },
            CacheItem::FeaturedPosts { decay_time, data } => CacheItem::FeaturedPosts {
                decay_time: *decay_time,
                data: clone_excerpts(data),
            },
            CacheItem::LatestPosts { decay_time, data } => CacheItem::LatestPosts {
                decay_time: *decay_time,
                data: clone_excerpts(data),
            },
            CacheItem::CachedTag { decay_time, data } => CacheItem::CachedTag {
                decay_time: *decay_time,
                data: clone_excerpts(data),
            },
            CacheItem::SiteMap { data } => CacheItem::SiteMap { data: data.clone() },
            CacheItem::Html { cached_at, decay_time, data } => CacheItem::Html {
                cached_at: *cached_at,
                decay_time: *decay_time,
                data: data.clone(),
            },
        }
    }
}

/// The moment after which an entry counts as expired. The site map has none:
/// it is replaced only when the posts are loaded again.
pub open spec fn expiry(e: CacheEntry) -> u64 {
    match e {
        CacheEntry::PinterestPosts { decay_time, .. } => decay_time,
        CacheEntry::InstagramPosts { decay_time, .. } => decay_time,
        CacheEntry::FeaturedPosts { decay_time, .. } => decay_time,
        CacheEntry::LatestPosts { decay_time, .. } => decay_time,
        CacheEntry::CachedTag { decay_time, .. } => decay_time,
        CacheEntry::SiteMap { .. } => u64::MAX,
        CacheEntry::Html { decay_time, .. } => decay_time,
    }
}

/// The expiry of an entry made at `now` to live for `ttl` seconds: their sum,
/// held at the largest moment there is.
pub open spec fn expires_at(now: u64, ttl: u64) -> u64 {
    if now + ttl > u64::MAX {
        u64::MAX
    } else {
        (now + ttl) as u64
    }
}

/// The key of the site map.
pub open spec fn sitemap_key() -> Seq<char> {
    "sitemap"@
}

/// The key of the second social feed.
pub open spec fn pinterest_key() -> Seq<char> {
    "pinterest_posts"@
}

/// The key of the first social feed.
pub open spec fn instagram_key() -> Seq<char> {
    "instagram_posts"@
}

/// The key of the excerpts of the latest posts.
pub open spec fn latest_key() -> Seq<char> {
    "latest_posts"@
}

/// The key of the excerpts of the most viewed posts.
pub open spec fn featured_key() -> Seq<char> {
    "featured_posts"@
}

/// The key of the excerpts of the `n`th configured tag.
pub open spec fn tag_posts_key(n: u8) -> Seq<char> {
    "post_by_tag_"@ + decimal(n as nat)
}

/// The key of the rendered page that callers know as `key`.
pub open spec fn html_key(key: Seq<char>) -> Seq<char> {
    "html_"@ + key
}

/// What a cache holds: its entries by key, and the watermark before which no
/// rendered page counts.
pub struct CacheView {
    pub entries: Map<Seq<char>, CacheEntry>,
    pub html_min_time: u64,
}

impl CacheView {
    /// The cache with `e` under `key`, whatever stood there.
    pub open spec fn put(self, key: Seq<char>, e: CacheEntry) -> CacheView {
        CacheView { entries: self.entries.insert(key, e), ..self }
    }

    /// The entry under `key`, if there is one.
    pub open spec fn lookup(self, key: Seq<char>) -> Option<CacheEntry> {
        if self.entries.contains_key(key) {
            Some(self.entries[key])
        } else {
            None
        }
    }

    /// There is an entry under `key` and at `now` it has not expired.
    pub open spec fn fresh(self, key: Seq<char>, now: u64) -> bool {
        self.entries.contains_key(key) && now <= expiry(self.entries[key])
    }

    /// The cache after an attempt at `now` to refresh `key`: unchanged where
    /// the entry is still fresh or the fetch gave nothing, else with what the
    /// fetch gave.
    pub open spec fn refreshed(self, key: Seq<char>, now: u64, fetched: Option<CacheEntry>) -> CacheView {
        if self.fresh(key, now) {
            self
        } else {
            match fetched {
                Some(e) => self.put(key, e),
                None => self,
            }
        }
    }

    /// The cache after the second social feed was refreshed at `now` with
    /// what was fetched, to live for the seconds of `pinterest_lifetime`.
    pub open spec fn with_pinterest(
        self,
        c: config::Config,
        now: u64,
        fetched: Option<Seq<PinterestPostView>>,
    ) -> CacheView {
        self.refreshed(
            pinterest_key(),
            now,
            match fetched {
                Some(data) => Some(
                    CacheEntry::PinterestPosts {
                        decay_time: expires_at(now, seconds_setting(c, "pinterest_lifetime"@)),
                        data,
                    },
                ),
                None => None,
            },
        )
    }

    /// The cache after the first social feed was refreshed at `now` with what
    /// was fetched, to live for the seconds of `instagram_lifetime`.
    pub open spec fn with_instagram(
        self,
        c: config::Config,
        now: u64,
        fetched: Option<Seq<InstagramPostView>>,
    ) -> CacheView {
        self.refreshed(
            instagram_key(),
            now,
            match fetched {
                Some(data) => Some(
                    CacheEntry::InstagramPosts {
                        decay_time: expires_at(now, seconds_setting(c, "instagram_lifetime"@)),
                        data,
                    },
                ),
                None => None,
            },
        )
    }

    /// The cache after the latest posts were refreshed at `now` with what was
    /// fetched, to live for the seconds of `latest_posts_lifetime`. A fetch
    /// that gave no excerpt counts as one that failed.
    pub open spec fn with_latest(
        self,
        c: config::Config,
        now: u64,
        fetched: Option<Seq<PostExcerptView>>,
    ) -> CacheView {
        self.refreshed(
            latest_key(),
            now,
            match fetched {
                Some(data) => if data.len() > 0 {
                    Some(
                        CacheEntry::LatestPosts {
                            decay_time: expires_at(
                                now,
                                seconds_setting(c, "latest_posts_lifetime"@),
                            ),
                            data,
                        },
                    )
                } else {
                    None
                },
                None => None,
            },
        )
    }

    /// The cache after the most viewed posts were refreshed at `now` with
    /// what was fetched, to live for the seconds of
    /// `featured_posts_lifetime`. A fetch that gave no excerpt counts as one
    /// that failed.
    pub open spec fn with_featured(
        self,
        c: config::Config,
        now: u64,
        fetched: Option<Seq<PostExcerptView>>,
    ) -> CacheView {
        self.refreshed(
            featured_key(),
            now,
            match fetched {
                Some(data) => if data.len() > 0 {
                    Some(
                        CacheEntry::FeaturedPosts {
                            decay_time: expires_at(
                                now,
                                seconds_setting(c, "featured_posts_lifetime"@),
                            ),
                            data,
                        },
                    )
                } else {
                    None
                },
                None => None,
            },
        )
    }

    /// The cache after the `n`th configured tag, `tag`, was refreshed at
    /// `now` with the excerpts `found`, to live for the seconds of
    /// `cached_tag_lifetime`. A tag without a name is not configured, and no
    /// excerpt counts as a fetch that failed.
    pub open spec fn with_tag(
        self,
        c: config::Config,
        now: u64,
        n: u8,
        tag: Seq<char>,
        found: Seq<PostExcerptView>,
    ) -> CacheView {
        if tag.len() == 0 {
            self
        } else {
            self.refreshed(
                tag_posts_key(n),
                now,
                if found.len() > 0 {
                    Some(
                        CacheEntry::CachedTag {
                            decay_time: expires_at(
                                now,
                                seconds_setting(c, "cached_tag_lifetime"@),
                            ),
                            data: found,
                        },
                    )
                } else {
                    None
                },
            )
        }
    }

    /// The cache with the page that callers know as `key`, rendered at `now`
    /// to live for the seconds of `cache_expire_html`.
    pub open spec fn with_html(
        self,
        c: config::Config,
        now: u64,
        key: Seq<char>,
        html: Seq<char>,
    ) -> CacheView {
        self.put(
            html_key(key),
            html_entry(now, seconds_setting(c, "cache_expire_html"@), html),
        )
    }

    /// The cache with the site map `map`.
    pub open spec fn with_sitemap(self, map: SiteMapView) -> CacheView {
        self.put(sitemap_key(), CacheEntry::SiteMap { data: map })
    }

    /// The site map, if it is stored.
    pub open spec fn site_map(self) -> Option<SiteMapView> {
        match self.lookup(sitemap_key()) {
            Some(CacheEntry::SiteMap { data }) => Some(data),
            _ => None,
        }
    }

    /// The second social feed, if it is stored.
    pub open spec fn pinterest_posts(self) -> Option<Seq<PinterestPostView>> {
        match self.lookup(pinterest_key()) {
            Some(CacheEntry::PinterestPosts { data, .. }) => Some(data),
            _ => None,
        }
    }

    /// The first social feed, if it is stored.
    pub open spec fn instagram_posts(self) -> Option<Seq<InstagramPostView>> {
        match self.lookup(instagram_key()) {
            Some(CacheEntry::InstagramPosts { data, .. }) => Some(data),
            _ => None,
        }
    }

    /// The excerpts of the latest posts, if they are stored.
    pub open spec fn latest_posts(self) -> Option<Seq<PostExcerptView>> {
        match self.lookup(latest_key()) {
            Some(CacheEntry::LatestPosts { data, .. }) => Some(data),
            _ => None,
        }
    }

    /// The excerpts of the most viewed posts, if they are stored.
    pub open spec fn featured_posts(self) -> Option<Seq<PostExcerptView>> {
        match self.lookup(featured_key()) {
            Some(CacheEntry::FeaturedPosts { data, .. }) => Some(data),
            _ => None,
        }
    }

    /// The excerpts of the `n`th configured tag, if they are stored.
    pub open spec fn posts_by_tag(self, n: u8) -> Option<Seq<PostExcerptView>> {
        match self.lookup(tag_posts_key(n)) {
            Some(CacheEntry::CachedTag { data, .. }) => Some(data),
            _ => None,
        }
    }

    /// The cache with the watermark at `now`.
    pub open spec fn invalidated(self, now: u64) -> CacheView {
        CacheView { html_min_time: now, ..self }
    }

    /// The rendered page that callers know as `key`, as it reads at `now`:
    /// none where none was stored, where its expiry has passed, or where it
    /// was made before the watermark.
    pub open spec fn html(self, key: Seq<char>, now: u64) -> Option<Seq<char>> {
        match self.lookup(html_key(key)) {
            Some(CacheEntry::Html { cached_at, decay_time, data }) => if decay_time < now
                || cached_at < self.html_min_time {
                None
            } else {
                Some(data)
            },
            _ => None,
        }
    }
}

/// The rendered page stored at `now` under the lifetime `ttl`.
pub open spec fn html_entry(now: u64, ttl: u64, html: Seq<char>) -> CacheEntry {
    CacheEntry::Html { cached_at: now, decay_time: expires_at(now, ttl), data: html }
}

/// An entry stored at `t0` to live for `ttl` seconds is fresh at every moment
/// up to `t0 + ttl`, and at none after it: up to then a refresh changes
/// nothing and asks for no fetch, after it the entry is due again.
pub proof fn lemma_entry_lives_its_ttl(
    v: CacheView,
    key: Seq<char>,
    e: CacheEntry,
    t0: u64,
    ttl: u64,
    t: u64,
    again: Option<CacheEntry>,
)
    requires
        t0 + ttl <= u64::MAX,
        expiry(e) == expires_at(t0, ttl),
    ensures
        v.put(key, e).fresh(key, t) <==> t <= t0 + ttl,
        t <= t0 + ttl ==> v.put(key, e).refreshed(key, t, again) == v.put(key, e),
        t > t0 + ttl && again is Some ==> v.put(key, e).refreshed(key, t, again) == v.put(
            key,
            again->0,
        ),
{
    assert(v.put(key, e).put(key, again->0) =~= v.put(key, again->0)) by {
        assert(v.entries.insert(key, e).insert(key, again->0) =~= v.entries.insert(
            key,
            again->0,
        ));
    }
}

/// The life of a feed in the cache. A feed that was due at `t0` and fetched
/// then is stored to expire one lifetime later. From then until its expiry
/// it is fresh, so that no fetch is asked for, and a refresh changes
/// nothing whatever is handed in. After its expiry it is due again.
pub proof fn lemma_feed_refresh_cycle(
    v: CacheView,
    c: config::Config,
    t0: u64,
    data: Seq<PinterestPostView>,
    t: u64,
    again: Option<Seq<PinterestPostView>>,
)
    requires
        !v.fresh(pinterest_key(), t0),
        t0 + seconds_setting(c, "pinterest_lifetime"@) <= u64::MAX,
    ensures
        v.with_pinterest(c, t0, Some(data)).lookup(pinterest_key()) == Some(
            CacheEntry::PinterestPosts {
                decay_time: (t0 + seconds_setting(c, "pinterest_lifetime"@)) as u64,
                data,
            },
        ),
        t <= t0 + seconds_setting(c, "pinterest_lifetime"@) ==> v.with_pinterest(
            c,
            t0,
            Some(data),
        ).fresh(pinterest_key(), t) && v.with_pinterest(c, t0, Some(data)).with_pinterest(
            c,
            t,
            again,
        ) == v.with_pinterest(c, t0, Some(data)),
        t > t0 + seconds_setting(c, "pinterest_lifetime"@) ==> !v.with_pinterest(
            c,
            t0,
            Some(data),
        ).fresh(pinterest_key(), t),
{
}

/// A refresh whose fetch fails leaves the cache as it was: what was stored
/// stays readable, and no expiry moves.
pub proof fn lemma_failed_fetch_keeps_entry(v: CacheView, key: Seq<char>, now: u64)
    ensures
        v.refreshed(key, now, None) == v,
        v.refreshed(key, now, None).lookup(key) == v.lookup(key),
{
}

/// A page rendered at `t1` reads as absent once the watermark has been moved
/// to a later moment `t2`, at whatever time it is asked for and although its
/// own expiry has not passed.
pub proof fn lemma_watermark_hides_older_pages(
    v: CacheView,
    key: Seq<char>,
    html: Seq<char>,
    t1: u64,
    ttl: u64,
    t2: u64,
    now: u64,
)
    requires
        t1 < t2,
    ensures
        v.put(html_key(key), html_entry(t1, ttl, html)).invalidated(t2).html(key, now) is None,
{
}

/// A page rendered at `t3`, at or after the watermark, reads as stored from
/// then until its expiry.
pub proof fn lemma_watermark_spares_newer_pages(
    v: CacheView,
    key: Seq<char>,
    html: Seq<char>,
    t2: u64,
    t3: u64,
    ttl: u64,
    now: u64,
)
    requires
        t2 <= t3,
        now <= expires_at(t3, ttl),
    ensures
        v.invalidated(t2).put(html_key(key), html_entry(t3, ttl, html)).html(key, now) == Some(
            html,
        ),
{
}

/// Moving the watermark touches no entry.
pub proof fn lemma_invalidation_keeps_entries(v: CacheView, now: u64, key: Seq<char>)
    ensures
        v.invalidated(now).lookup(key) == v.lookup(key),
        v.invalidated(now).entries == v.entries,
{
}

/// The cache store.
pub struct Cache {
    cache: StringHashMap<CacheItem>,
    html_cache_min_time: u64,
}

impl View for Cache {
    type V = CacheView;

    closed spec fn view(&self) -> CacheView {
        CacheView {
            entries: self.cache@.map_values(|i: CacheItem| i@),
            html_min_time: self.html_cache_min_time,
        }
    }
}

impl Cache {
    /// An empty cache with the watermark at the beginning of time.
    pub fn new() -> (r: Cache)
        ensures
            r@ == (CacheView { entries: Map::empty(), html_min_time: 0 }),
    {
        let r = Cache { cache: StringHashMap::new(), html_cache_min_time: 0 };
        assert(r@.entries =~= Map::empty());
        r
    }

    /// Puts `item` under `key`, whatever stood there.
    pub fn put(&mut self, key: String, item: CacheItem)
        ensures
            final(self)@ == old(self)@.put(key@, item@),
    {
        self.cache.insert(key, item);
        assert(final(self)@.entries =~= old(self)@.entries.insert(key@, item@));
    }

    /// Refreshes the entry under `key` at `now` with what was fetched for
    /// it: the cache stays as it is while the entry is fresh, and where the
    /// fetch gave nothing; else what was fetched takes the entry's place.
    /// What is stale is served until a fetch succeeds.
    pub fn refresh_if_expired(&mut self, now: u64, key: String, fetched: Option<CacheItem>)
        ensures
            final(self)@ == old(self)@.refreshed(key@, now, fetched.deep_view()),
    {
        if self.not_yet_expired(now, key.as_str()) {
            return ;
        }
        match fetched {
            Some(item) => {
                self.put(key, item);
            },
            None => {},
        }
    }

    /// Stores the site map.
    pub fn cache_sitemap(&mut self, sitemap: SiteMap)
        ensures
            final(self)@ == old(self)@.with_sitemap(sitemap@),
    {
        self.put(String::from_str("sitemap"), CacheItem::SiteMap { data: sitemap });
    }

    /// Stores the rendered page that callers know as `key`, made at `now`, to
    /// live for as many seconds as the setting `cache_expire_html` says.
    pub fn cache_html(&mut self, c: &config::Config, now: u64, key: String, html: String)
        ensures
            final(self)@ == old(self)@.with_html(*c, now, key@, html@),
    {
        let life_time = config_get_seconds(c, "cache_expire_html");
        let cache_key = concat2("html_", key.as_str());
        self.put(
            cache_key,
            CacheItem::Html {
                cached_at: now,
                decay_time: now.saturating_add(life_time),
                data: html,
            },
        );
    }

    /// Refreshes the second social feed at `now` with what was fetched: the
    /// cache stays as it is while the entry is fresh and where the fetch
    /// failed; else the feed is stored to live for as many seconds as the
    /// setting `pinterest_lifetime` says.
    pub fn cache_pinterest_posts(
        &mut self,
        c: &config::Config,
        now: u64,
        fetched: Option<Vec<PinterestPostCompact>>,
    )
        ensures
            final(self)@ == old(self)@.with_pinterest(*c, now, fetched.deep_view()),
    {
        let life_time = config_get_seconds(c, "pinterest_lifetime");
        let item = match fetched {
            Some(data) => Some(
                CacheItem::PinterestPosts { decay_time: now.saturating_add(life_time), data },
            ),
            None => None,
        };
        self.refresh_if_expired(now, String::from_str("pinterest_posts"), item);
    }

    /// Refreshes the first social feed at `now` with what was fetched: the
    /// cache stays as it is while the entry is fresh and where the fetch
    /// failed; else the feed is stored to live for as many seconds as the
    /// setting `instagram_lifetime` says.
    pub fn cache_instagram_posts(
        &mut self,
        c: &config::Config,
        now: u64,
        fetched: Option<Vec<InstagramPostCompact>>,
    )
        ensures
            final(self)@ == old(self)@.with_instagram(*c, now, fetched.deep_view()),
    {
        let life_time = config_get_seconds(c, "instagram_lifetime");
        let item = match fetched {
            Some(data) => Some(
                CacheItem::InstagramPosts { decay_time: now.saturating_add(life_time), data },
            ),
            None => None,
        };
        self.refresh_if_expired(now, String::from_str("instagram_posts"), item);
    }

    /// Refreshes the excerpts of the latest posts at `now`: the cache stays
    /// as it is while the entry is fresh, where the fetch failed and where it
    /// gave no excerpt; else the excerpts are stored to live for as many
    /// seconds as the setting `latest_posts_lifetime` says.
    pub fn cache_latest_posts(
        &mut self,
        c: &config::Config,
        now: u64,
        fetched: Option<Vec<PostExcerpt>>,
    )
        ensures
            final(self)@ == old(self)@.with_latest(*c, now, fetched.deep_view()),
    {
        let life_time = config_get_seconds(c, "latest_posts_lifetime");
        let item = match fetched {
            Some(data) => if data.len() > 0 {
                Some(CacheItem::LatestPosts { decay_time: now.saturating_add(life_time), data })
            } else {
                None
            },
            None => None,
        };
        self.refresh_if_expired(now, String::from_str("latest_posts"), item);
    }

    /// Refreshes the excerpts of the most viewed posts at `now`: the cache
    /// stays as it is while the entry is fresh, where the fetch failed and
    /// where it gave no excerpt; else the excerpts are stored to live for as
    /// many seconds as the setting `featured_posts_lifetime` says.
    pub fn cache_featured_posts(
        &mut self,
        c: &config::Config,
        now: u64,
        fetched: Option<Vec<PostExcerpt>>,
    )
        ensures
            final(self)@ == old(self)@.with_featured(*c, now, fetched.deep_view()),
    {
        let life_time = config_get_seconds(c, "featured_posts_lifetime");
        let item = match fetched {
            Some(data) => if data.len() > 0 {
                Some(CacheItem::FeaturedPosts { decay_time: now.saturating_add(life_time), data })
            } else {
                None
            },
            None => None,
        };
        self.refresh_if_expired(now, String::from_str("featured_posts"), item);
    }

    /// Whether the excerpts of the `tag_key`th configured tag, `tag`, are due
    /// at `now`: a tag is configured where its name is not empty, and due
    /// where its entry is not fresh.
    pub fn posts_by_tag_due(&self, now: u64, tag_key: u8, tag: &str) -> (r: bool)
        ensures
            r == (tag@.len() > 0 && !self@.fresh(tag_posts_key(tag_key), now)),
    {
        if tag.unicode_len() == 0 {
            return false;
        }
        let key = concat2("post_by_tag_", decimal_string(tag_key as u64).as_str());
        !self.not_yet_expired(now, key.as_str())
    }

    /// Refreshes the excerpts of the `tag_key`th configured tag, `tag`, at
    /// `now` with the excerpts `found` for it: the cache stays as it is where
    /// the tag's name is empty, while the entry is fresh and where `found` is
    /// empty; else the excerpts are stored to live for as many seconds as the
    /// setting `cached_tag_lifetime` says.
    pub fn cache_posts_by_tag(
        &mut self,
        c: &config::Config,
        now: u64,
        tag_key: u8,
        tag: &str,
        found: Vec<PostExcerpt>,
    )
        ensures
            final(self)@ == old(self)@.with_tag(*c, now, tag_key, tag@, found.deep_view()),
    {
        if tag.unicode_len() == 0 {
            return ;
        }
        let life_time = config_get_seconds(c, "cached_tag_lifetime");
        let key = concat2("post_by_tag_", decimal_string(tag_key as u64).as_str());
        let item = if found.len() > 0 {
            Some(CacheItem::CachedTag { decay_time: now.saturating_add(life_time), data: found })
        } else {
            None
        };
        self.refresh_if_expired(now, key, item);
    }

    /// Whether the entry under `key` is there and has not expired at
    /// `unix_time`.
    pub fn not_yet_expired(&self, unix_time: u64, key: &str) -> (r: bool)
        ensures
            r == self@.fresh(key@, unix_time),
    {
        match self.cache.get(key) {
            Some(item) => {
                let tmp = match item {
                    CacheItem::PinterestPosts { decay_time, .. } => *decay_time,
                    CacheItem::InstagramPosts { decay_time, .. } => *decay_time,
                    CacheItem::LatestPosts { decay_time, .. } => *decay_time,
                    CacheItem::FeaturedPosts { decay_time, .. } => *decay_time,
                    CacheItem::CachedTag { decay_time, .. } => *decay_time,
                    CacheItem::Html { decay_time, .. } => *decay_time,
                    CacheItem::SiteMap { .. } => u64::MAX,
                };
                unix_time <= tmp
            },
            None => false,
        }
    }

    /// Invalidates every page rendered before `now`, by moving the watermark
    /// there. No entry is touched.
    pub fn reset_html_cache(&mut self, now: u64)
        ensures
            final(self)@ == old(self)@.invalidated(now),
    {
        self.html_cache_min_time = now;
    }

    /// A copy of the entry under `key`.
    pub fn get(&self, key: &str) -> (r: Option<CacheItem>)
        ensures
            r.deep_view() == self@.lookup(key@),
    {
        match self.cache.get(key) {
            Some(item) => Some(item.clone()),
            None => None,
        }
    }

    /// A copy of the site map.
    pub fn get_site_map(&self) -> (r: Option<SiteMap>)
        ensures
            r.deep_view() == self@.site_map(),
    {
        match self.get("sitemap") {
            Some(CacheItem::SiteMap { data }) => Some(data),
            _ => None,
        }
    }

    /// A copy of the second social feed.
    pub fn get_pinterest_posts(&self) -> (r: Option<Vec<PinterestPostCompact>>)
        ensures
            r.deep_view() == self@.pinterest_posts(),
    {
        match self.get("pinterest_posts") {
            Some(CacheItem::PinterestPosts { decay_time: _, data }) => Some(data),
            _ => None,
        }
    }

    /// A copy of the first social feed.
    pub fn get_instagram_posts(&self) -> (r: Option<Vec<InstagramPostCompact>>)
        ensures
            r.deep_view() == self@.instagram_posts(),
    {
        match self.get("instagram_posts") {
            Some(CacheItem::InstagramPosts { decay_time: _, data }) => Some(data),
            _ => None,
        }
    }

    /// A copy of the excerpts of the latest posts.
    pub fn get_latest_posts(&self) -> (r: Option<Vec<PostExcerpt>>)
        ensures
            r.deep_view() == self@.latest_posts(),
    {
        match self.get("latest_posts") {
            Some(CacheItem::LatestPosts { decay_time: _, data }) => Some(data),
            _ => None,
        }
    }

    /// A copy of the excerpts of the most viewed posts.
    pub fn get_featured_posts(&self) -> (r: Option<Vec<PostExcerpt>>)
        ensures
            r.deep_view() == self@.featured_posts(),
    {
        match self.get("featured_posts") {
            Some(CacheItem::FeaturedPosts { decay_time: _, data }) => Some(data),
            _ => None,
        }
    }

    /// A copy of the excerpts of the `tag_key`th configured tag.
    pub fn get_posts_by_tag(&self, tag_key: u8) -> (r: Option<Vec<PostExcerpt>>)
        ensures
            r.deep_view() == self@.posts_by_tag(tag_key),
    {
        let key = concat2("post_by_tag_", decimal_string(tag_key as u64).as_str());
        match self.get(key.as_str()) {
            Some(CacheItem::CachedTag { decay_time: _, data }) => Some(data),
            _ => None,
        }
    }

    /// A copy of the rendered page that callers know as `key`, as it reads at
    /// `now`: none where none was stored, where its expiry has passed, or
    /// where it was made before the watermark.
    pub fn get_html(&self, key: &str, now: u64) -> (r: Option<String>)
        ensures
            r.deep_view() == self@.html(key@, now),
    {
        let cache_key = concat2("html_", key);
        match self.get(cache_key.as_str()) {
            Some(CacheItem::Html { cached_at, decay_time, data }) => {
                if decay_time < now || cached_at < self.html_cache_min_time {
                    return None;
                }
                Some(data)
            },
            _ => None,
        }
    }
}

} // verus!
