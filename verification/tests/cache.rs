use blog_engine::blog::cache::{Cache, CacheItem};
use blog_engine::blog::sitemap::SiteMap;
use blog_engine::blog::types::post::PostExcerpt;
use blog_engine::utils::{InstagramPostCompact, PinterestPostCompact};

fn settings() -> config::Config {
    let mut c = config::Config::default();
    c.set("cache_expire_html", 100i64).unwrap();
    c.set("pinterest_lifetime", 60i64).unwrap();
    c.set("instagram_lifetime", 30i64).unwrap();
    c.set("latest_posts_lifetime", 10i64).unwrap();
    c.set("featured_posts_lifetime", 20i64).unwrap();
    c.set("cached_tag_lifetime", 50i64).unwrap();
    c
}

fn pin(id: &str) -> PinterestPostCompact {
    PinterestPostCompact {
        id: String::from(id),
        note: String::from("note"),
        img_src: String::from("/img.png"),
    }
}

fn excerpt(id: u32) -> PostExcerpt {
    PostExcerpt {
        id,
        author: String::from("author"),
        date_posted: 1,
        title: format!("title {}", id),
        content: String::from("<p>c</p>"),
        content_full: String::from("<p>c</p>"),
        url_canonical: format!("post-{}", id),
        thumbnail: String::from("/t.png"),
    }
}

#[test]
fn new_cache_is_empty() {
    let cache = Cache::new();
    assert_eq!(cache.get("sitemap"), None);
    assert_eq!(cache.get_site_map(), None);
    assert_eq!(cache.get_pinterest_posts(), None);
    assert_eq!(cache.get_instagram_posts(), None);
    assert_eq!(cache.get_latest_posts(), None);
    assert_eq!(cache.get_featured_posts(), None);
    assert_eq!(cache.get_posts_by_tag(1), None);
    assert_eq!(cache.get_html("x", 0), None);
    assert!(!cache.not_yet_expired(0, "pinterest_posts"));
}

#[test]
fn entry_lives_for_its_ttl() {
    let c = settings();
    let mut cache = Cache::new();
    let t0 = 1000;
    cache.cache_pinterest_posts(&c, t0, Some(vec![pin("a")]));
    assert_eq!(cache.get_pinterest_posts(), Some(vec![pin("a")]));
    assert_eq!(
        cache.get("pinterest_posts"),
        Some(CacheItem::PinterestPosts { decay_time: 1060, data: vec![pin("a")] })
    );
    // not due one second before the expiry, nor at it
    assert!(cache.not_yet_expired(t0 + 59, "pinterest_posts"));
    assert!(cache.not_yet_expired(t0 + 60, "pinterest_posts"));
    cache.cache_pinterest_posts(&c, t0 + 59, Some(vec![pin("b")]));
    assert_eq!(cache.get_pinterest_posts(), Some(vec![pin("a")]));
    // due one second after it
    assert!(!cache.not_yet_expired(t0 + 61, "pinterest_posts"));
    cache.cache_pinterest_posts(&c, t0 + 61, Some(vec![pin("b")]));
    assert_eq!(
        cache.get("pinterest_posts"),
        Some(CacheItem::PinterestPosts { decay_time: 1121, data: vec![pin("b")] })
    );
}

#[test]
fn failed_fetch_keeps_the_stale_entry() {
    let c = settings();
    let mut cache = Cache::new();
    cache.cache_instagram_posts(
        &c,
        10,
        Some(vec![InstagramPostCompact {
            link: String::from("l"),
            img_src: String::from("i"),
            location: String::new(),
            likes: 0,
            comments: 0,
        }]),
    );
    let before = cache.get("instagram_posts");
    assert!(before.is_some());
    assert!(!cache.not_yet_expired(41, "instagram_posts"));
    cache.cache_instagram_posts(&c, 41, None);
    assert_eq!(cache.get("instagram_posts"), before);
    // a fetch that fails on an empty cache leaves it empty
    let mut empty = Cache::new();
    empty.cache_instagram_posts(&c, 41, None);
    assert_eq!(empty.get("instagram_posts"), None);
}

#[test]
fn empty_excerpt_lists_are_not_stored() {
    let c = settings();
    let mut cache = Cache::new();
    cache.cache_latest_posts(&c, 5, Some(vec![]));
    assert_eq!(cache.get_latest_posts(), None);
    cache.cache_latest_posts(&c, 5, Some(vec![excerpt(1)]));
    assert_eq!(cache.get_latest_posts(), Some(vec![excerpt(1)]));
    assert_eq!(
        cache.get("latest_posts"),
        Some(CacheItem::LatestPosts { decay_time: 15, data: vec![excerpt(1)] })
    );
    cache.cache_featured_posts(&c, 5, Some(vec![excerpt(2)]));
    assert_eq!(
        cache.get("featured_posts"),
        Some(CacheItem::FeaturedPosts { decay_time: 25, data: vec![excerpt(2)] })
    );
    cache.cache_featured_posts(&c, 26, Some(vec![]));
    assert_eq!(cache.get_featured_posts(), Some(vec![excerpt(2)]));
}

#[test]
fn tags_are_cached_by_number() {
    let c = settings();
    let mut cache = Cache::new();
    assert!(cache.posts_by_tag_due(0, 3, "travel"));
    assert!(!cache.posts_by_tag_due(0, 3, ""));
    cache.cache_posts_by_tag(&c, 7, 3, "travel", vec![excerpt(4)]);
    assert_eq!(cache.get_posts_by_tag(3), Some(vec![excerpt(4)]));
    assert_eq!(cache.get_posts_by_tag(2), None);
    assert_eq!(
        cache.get("post_by_tag_3"),
        Some(CacheItem::CachedTag { decay_time: 57, data: vec![excerpt(4)] })
    );
    assert!(!cache.posts_by_tag_due(57, 3, "travel"));
    assert!(cache.posts_by_tag_due(58, 3, "travel"));
    // a tag without a name is not configured
    cache.cache_posts_by_tag(&c, 7, 4, "", vec![excerpt(5)]);
    assert_eq!(cache.get_posts_by_tag(4), None);
    // nothing found: nothing stored
    cache.cache_posts_by_tag(&c, 7, 5, "empty", vec![]);
    assert_eq!(cache.get_posts_by_tag(5), None);
}

#[test]
fn html_is_read_until_it_expires() {
    let c = settings();
    let mut cache = Cache::new();
    cache.cache_html(&c, 1000, String::from("post_1"), String::from("<html>1</html>"));
    assert_eq!(
        cache.get("html_post_1"),
        Some(CacheItem::Html {
            cached_at: 1000,
            decay_time: 1100,
            data: String::from("<html>1</html>")
        })
    );
    assert_eq!(cache.get_html("post_1", 1000), Some(String::from("<html>1</html>")));
    assert_eq!(cache.get_html("post_1", 1100), Some(String::from("<html>1</html>")));
    assert_eq!(cache.get_html("post_1", 1101), None);
    assert_eq!(cache.get_html("post_2", 1000), None);
}

#[test]
fn watermark_invalidates_older_html_only() {
    let c = settings();
    let mut cache = Cache::new();
    let (t1, t2, t3) = (1000, 1010, 1020);
    cache.cache_html(&c, t1, String::from("old"), String::from("old page"));
    cache.cache_pinterest_posts(&c, t1, Some(vec![pin("a")]));
    cache.reset_html_cache(t2);
    // unreadable although its own expiry (1100) has not passed
    assert_eq!(cache.get_html("old", t2), None);
    assert_eq!(cache.get_html("old", t3), None);
    // other entries are untouched
    assert_eq!(cache.get_pinterest_posts(), Some(vec![pin("a")]));
    // the entry itself is still there
    assert!(cache.get("html_old").is_some());
    cache.cache_html(&c, t3, String::from("new"), String::from("new page"));
    assert_eq!(cache.get_html("new", t3), Some(String::from("new page")));
    assert_eq!(cache.get_html("new", t3 + 100), Some(String::from("new page")));
    assert_eq!(cache.get_html("new", t3 + 101), None);
}

#[test]
fn sitemap_never_expires() {
    let mut cache = Cache::new();
    cache.cache_sitemap(SiteMap { content: Some(vec![]) });
    assert_eq!(cache.get_site_map(), Some(SiteMap { content: Some(vec![]) }));
    assert!(cache.not_yet_expired(u64::MAX, "sitemap"));
}

#[test]
fn expiry_saturates_and_negative_lifetimes_count_as_zero() {
    let mut c = config::Config::default();
    c.set("cache_expire_html", -5i64).unwrap();
    c.set("pinterest_lifetime", 10i64).unwrap();
    let mut cache = Cache::new();
    cache.cache_html(&c, 50, String::from("k"), String::from("v"));
    assert_eq!(
        cache.get("html_k"),
        Some(CacheItem::Html { cached_at: 50, decay_time: 50, data: String::from("v") })
    );
    cache.cache_pinterest_posts(&c, u64::MAX - 3, Some(vec![]));
    assert_eq!(
        cache.get("pinterest_posts"),
        Some(CacheItem::PinterestPosts { decay_time: u64::MAX, data: vec![] })
    );
}

#[test]
fn missing_lifetime_reads_as_zero() {
    let c = config::Config::default();
    let mut cache = Cache::new();
    cache.cache_html(&c, 50, String::from("k"), String::from("v"));
    assert_eq!(cache.get_html("k", 50), Some(String::from("v")));
    assert_eq!(cache.get_html("k", 51), None);
}

#[test]
fn refresh_if_expired_follows_the_protocol() {
    let mut cache = Cache::new();
    let page = |at: u64, until: u64, text: &str| CacheItem::Html {
        cached_at: at,
        decay_time: until,
        data: String::from(text),
    };
    // absent: a failed fetch stores nothing, a good one is stored
    cache.refresh_if_expired(10, String::from("k"), None);
    assert_eq!(cache.get("k"), None);
    cache.refresh_if_expired(10, String::from("k"), Some(page(10, 20, "one")));
    assert_eq!(cache.get("k"), Some(page(10, 20, "one")));
    // fresh: nothing changes, whatever was fetched
    cache.refresh_if_expired(19, String::from("k"), Some(page(19, 29, "two")));
    cache.refresh_if_expired(20, String::from("k"), Some(page(20, 30, "two")));
    assert_eq!(cache.get("k"), Some(page(10, 20, "one")));
    // expired: a failed fetch keeps the stale entry, a good one replaces it
    cache.refresh_if_expired(21, String::from("k"), None);
    assert_eq!(cache.get("k"), Some(page(10, 20, "one")));
    cache.refresh_if_expired(21, String::from("k"), Some(page(21, 31, "three")));
    assert_eq!(cache.get("k"), Some(page(21, 31, "three")));
    // put overwrites without asking
    cache.put(String::from("k"), page(22, 32, "four"));
    assert_eq!(cache.get("k"), Some(page(22, 32, "four")));
    assert_eq!(cache.get("other"), None);
}
