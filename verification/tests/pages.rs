use blog_engine::blog::context::{Page, PostLookup};
use blog_engine::blog::pages::{context_error, render_error};
use blog_engine::blog::types::comment::Comment;
use blog_engine::blog::types::menu::{Menu, MenuItem};
use blog_engine::blog::types::post::Post;
use blog_engine::blog::types::tag::Tag;
use blog_engine::blog::{Blog, BlogMessage, Fetched};

fn settings() -> config::Config {
    let mut c = config::Config::default();
    c.set("fqdn", "example.org").unwrap();
    c.set("title", "A Blog").unwrap();
    c.set("meta_title", "Blog meta").unwrap();
    c.set("meta_description", "Blog description").unwrap();
    c.set("locale", "en").unwrap();
    c.set("posts_per_page", 2i64).unwrap();
    c.set("cache_expire_html", 60i64).unwrap();
    c.set("latest_posts_lifetime", 60i64).unwrap();
    c
}

fn post(id: u32, url: &str, tags: &[&str]) -> Post {
    Post {
        id,
        author_name: String::from("Ann"),
        author_home_post: 0,
        date_posted: 1,
        date_modified: 2,
        state: String::from("published"),
        title: format!("Post {}", id),
        content: String::from("<p>text"),
        meta_title: format!("meta {}", id),
        meta_description: format!("about {}", id),
        meta_keywords: vec![],
        url_canonical: String::from(url),
        url_historic: vec![],
        tags: tags.iter().map(|t| String::from(*t)).collect(),
        media: vec![],
        locations: vec![],
        related_posts: vec![],
    }
}

fn store() -> Blog {
    let c = settings();
    let mut blog = Blog::new();
    let mut first = post(3, "third", &["travel"]);
    first.related_posts = vec![1, 77];
    let r: Result<usize, String> = blog.reload_posts(
        &c,
        1000,
        Ok(vec![first, post(2, "second", &["travel"]), post(1, "first", &["travel"])]),
        None,
    );
    assert_eq!(r, Ok(3));
    let menus: Result<usize, String> = blog.reload_menus(Ok(vec![Menu {
        id: 1,
        name: String::from("main"),
        items: vec![MenuItem {
            title: String::from("Home"),
            url: String::from("/"),
            target: None,
            children: None,
        }],
    }]));
    assert_eq!(menus, Ok(1));
    blog
}

#[test]
fn base_context_reads_the_settings() {
    let c = settings();
    let blog = store();
    let ctx = blog.create_base_context(&c, 1234);
    assert_eq!(ctx.title, Some(String::from("A Blog")));
    assert_eq!(ctx.subtitle, Some(String::new()));
    assert_eq!(ctx.meta_title, Some(String::from("Blog meta")));
    assert_eq!(ctx.locale, Some(String::from("en")));
    assert_eq!(ctx.canonical, Some(String::from("https://example.org/")));
    assert_eq!(ctx.time, 1234);
    assert_eq!(ctx.main_menu.unwrap().len(), 1);
    assert!(ctx.post.is_none());
    assert!(ctx.post_list.is_none());
    assert_eq!(ctx.page_current, 0);
    assert_eq!(ctx.page_total, 0);
}

#[test]
fn index_page_is_rendered_then_served_from_cache() {
    let c = settings();
    let mut blog = store();
    blog.maintenance_task(
        &c,
        1000,
        Fetched { pinterest: None, instagram: None, latest: Some(vec![3, 2]), featured: None },
    );
    let key = match blog.get_html_base(&c, 1000, "index.html") {
        Page::Render { cache_key, template, context } => {
            assert_eq!(template, "index.html");
            assert_eq!(context.latest_posts.as_ref().unwrap().len(), 2);
            assert!(context.featured_posts.is_none());
            assert!(context.instagram_posts.is_none());
            cache_key
        }
        other => panic!("unexpected {:?}", other),
    };
    assert_eq!(key, Some(String::from("base_index.html")));
    let html = blog.finish_page(&c, 1000, key, Ok(String::from("<html>index</html>")));
    assert_eq!(html, Ok(String::from("<html>index</html>")));
    match blog.get_html_base(&c, 1060, "index.html") {
        Page::Cached(html) => assert_eq!(html, "<html>index</html>"),
        other => panic!("unexpected {:?}", other),
    }
    // expired one second later
    assert!(matches!(blog.get_html_base(&c, 1061, "index.html"), Page::Render { .. }));
    // another template has its own key
    assert!(matches!(blog.get_html_base(&c, 1000, "error_404.html"), Page::Render { .. }));
}

#[test]
fn failed_rendering_caches_nothing() {
    let c = settings();
    let mut blog = store();
    let r = blog.finish_page(
        &c,
        1000,
        Some(String::from("base_index.html")),
        Err(render_error("boom")),
    );
    assert_eq!(r, Err(String::from("Template render error: boom")));
    assert!(matches!(blog.get_html_base(&c, 1000, "index.html"), Page::Render { .. }));
    assert_eq!(context_error("bad"), "Template context error: bad");
}

#[test]
fn post_page_counts_a_view_and_is_cached() {
    let c = settings();
    let mut blog = store();
    let comments: Result<usize, String> = blog.reload_comments(Ok(vec![Comment {
        id: 1,
        parent_id: 0,
        post_id: 3,
        status: String::from("approved"),
        author_name: String::from("Bob"),
        author_email: String::new(),
        date_posted: 9,
        content: String::from("nice"),
    }]));
    assert_eq!(comments, Ok(1));
    let lookup = blog.get_html_post(
        2000,
        "THIRD",
        String::from("10.1.1.1"),
        String::from("agent"),
        String::from("ref"),
    );
    assert_eq!(lookup, PostLookup::Render { post_key: 3 });
    let key = match blog.get_post_page(&c, 2000, 3) {
        Some(Page::Render { cache_key, template, context }) => {
            assert_eq!(template, "post.html");
            assert_eq!(context.post.unwrap().id, 3);
            assert_eq!(context.canonical, Some(String::from("https://example.org/third")));
            assert_eq!(context.meta_title, Some(String::from("meta 3")));
            assert_eq!(context.meta_description, Some(String::from("about 3")));
            let related: Vec<u32> =
                context.post_related.as_ref().unwrap().iter().map(|e| e.id).collect();
            assert_eq!(related, vec![1]);
            assert_eq!(context.post_comments.unwrap().len(), 1);
            cache_key
        }
        other => panic!("unexpected {:?}", other),
    };
    assert_eq!(key, Some(String::from("post_3")));
    blog.finish_page(&c, 2000, key, Ok(String::from("<html>3</html>"))).unwrap();
    let lookup = blog.get_html_post(
        2001,
        "third",
        String::from("10.1.1.2"),
        String::from("agent"),
        String::from("ref"),
    );
    assert_eq!(lookup, PostLookup::Cached(String::from("<html>3</html>")));
    let views = blog.maintenance_task(
        &c,
        2002,
        Fetched { pinterest: None, instagram: None, latest: None, featured: None },
    );
    assert_eq!(
        views,
        vec![
            BlogMessage::PostView {
                post_id: 3,
                viewed_at: 2000,
                remote_ip: String::from("10.1.1.1"),
                user_agent: String::from("agent"),
                referer: String::from("ref"),
            },
            BlogMessage::PostView {
                post_id: 3,
                viewed_at: 2001,
                remote_ip: String::from("10.1.1.2"),
                user_agent: String::from("agent"),
                referer: String::from("ref"),
            },
        ]
    );
}

#[test]
fn unknown_address_counts_no_view() {
    let c = settings();
    let mut blog = store();
    let lookup = blog.get_html_post(
        2000,
        "nowhere",
        String::new(),
        String::new(),
        String::new(),
    );
    assert_eq!(lookup, PostLookup::Missing);
    assert!(blog.get_post_page(&c, 2000, 0).is_none());
    assert!(blog.get_post_page(&c, 2000, 42).is_none());
    let views = blog.maintenance_task(
        &c,
        2002,
        Fetched { pinterest: None, instagram: None, latest: None, featured: None },
    );
    assert_eq!(views, vec![]);
}

#[test]
fn post_without_related_posts_or_comments() {
    let c = settings();
    let blog = store();
    match blog.get_post_page(&c, 5, 2) {
        Some(Page::Render { context, .. }) => {
            assert!(context.post_related.is_none());
            assert!(context.post_comments.is_none());
        }
        other => panic!("unexpected {:?}", other),
    }
}

#[test]
fn tag_page_lists_a_page_of_excerpts() {
    let c = settings();
    let mut blog = store();
    let tags: Result<usize, String> = blog.reload_tags(Ok(vec![Tag {
        id: String::from("travel"),
        title: String::from("Travel"),
        content: String::new(),
        meta_title: String::from("Travel meta"),
        meta_description: String::new(),
        media: vec![],
    }]));
    assert_eq!(tags, Ok(1));
    match blog.get_html_tag(&c, 10, String::from("travel"), 1) {
        Page::Render { cache_key, template, context } => {
            assert_eq!(cache_key, Some(String::from("tag_travel_1")));
            assert_eq!(template, "post_list.html");
            assert_eq!(context.page_current, 1);
            assert_eq!(context.page_total, 2);
            let ids: Vec<u32> =
                context.post_list.as_ref().unwrap().iter().map(|e| e.id).collect();
            assert_eq!(ids, vec![1]);
            assert_eq!(context.tag.unwrap().title, "Travel");
            assert_eq!(context.tag_id, Some(String::from("travel")));
            assert_eq!(
                context.canonical,
                Some(String::from("https://example.org/tag/travel?p=2"))
            );
            assert_eq!(context.meta_title, Some(String::from("Travel meta")));
            // an empty description leaves the site's own
            assert_eq!(context.meta_description, Some(String::from("Blog description")));
        }
        other => panic!("unexpected {:?}", other),
    }
    match blog.get_html_tag(&c, 10, String::from("travel"), 0) {
        Page::Render { context, .. } => {
            assert_eq!(context.canonical, Some(String::from("https://example.org/tag/travel")));
            let ids: Vec<u32> =
                context.post_list.as_ref().unwrap().iter().map(|e| e.id).collect();
            assert_eq!(ids, vec![3, 2]);
        }
        other => panic!("unexpected {:?}", other),
    }
    match blog.get_html_tag(&c, 10, String::from("unknown"), 0) {
        Page::Render { context, .. } => {
            assert!(context.post_list.is_none());
            assert!(context.tag.is_none());
            assert_eq!(context.page_total, 0);
        }
        other => panic!("unexpected {:?}", other),
    }
    blog.finish_page(&c, 10, Some(String::from("tag_travel_1")), Ok(String::from("T"))).unwrap();
    assert!(matches!(blog.get_html_tag(&c, 11, String::from("travel"), 1), Page::Cached(_)));
    assert!(matches!(blog.get_html_tag(&c, 11, String::from("travel"), 0), Page::Render { .. }));
    // invalidation hides the cached page at once
    blog.invalidate_html_cache(12);
    assert!(matches!(blog.get_html_tag(&c, 12, String::from("travel"), 1), Page::Render { .. }));
}

#[test]
fn search_page_is_never_cached() {
    let c = settings();
    let blog = store();
    match blog.get_html_search(&c, 10, String::from("te st"), 1, Some(vec![3, 2, 1])) {
        Page::Render { cache_key, template, context } => {
            assert_eq!(cache_key, None);
            assert_eq!(template, "post_list.html");
            assert_eq!(context.page_current, 1);
            assert_eq!(context.page_total, 2);
            let ids: Vec<u32> =
                context.post_list.as_ref().unwrap().iter().map(|e| e.id).collect();
            assert_eq!(ids, vec![1]);
            assert_eq!(context.search_string, Some(String::from("te st")));
            assert_eq!(
                context.canonical,
                Some(String::from("https://example.org/search?q=te st&p=2"))
            );
        }
        other => panic!("unexpected {:?}", other),
    }
    match blog.get_html_search(&c, 10, String::from("x"), 0, None) {
        Page::Render { context, .. } => {
            assert!(context.post_list.is_none());
            assert_eq!(context.canonical, Some(String::from("https://example.org/search?q=x")));
        }
        other => panic!("unexpected {:?}", other),
    }
}

#[test]
fn sitemap_and_feed_pages() {
    let c = settings();
    let mut blog = store();
    match blog.get_html_site_map(10) {
        Page::RenderSiteMap { cache_key, template, site_map } => {
            assert_eq!(cache_key, "site_map");
            assert_eq!(template, "sitemap.xml");
            assert_eq!(site_map.unwrap().content.unwrap().len(), 5);
        }
        other => panic!("unexpected {:?}", other),
    }
    blog.finish_page(&c, 10, Some(String::from("site_map")), Ok(String::from("<xml/>"))).unwrap();
    assert!(matches!(blog.get_html_site_map(10), Page::Cached(_)));
    match blog.get_html_rss_feed(&c, 10) {
        Page::Render { cache_key, template, context } => {
            assert_eq!(cache_key, Some(String::from("rss_feed")));
            assert_eq!(template, "feed.rss");
            assert!(context.latest_posts.is_none());
        }
        other => panic!("unexpected {:?}", other),
    }
}

#[test]
fn page_cached_for_no_post_counts_no_view() {
    let c = settings();
    let mut blog = store();
    // a page that was stored under the key of post 0 is never served
    blog.finish_page(&c, 2000, Some(String::from("post_0")), Ok(String::from("stray"))).unwrap();
    let lookup =
        blog.get_html_post(2000, "nowhere", String::new(), String::new(), String::new());
    assert_eq!(lookup, PostLookup::Missing);
    assert_eq!(blog.find_html_post(2000, "nowhere"), (PostLookup::Missing, None));
    let views = blog.maintenance_task(
        &c,
        2002,
        Fetched { pinterest: None, instagram: None, latest: None, featured: None },
    );
    assert_eq!(views, vec![]);
}

#[test]
fn finding_a_post_page_only_reads() {
    let c = settings();
    let mut blog = store();
    assert_eq!(
        blog.find_html_post(2000, "Third"),
        (PostLookup::Render { post_key: 3 }, Some(3))
    );
    blog.finish_page(&c, 2000, Some(String::from("post_3")), Ok(String::from("P3"))).unwrap();
    assert_eq!(
        blog.find_html_post(2001, "third"),
        (PostLookup::Cached(String::from("P3")), Some(3))
    );
    let views = blog.maintenance_task(
        &c,
        2002,
        Fetched { pinterest: None, instagram: None, latest: None, featured: None },
    );
    assert_eq!(views, vec![]);
}
