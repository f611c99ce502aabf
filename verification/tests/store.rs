use blog_engine::blog::sitemap::{SiteMap, SiteMapImage, SiteMapUrl};
use blog_engine::blog::types::comment::Comment;
use blog_engine::blog::types::menu::{Menu, MenuItem};
use blog_engine::blog::types::post::{Post, PostExcerpt, PostMedia};
use blog_engine::blog::types::redirect::Redirect;
use blog_engine::blog::types::snippet::{Snippet, SnippetVariable};
use blog_engine::blog::types::tag::Tag;
use blog_engine::blog::{Blog, BlogMessage, DueFetches, Fetched, Loaded};
use blog_engine::utils::PinterestPostCompact;

fn settings() -> config::Config {
    let mut c = config::Config::default();
    c.set("fqdn", "example.org").unwrap();
    c.set("posts_per_page", 2i64).unwrap();
    c.set("cached_tag_1", "travel").unwrap();
    c.set("cached_tag_2", "no-such-tag").unwrap();
    c.set("cached_tag_lifetime", 100i64).unwrap();
    c.set("latest_posts_lifetime", 100i64).unwrap();
    c.set("featured_posts_lifetime", 100i64).unwrap();
    c.set("pinterest_lifetime", 100i64).unwrap();
    c.set("instagram_lifetime", 100i64).unwrap();
    c
}

fn post(id: u32, url: &str) -> Post {
    Post {
        id,
        author_name: String::from("Ann"),
        author_home_post: 0,
        date_posted: 100 + id as u64,
        date_modified: 200 + id as u64,
        state: String::from("published"),
        title: format!("Post {}", id),
        content: format!("<p>intro {}<!--more--><p>rest", id),
        meta_title: format!("meta {}", id),
        meta_description: String::from("desc"),
        meta_keywords: vec![],
        url_canonical: String::from(url),
        url_historic: vec![],
        tags: vec![],
        media: vec![],
        locations: vec![],
        related_posts: vec![],
    }
}

fn none_fetched() -> Fetched {
    Fetched { pinterest: None, instagram: None, latest: None, featured: None }
}

fn load(blog: &mut Blog, posts: Vec<Post>) -> usize {
    let c = settings();
    let r: Result<usize, String> = blog.reload_posts(&c, 1_000_000, Ok(posts), None);
    r.unwrap()
}

#[test]
fn historic_address_leads_to_its_post() {
    let mut a = post(1, "a");
    a.url_historic = vec![String::from("b-old")];
    let b = post(2, "b");
    let mut blog = Blog::new();
    assert_eq!(load(&mut blog, vec![a, b]), 2);
    assert_eq!(blog.get_post_by_seo_url("b-old"), 1);
    assert_eq!(blog.get_post_by_seo_url("a"), 1);
    assert_eq!(blog.get_post_by_seo_url("b"), 2);
    assert_eq!(blog.get_post_by_seo_url("c"), 0);
}

#[test]
fn canonical_address_precedes_historic() {
    let mut a = post(1, "a");
    a.url_historic = vec![String::from("shared")];
    let b = post(2, "shared");
    let mut blog = Blog::new();
    load(&mut blog, vec![a, b]);
    assert_eq!(blog.get_post_by_seo_url("shared"), 2);
    // the same with the historic owner loaded last
    let mut a = post(1, "a");
    a.url_historic = vec![String::from("shared")];
    let b = post(2, "shared");
    let mut blog = Blog::new();
    load(&mut blog, vec![b, a]);
    assert_eq!(blog.get_post_by_seo_url("shared"), 2);
}

#[test]
fn former_addresses_are_found_whatever_the_case() {
    let mut a = post(1, "a");
    a.url_historic = vec![String::from("B-Old")];
    let mut blog = Blog::new();
    load(&mut blog, vec![a]);
    assert_eq!(blog.get_post_by_seo_url("B-OLD"), 1);
    assert_eq!(blog.get_post_by_seo_url("B-Old"), 1);
    assert_eq!(blog.get_post_by_seo_url("b-old"), 1);
    assert_eq!(blog.get_post_by_seo_url("b-older"), 0);
}

#[test]
fn startup_passes_over_what_else_fails_to_load() {
    let c = settings();
    let mut blog = Blog::new();
    let item = |t: &str| MenuItem {
        title: String::from(t),
        url: String::from("/"),
        target: None,
        children: None,
    };
    assert_eq!(
        blog.reload_menus::<String>(Ok(vec![Menu {
            id: 1,
            name: String::from("main"),
            items: vec![item("kept")],
        }])),
        Ok(1)
    );
    let r = blog.startup(
        &c,
        500,
        Loaded {
            posts: Ok(vec![post(1, "a")]),
            snippets: None,
            menus: Err(String::from("no menus")),
            redirects: Err(String::from("no redirects")),
            tags: Err(String::from("no tags")),
            comments: Err(String::from("no comments")),
        },
        none_fetched(),
    );
    assert_eq!(r, Ok(1));
    assert_eq!(blog.get_menu("main"), Some(&vec![item("kept")]));
    assert!(blog.get_post(1).is_some());
}

#[test]
fn canonical_lookup_ignores_case() {
    let mut blog = Blog::new();
    load(&mut blog, vec![post(5, "My-Post")]);
    assert_eq!(blog.get_post_by_seo_url("my-post"), 5);
    assert_eq!(blog.get_post_by_seo_url("MY-POST"), 5);
}

#[test]
fn last_loaded_post_wins_an_address() {
    let mut blog = Blog::new();
    load(&mut blog, vec![post(1, "same"), post(2, "SAME")]);
    assert_eq!(blog.get_post_by_seo_url("same"), 2);
}

#[test]
fn reload_replaces_the_whole_generation() {
    let mut blog = Blog::new();
    let mut first = post(1, "one");
    first.tags = vec![String::from("old tag")];
    first.url_historic = vec![String::from("uno")];
    load(&mut blog, vec![first]);
    assert!(blog.get_post(1).is_some());
    assert_eq!(blog.get_all_in_use_tags(), vec![String::from("old-tag")]);
    let mut second = post(2, "two");
    second.tags = vec![String::from("new")];
    assert_eq!(load(&mut blog, vec![second]), 1);
    assert!(blog.get_post(1).is_none());
    assert!(blog.get_post(2).is_some());
    assert_eq!(blog.get_post_by_seo_url("one"), 0);
    assert_eq!(blog.get_post_by_seo_url("uno"), 0);
    assert_eq!(blog.get_post_by_seo_url("two"), 2);
    assert_eq!(blog.get_post_excerpts(&vec![1, 2]).len(), 1);
    assert_eq!(blog.get_all_in_use_tags(), vec![String::from("new")]);
    assert!(blog.get_tag_posts("old-tag").is_none());
}

#[test]
fn failed_load_leaves_the_store_as_it_was() {
    let c = settings();
    let mut blog = Blog::new();
    load(&mut blog, vec![post(1, "one"), post(2, "two")]);
    let r = blog.reload_posts(&c, 2_000_000, Err(String::from("connection lost")), None);
    assert_eq!(r, Err(String::from("connection lost")));
    assert_eq!(blog.get_post(1), Some(&{
        let mut p = post(1, "one");
        p.content = String::from("<p>intro 1<!--more--><p>rest");
        p
    }));
    assert_eq!(blog.get_post_by_seo_url("two"), 2);
    assert_eq!(blog.get_post_excerpts(&vec![1, 2]).len(), 2);
}

#[test]
fn excerpts_are_derived_at_load() {
    let mut p = post(3, "three");
    p.media = vec![
        PostMedia {
            class: String::from("plain"),
            source: String::from("/p.png"),
            title: String::new(),
            caption: String::new(),
        },
        PostMedia {
            class: String::from("featured"),
            source: String::from("/f.png"),
            title: String::new(),
            caption: String::new(),
        },
        PostMedia {
            class: String::from("featured"),
            source: String::from("/g.png"),
            title: String::new(),
            caption: String::new(),
        },
    ];
    let mut blog = Blog::new();
    load(&mut blog, vec![p, post(4, "four")]);
    let got = blog.get_post_excerpts(&vec![4, 9, 3]);
    assert_eq!(
        got,
        vec![
            PostExcerpt {
                id: 4,
                author: String::from("Ann"),
                date_posted: 104,
                title: String::from("Post 4"),
                content: String::from("<p>intro 4</p>"),
                content_full: String::from("<p>intro 4<!--more--><p>rest"),
                url_canonical: String::from("four"),
                thumbnail: String::from("/gallery/not_found.png"),
            },
            PostExcerpt {
                id: 3,
                author: String::from("Ann"),
                date_posted: 103,
                title: String::from("Post 3"),
                content: String::from("<p>intro 3</p>"),
                content_full: String::from("<p>intro 3<!--more--><p>rest"),
                url_canonical: String::from("three"),
                thumbnail: String::from("/f.png"),
            },
        ]
    );
}

#[test]
fn excerpt_of_a_post_without_mark_is_its_whole_content() {
    let mut p = post(1, "x");
    p.content = String::from("<p>all of it");
    let e = p.get_excerpt();
    assert_eq!(e.content, "<p>all of it</p>");
    assert_eq!(e.content_full, "<p>all of it");
}

#[test]
fn snippets_are_applied_once_at_load() {
    let c = settings();
    let mut p = post(1, "x");
    p.content = String::from("<p>[note text=\"hi\"]</p><!--more-->[note]");
    let snippets = vec![Snippet {
        id: 1,
        name: String::from("note"),
        replacement: String::from("<b>{text}</b>"),
        variables: vec![SnippetVariable {
            name: String::from("text"),
            default: String::from("none"),
        }],
    }];
    let mut blog = Blog::new();
    let r: Result<usize, String> = blog.reload_posts(&c, 0, Ok(vec![p]), Some(snippets));
    assert_eq!(r, Ok(1));
    assert_eq!(blog.get_post(1).unwrap().content, "<p><b>hi</b></p><!--more--><b>none</b>");
    let e = blog.get_post_excerpts(&vec![1]);
    assert_eq!(e[0].content, "<p><b>hi</b></p></p>");
    assert_eq!(e[0].content_full, "<p><b>hi</b></p><!--more--><b>none</b>");
}

#[test]
fn tags_index_posts_in_load_order() {
    let mut a = post(3, "a");
    a.tags = vec![String::from("travel"), String::from("far east")];
    let mut b = post(2, "b");
    b.tags = vec![String::from("far east")];
    let mut c = post(1, "c");
    c.tags = vec![String::from("travel"), String::from("food")];
    let mut blog = Blog::new();
    load(&mut blog, vec![a, b, c]);
    assert_eq!(
        blog.get_all_in_use_tags(),
        vec![String::from("travel"), String::from("far-east"), String::from("food")]
    );
    assert_eq!(blog.get_tag_posts("travel"), Some(&vec![3, 1]));
    assert_eq!(blog.get_tag_posts("far-east"), Some(&vec![3, 2]));
    assert_eq!(blog.get_tag_posts("far east"), None);
    let ids: Vec<u32> =
        blog.get_post_excerpts_by_tag("travel", 8).iter().map(|e| e.id).collect();
    assert_eq!(ids, vec![3, 1]);
    let ids: Vec<u32> =
        blog.get_post_excerpts_by_tag("travel", 1).iter().map(|e| e.id).collect();
    assert_eq!(ids, vec![3]);
    assert_eq!(blog.get_post_excerpts_by_tag("none", 8), vec![]);
}

#[test]
fn sitemap_lists_posts_then_tag_pages() {
    let mut a = post(3, "a");
    a.tags = vec![String::from("travel")];
    a.media = vec![
        PostMedia {
            class: String::from("x"),
            source: String::from("https://nomadicdays.org/1.png"),
            title: String::from("One"),
            caption: String::new(),
        },
        PostMedia {
            class: String::from("x"),
            source: String::from("https://elsewhere.test/2.png"),
            title: String::new(),
            caption: String::new(),
        },
    ];
    let mut b = post(2, "b");
    b.tags = vec![String::from("travel")];
    let mut c = post(1, "c");
    c.tags = vec![String::from("travel"), String::from("food")];
    let mut blog = Blog::new();
    load(&mut blog, vec![a, b, c]);
    let page = |loc: &str| SiteMapUrl {
        loc: String::from(loc),
        lastmod: 1_000_000 - 604800,
        changefreq: None,
        priority: Some(String::from("0.5")),
        images: None,
    };
    let entry = |loc: &str, lastmod: u64, images: Option<Vec<SiteMapImage>>| SiteMapUrl {
        loc: String::from(loc),
        lastmod,
        changefreq: None,
        priority: Some(String::from("0.9")),
        images,
    };
    assert_eq!(
        blog.cache().get_site_map(),
        Some(SiteMap {
            content: Some(vec![
                entry(
                    "https://example.org/a",
                    203,
                    Some(vec![SiteMapImage {
                        loc: String::from("https://nomadicdays.org/1.png"),
                        title: Some(String::from("One")),
                        caption: None,
                    }])
                ),
                entry("https://example.org/b", 202, None),
                entry("https://example.org/c", 201, None),
                page("https://example.org/tag/travel"),
                page("https://example.org/tag/travel?p=2"),
                page("https://example.org/tag/food"),
            ])
        })
    );
}

#[test]
fn sitemap_of_an_early_load_is_dated_at_zero() {
    let c = settings();
    let mut a = post(1, "a");
    a.tags = vec![String::from("t")];
    let mut blog = Blog::new();
    let r: Result<usize, String> = blog.reload_posts(&c, 100, Ok(vec![a]), None);
    assert_eq!(r, Ok(1));
    let map = blog.cache().get_site_map().unwrap().content.unwrap();
    assert_eq!(map[1].lastmod, 0);
}

#[test]
fn menus_redirects_tags_and_comments_reload_independently() {
    let c = settings();
    let mut blog = Blog::new();
    load(&mut blog, vec![post(1, "a")]);
    let item = |t: &str| MenuItem {
        title: String::from(t),
        url: String::from("/"),
        target: None,
        children: None,
    };
    assert_eq!(
        blog.reload_menus::<String>(Ok(vec![
            Menu { id: 1, name: String::from("main"), items: vec![item("old")] },
            Menu { id: 2, name: String::from("foot"), items: vec![] },
            Menu { id: 3, name: String::from("main"), items: vec![item("new")] },
        ])),
        Ok(3)
    );
    assert_eq!(blog.get_menu("main"), Some(&vec![item("new")]));
    assert_eq!(blog.get_menu("foot"), Some(&vec![]));
    assert_eq!(blog.get_menu("side"), None);
    // a failed load changes nothing
    assert_eq!(blog.reload_menus(Err(String::from("no menus"))), Err(String::from("no menus")));
    assert_eq!(blog.get_menu("main"), Some(&vec![item("new")]));
    // a later load replaces all
    assert_eq!(blog.reload_menus::<String>(Ok(vec![])), Ok(0));
    assert_eq!(blog.get_menu("main"), None);

    assert_eq!(
        blog.reload_redirects::<String>(Ok(vec![Redirect {
            id: 1,
            name: String::from("shop"),
            target: String::from("https://shop.test/"),
        }])),
        Ok(1)
    );
    assert_eq!(blog.lookup_redirect(&c, "shop"), "https://shop.test/");
    assert_eq!(blog.lookup_redirect(&c, "other"), "https://example.org");
    assert_eq!(blog.reload_redirects(Err(7u8)), Err(7u8));
    assert_eq!(blog.lookup_redirect(&c, "shop"), "https://shop.test/");

    let tag = Tag {
        id: String::from("travel"),
        title: String::from("Travel"),
        content: String::new(),
        meta_title: String::new(),
        meta_description: String::new(),
        media: vec![],
    };
    assert_eq!(blog.reload_tags::<String>(Ok(vec![tag])), Ok(1));
    assert_eq!(blog.get_tag("travel").unwrap().title, "Travel");
    assert!(blog.get_tag("food").is_none());
    assert_eq!(blog.reload_tags(Err(String::from("no tags"))), Err(String::from("no tags")));
    assert!(blog.get_tag("travel").is_some());

    let comment = |id: u32, post_id: u32| Comment {
        id,
        parent_id: 0,
        post_id,
        status: String::from("approved"),
        author_name: String::from("Bob"),
        author_email: String::from("bob@example.org"),
        date_posted: 5,
        content: format!("comment {}", id),
    };
    assert_eq!(
        blog.reload_comments::<String>(Ok(vec![comment(1, 7), comment(2, 8), comment(3, 7)])),
        Ok(3)
    );
    assert_eq!(blog.get_post_comments(7), Some(&vec![comment(1, 7), comment(3, 7)]));
    assert_eq!(blog.get_post_comments(8), Some(&vec![comment(2, 8)]));
    assert_eq!(blog.get_post_comments(9), None);
    assert_eq!(blog.reload_comments(Err(String::from("down"))), Err(String::from("down")));
    assert!(blog.get_post_comments(7).is_some());
    // the posts were never touched
    assert!(blog.get_post(1).is_some());
}

fn view(post_id: u32, at: u64) -> BlogMessage {
    BlogMessage::PostView {
        post_id,
        viewed_at: at,
        remote_ip: String::from("10.0.0.1"),
        user_agent: String::from("agent"),
        referer: String::from("ref"),
    }
}

#[test]
fn views_are_buffered_and_flushed_once() {
    let c = settings();
    let mut blog = Blog::new();
    let n = 25;
    for i in 0..n {
        blog.message_post_viewed(
            i,
            i as u64,
            String::from("10.0.0.1"),
            String::from("agent"),
            String::from("ref"),
        );
    }
    let flushed = blog.maintenance_task(&c, 10, none_fetched());
    assert_eq!(flushed.len(), n as usize);
    assert_eq!(flushed, (0..n).map(|i| view(i, i as u64)).collect::<Vec<BlogMessage>>());
    // the buffer is empty after the flush
    assert_eq!(blog.maintenance_task(&c, 11, none_fetched()), vec![]);
}

#[test]
fn maintenance_refreshes_what_is_due() {
    let c = settings();
    let mut a = post(2, "a");
    a.tags = vec![String::from("travel")];
    let b = post(1, "b");
    let mut blog = Blog::new();
    load(&mut blog, vec![a, b]);
    assert_eq!(
        blog.due_fetches(50),
        DueFetches { pinterest: true, instagram: true, latest: true, featured: true }
    );
    let pin = PinterestPostCompact {
        id: String::from("p"),
        note: String::new(),
        img_src: String::new(),
    };
    blog.maintenance_task(
        &c,
        50,
        Fetched {
            pinterest: Some(vec![PinterestPostCompact {
                id: String::from("p"),
                note: String::new(),
                img_src: String::new(),
            }]),
            instagram: None,
            latest: Some(vec![1, 2, 99]),
            featured: Some(vec![99]),
        },
    );
    assert_eq!(blog.cache().get_pinterest_posts(), Some(vec![pin]));
    assert_eq!(blog.cache().get_instagram_posts(), None);
    let ids: Vec<u32> =
        blog.cache().get_latest_posts().unwrap().iter().map(|e| e.id).collect();
    assert_eq!(ids, vec![1, 2]);
    // no known post among the most viewed: nothing stored
    assert_eq!(blog.cache().get_featured_posts(), None);
    // the first configured tag has a post, the second has none
    let ids: Vec<u32> =
        blog.cache().get_posts_by_tag(1).unwrap().iter().map(|e| e.id).collect();
    assert_eq!(ids, vec![2]);
    assert_eq!(blog.cache().get_posts_by_tag(2), None);
    assert_eq!(blog.cache().get_posts_by_tag(3), None);
    assert_eq!(
        blog.due_fetches(150),
        DueFetches { pinterest: false, instagram: true, latest: false, featured: true }
    );
    assert_eq!(
        blog.due_fetches(151),
        DueFetches { pinterest: true, instagram: true, latest: true, featured: true }
    );
    // a failed fetch keeps the stale feed
    blog.maintenance_task(&c, 151, none_fetched());
    assert_eq!(blog.cache().get_pinterest_posts().unwrap().len(), 1);
}

#[test]
fn startup_fills_the_store() {
    let c = settings();
    let mut a = post(1, "a");
    a.tags = vec![String::from("travel")];
    let mut blog = Blog::new();
    let r: Result<usize, String> = blog.startup(
        &c,
        500,
        Loaded {
            posts: Ok(vec![a]),
            snippets: None,
            menus: Ok(vec![Menu { id: 1, name: String::from("main"), items: vec![] }]),
            redirects: Err(String::from("no redirects")),
            tags: Err(String::from("no tags")),
            comments: Ok(vec![]),
        },
        Fetched { pinterest: None, instagram: None, latest: Some(vec![1]), featured: None },
    );
    assert_eq!(r, Ok(1));
    assert!(blog.get_menu("main").is_some());
    assert_eq!(blog.cache().get_latest_posts().unwrap().len(), 1);
    assert_eq!(blog.cache().get_posts_by_tag(1).unwrap().len(), 1);
    assert!(blog.cache().get_site_map().is_some());
}

#[test]
fn startup_without_posts_fails_and_changes_nothing() {
    let c = settings();
    let mut blog = Blog::new();
    let r = blog.startup(
        &c,
        500,
        Loaded {
            posts: Err(String::from("no database")),
            snippets: None,
            menus: Ok(vec![Menu { id: 1, name: String::from("main"), items: vec![] }]),
            redirects: Err(String::from("no redirects")),
            tags: Err(String::from("no tags")),
            comments: Err(String::from("no comments")),
        },
        none_fetched(),
    );
    assert_eq!(r, Err(String::from("no database")));
    assert!(blog.get_menu("main").is_none());
    assert!(blog.cache().get_site_map().is_none());
}

#[test]
fn invalidation_reports_one_and_hides_pages() {
    let c = settings();
    let mut blog = Blog::new();
    blog.cache_html(&c, 10, String::from("k"), String::from("page"));
    assert_eq!(blog.cache().get_html("k", 10), Some(String::from("page")));
    assert_eq!(blog.invalidate_html_cache(11), 1);
    assert_eq!(blog.cache().get_html("k", 10), None);
}

#[test]
fn pagination_edges() {
    let source: Vec<u32> = (0..5).collect();
    assert_eq!(Blog::get_pagination_slice(&source, 0, 0), Vec::<u32>::new());
    assert_eq!(Blog::get_pagination_slice(&source, 0, 5), source);
    assert_eq!(Blog::get_pagination_slice(&source, 0, 6), source);
    assert_eq!(Blog::get_pagination_slice(&source, 4, 1), vec![4]);
    assert_eq!(Blog::get_pagination_slice(&source, u32::MAX, u32::MAX), Vec::<u32>::new());
    assert_eq!(Blog::get_pagination_slice(&vec![], 0, 10), Vec::<u32>::new());
}

#[test]
fn drafts_are_not_served() {
    let mut draft = post(2, "hidden");
    draft.state = String::from("draft");
    draft.tags = vec![String::from("secret")];
    let mut scheduled = post(3, "later");
    scheduled.state = String::from("scheduled");
    let mut blog = Blog::new();
    assert_eq!(load(&mut blog, vec![post(1, "shown"), draft, scheduled]), 2);
    assert!(blog.get_post(1).is_some());
    assert!(blog.get_post(2).is_none());
    assert!(blog.get_post(3).is_some());
    assert_eq!(blog.get_post_by_seo_url("hidden"), 0);
    assert_eq!(blog.get_post_excerpts(&vec![1, 2, 3]).len(), 2);
    assert_eq!(blog.get_all_in_use_tags(), Vec::<String>::new());
    assert_eq!(blog.cache().get_site_map().unwrap().content.unwrap().len(), 2);
}

#[test]
fn only_approved_comments_are_served() {
    let comment = |id: u32, status: &str| Comment {
        id,
        parent_id: 0,
        post_id: 1,
        status: String::from(status),
        author_name: String::from("Bob"),
        author_email: String::new(),
        date_posted: 5,
        content: String::new(),
    };
    let mut blog = Blog::new();
    assert_eq!(
        blog.reload_comments::<String>(Ok(vec![
            comment(1, "new"),
            comment(2, "approved"),
            comment(3, "spam"),
            comment(4, "approved"),
        ])),
        Ok(2)
    );
    assert_eq!(
        blog.get_post_comments(1),
        Some(&vec![comment(2, "approved"), comment(4, "approved")])
    );
    assert_eq!(blog.reload_comments::<String>(Ok(vec![comment(5, "new")])), Ok(0));
    assert_eq!(blog.get_post_comments(1), None);
}
