use blog_engine::auth::jwt::{handle_auth_request, UserJWT};
use blog_engine::auth::user::{User, UserRow};
use blog_engine::auth::{auth_check, auth_login, auth_logout, is_admin, AuthResponseDefault};
use blog_engine::blog::gallery::{
    fits_without_upscaling, gallery_find_file, gallery_find_original, gallery_sized_paths,
    generate_upload_file_name, parse_size_request, picture_format, upload_file_name_for,
    upload_info_from, uploaded_file_get_info, FileRead, PictureFormat, Side, SizeRequest,
    SizedFound,
};
use blog_engine::blog::routes::{
    page_index, seo_url_of, tag_of_path, QueryPage, QuerySearch, ReloadDataRequest, ReloadKind,
};
use blog_engine::blog::types::comment::{Comment, NewComment};
use blog_engine::blog::types::menu::{Menu, MenuRow};
use blog_engine::blog::types::post::{Post, PostRow};
use blog_engine::blog::types::snippet::{Snippet, SnippetRow};
use blog_engine::blog::types::tag::{Tag, TagRow};
use blog_engine::lists::reversed;
use blog_engine::text::{parse_u32, trim};
use blog_engine::utils::{
    fetch_instagram_feed, fetch_pinterest_feed, get_extension_from_filename,
    get_stem_from_filename, instagram_feed_url, pinterest_feed_url, weak_random_base62_string,
    InstagramPost, InstagramPostCompact, PinterestPost, PinterestPostCompact, PinterestPostImage,
    PinterestPostImageData,
};

#[test]
fn random_names_have_length_and_alphabet() {
    for len in [0usize, 1, 15, 128].iter() {
        let s = weak_random_base62_string(*len);
        assert_eq!(s.chars().count(), *len);
        assert!(s.chars().all(|c| c.is_ascii_alphanumeric()));
    }
}

#[test]
fn extension_and_stem_of_file_names() {
    assert_eq!(get_extension_from_filename("photo.JPG"), Some("JPG"));
    assert_eq!(get_extension_from_filename("dir/photo.tar.gz"), Some("gz"));
    assert_eq!(get_extension_from_filename("noext"), None);
    assert_eq!(get_extension_from_filename(".hidden"), None);
    assert_eq!(get_stem_from_filename("dir/photo.png"), Some("photo"));
    assert_eq!(get_stem_from_filename(""), None);
}

#[test]
fn feeds_are_compacted_in_order() {
    let posts = vec![
        InstagramPost {
            id: String::from("1"),
            media_url: String::from("m1"),
            permalink: String::from("p1"),
        },
        InstagramPost {
            id: String::from("2"),
            media_url: String::from("m2"),
            permalink: String::from("p2"),
        },
    ];
    let compact = |l: &str, i: &str| InstagramPostCompact {
        link: String::from(l),
        img_src: String::from(i),
        location: String::new(),
        likes: 0,
        comments: 0,
    };
    assert_eq!(
        fetch_instagram_feed(Some(posts)),
        Some(vec![compact("p1", "m1"), compact("p2", "m2")])
    );
    assert_eq!(fetch_instagram_feed(None), None);
    assert_eq!(fetch_instagram_feed(Some(vec![])), Some(vec![]));
    let pin = PinterestPost {
        id: String::from("9"),
        note: String::from("n"),
        image: PinterestPostImageData {
            original: PinterestPostImage { url: String::from("u"), width: 1, height: 2 },
        },
    };
    assert_eq!(
        fetch_pinterest_feed(Some(vec![pin])),
        Some(vec![PinterestPostCompact {
            id: String::from("9"),
            note: String::from("n"),
            img_src: String::from("u"),
        }])
    );
    assert_eq!(fetch_pinterest_feed(None), None);
}

#[test]
fn feed_addresses_carry_the_token() {
    let mut c = config::Config::default();
    c.set("instagram_url", "https://feed.test/?t=%TOKEN%&x=%TOKEN%").unwrap();
    c.set("instagram_token", "abc").unwrap();
    c.set("pinterest_url", "https://pins.test/%TOKEN%").unwrap();
    assert_eq!(instagram_feed_url(&c), "https://feed.test/?t=abc&x=abc");
    assert_eq!(pinterest_feed_url(&c), "https://pins.test/");
}

fn user(permissions: &[&str]) -> User {
    User::with_hash(
        "ann",
        String::from("salt"),
        Some(String::from("not a hash")),
    )
    .map(|mut u| {
        u.id = 7;
        u.display_name = String::from("Ann");
        u.permissions = permissions.iter().map(|p| String::from(*p)).collect();
        u
    })
    .unwrap()
}

#[test]
fn token_copies_the_user() {
    let u = user(&["admin", "guest"]);
    let t = UserJWT::create_token_for_user(&u, 99);
    assert_eq!(
        t,
        UserJWT {
            sub: 7,
            iat: 99,
            name: String::from("Ann"),
            permissions: vec![String::from("admin"), String::from("guest")],
        }
    );
    assert!(is_admin(Some(&t)));
    assert!(!is_admin(None));
    let g = UserJWT::create_token_for_user(&user(&["guest", "Admin"]), 1);
    assert!(!is_admin(Some(&g)));
}

#[test]
fn passwords_are_hashed_and_checked() {
    let u = User::create_user("bob", "secret").unwrap();
    assert_eq!(u.id, 0);
    assert_eq!(u.login, "bob");
    assert_eq!(u.display_name, "bob");
    assert_eq!(u.permissions, vec![String::from("guest")]);
    assert_eq!((u.sn, u.sr, u.sp), (10, 8, 1));
    assert_eq!(u.salt.len(), 128);
    assert!(u.salt.chars().all(|c| c.is_ascii_alphanumeric()));
    assert!(u.pass.starts_with("$rscrypt$"));
    assert!(u.verify_password("secret"));
    assert!(!u.verify_password("Secret"));
    assert!(!user(&[]).verify_password("anything"));
    assert_eq!(User::with_hash("x", String::new(), None), None);
}

#[test]
fn login_needs_a_user_and_the_password() {
    let u = User::create_user("bob", "secret").unwrap();
    assert_eq!(handle_auth_request(None, "secret", 5), None);
    let hash = u.pass.clone();
    let again = || {
        let mut v = User::with_hash("bob", String::new(), Some(hash.clone())).unwrap();
        v.id = 3;
        v
    };
    assert_eq!(handle_auth_request(Some(again()), "wrong", 5), None);
    assert_eq!(
        handle_auth_request(Some(again()), "secret", 5),
        Some((
            3,
            String::from("bob"),
            UserJWT {
                sub: 3,
                iat: 5,
                name: String::from("bob"),
                permissions: vec![String::from("guest")],
            }
        ))
    );
}

#[test]
fn auth_answers() {
    let t = UserJWT { sub: 2, iat: 0, name: String::from("N"), permissions: vec![] };
    assert_eq!(
        auth_check(Some(t)),
        Ok(AuthResponseDefault { display_name: String::from("N"), user_id: 2 })
    );
    assert_eq!(auth_check(None).unwrap_err().error, "token is invalid");
    assert_eq!(
        auth_login(Some((4, String::from("D")))),
        Ok(AuthResponseDefault { display_name: String::from("D"), user_id: 4 })
    );
    assert_eq!(auth_login(None).unwrap_err().error, "invalid login");
    assert_eq!(auth_logout(), AuthResponseDefault { display_name: String::new(), user_id: 0 });
}

#[test]
fn comments_are_checked_in_order() {
    let mut c = config::Config::default();
    c.set("bot_block_solution", "seven").unwrap();
    let check = |post: u32, author: &str, text: &str, answer: &str| {
        Comment::store_unapproved_comment(&c, post, 0, author, "a@b.c", text, answer)
    };
    assert_eq!(
        check(1, "Ann", "hi", "six"),
        Err(String::from("Please check your answer to the spam protection question."))
    );
    assert_eq!(check(1, "  ", "hi", " Seven "), Err(String::from("Kindly provide your name.")));
    assert_eq!(check(0, "Ann", "hi", "seven"), Err(String::from("The post could not be found.")));
    assert_eq!(
        check(1, "Ann", " \n\t", "SEVEN"),
        Err(String::from("The comment can not be empty."))
    );
    // the first fault is the one reported
    assert_eq!(
        check(0, "", "", "no"),
        Err(String::from("Please check your answer to the spam protection question."))
    );
    assert_eq!(
        check(5, " Ann ", "  hello there \n", "seven"),
        Ok(NewComment {
            post_id: 5,
            parent_id: 0,
            status: String::from("new"),
            author_name: String::from("Ann"),
            author_email: String::from("a@b.c"),
            content: String::from("hello there"),
        })
    );
}

#[test]
fn trim_strips_both_ends() {
    assert_eq!(trim("  a b  "), "a b");
    assert_eq!(trim("\u{a0}x\u{2003}"), "x");
    assert_eq!(trim("   "), "");
    assert_eq!(trim(""), "");
    assert_eq!(trim("x"), "x");
}

fn post_by(author: &str, id: u32) -> Post {
    Post {
        id,
        author_name: String::from(author),
        author_home_post: 0,
        date_posted: 0,
        date_modified: 0,
        state: String::new(),
        title: String::new(),
        content: String::new(),
        meta_title: String::new(),
        meta_description: String::new(),
        meta_keywords: vec![],
        url_canonical: String::new(),
        url_historic: vec![],
        tags: vec![],
        media: vec![],
        locations: vec![],
        related_posts: vec![],
    }
}

#[test]
fn post_storage_decisions() {
    assert_eq!(post_by("12", 0).author_id(), 12);
    assert_eq!(post_by("+7", 0).author_id(), 7);
    assert_eq!(post_by("Ann", 0).author_id(), 1);
    assert_eq!(post_by("-1", 0).author_id(), 1);
    assert_eq!(post_by("4294967296", 0).author_id(), 1);
    assert_eq!(post_by("", 0).author_id(), 1);
    assert!(post_by("1", 0).is_new());
    assert!(!post_by("1", 9).is_new());
    assert_eq!(post_by("1", 0).stored_id(77), 77);
    assert_eq!(post_by("1", 9).stored_id(77), 9);
}

#[test]
fn request_decisions() {
    assert_eq!(page_index(None), 0);
    assert_eq!(page_index(Some(0)), 0);
    assert_eq!(page_index(Some(1)), 0);
    assert_eq!(page_index(Some(5)), 4);
    assert_eq!(QueryPage { p: Some(3) }.page_index(), 2);
    assert_eq!(QuerySearch { q: String::from("x"), p: None }.page_index(), 0);
    assert_eq!(seo_url_of("my-post/"), "my-post");
    assert_eq!(seo_url_of("my-post//"), "my-post/");
    assert_eq!(seo_url_of("my-post"), "my-post");
    assert_eq!(seo_url_of(""), "");
    assert_eq!(tag_of_path("far/east/"), "fareast");
    let kind = |w: &str| ReloadDataRequest { which: String::from(w) }.kind();
    assert_eq!(kind("comments"), ReloadKind::Comments);
    assert_eq!(kind("html"), ReloadKind::Html);
    assert_eq!(kind("menus"), ReloadKind::Menus);
    assert_eq!(kind("posts"), ReloadKind::Posts);
    assert_eq!(kind("redirects"), ReloadKind::Redirects);
    assert_eq!(kind("tags"), ReloadKind::Tags);
    assert_eq!(kind("Posts"), ReloadKind::Nothing);
    assert_eq!(kind(""), ReloadKind::Nothing);
}

#[test]
fn list_helpers() {
    assert_eq!(reversed(vec![1, 2, 3]), vec![3, 2, 1]);
    assert_eq!(reversed(Vec::<u8>::new()), Vec::<u8>::new());
}

#[test]
fn upload_names_are_tried_until_one_is_free() {
    let r = generate_upload_file_name("holiday.jpeg", |_p: &str| false).unwrap();
    assert!(r.starts_with("data/gallery/original/"));
    assert!(r.ends_with(".jpeg"));
    assert_eq!(r.len(), "data/gallery/original/".len() + 15 + ".jpeg".len());
    assert_eq!(
        generate_upload_file_name("holiday.jpeg", |_p: &str| true),
        Err(String::from("All file names collide"))
    );
    assert_eq!(
        generate_upload_file_name("holiday", |_p: &str| false),
        Err(String::from("Could not get extension from filename"))
    );
    let tried = std::cell::Cell::new(0);
    let r = generate_upload_file_name("a.png", |_p: &str| {
        tried.set(tried.get() + 1);
        tried.get() < 25
    });
    assert!(r.is_ok());
    assert_eq!(tried.get(), 25);
}

#[test]
fn upload_info_is_gathered() {
    let info =
        uploaded_file_get_info("data/gallery/original/abc.png", FileRead::Content(vec![]), Some((3, 4)))
            .unwrap();
    assert_eq!(info.guid, "abc");
    assert_eq!(info.ext, "png");
    assert_eq!(info.src, "/gallery/abc/w200/thumb.png");
    assert_eq!(info.hash, "d41d8cd98f00b204e9800998ecf8427e");
    assert_eq!((info.x, info.y), (3, 4));
    let info = uploaded_file_get_info("x.gif", FileRead::Content(b"abc".to_vec()), Some((1, 1)))
        .unwrap();
    assert_eq!(info.hash, "900150983cd24fb0d6963f7d28e17f72");
    assert_eq!(
        uploaded_file_get_info("noext", FileRead::Content(vec![]), Some((1, 1))),
        Err(String::from("Cannot get image extension"))
    );
    assert_eq!(
        uploaded_file_get_info("a.png", FileRead::Missing, Some((1, 1))),
        Err(String::from("Image not found when trying to hash"))
    );
    assert_eq!(
        uploaded_file_get_info("a.png", FileRead::Unreadable, None),
        Err(String::from("Image hashing error"))
    );
    assert_eq!(
        uploaded_file_get_info("a.png", FileRead::Content(vec![1]), None),
        Err(String::from("Cannot open image"))
    );
}

#[test]
fn gallery_requests_are_resolved() {
    assert_eq!(gallery_find_original("a.png", true, true), "data/gallery/a.png");
    assert_eq!(gallery_find_original("a.png", false, true), "data/gallery/original/a.png");
    assert_eq!(gallery_find_original("a.png", false, false), "data/gallery/not_found.png");
    assert_eq!(gallery_find_original("", true, true), "data/gallery/not_found.png");
    assert_eq!(gallery_find_original("-", true, true), "data/gallery/not_found.png");

    let p = gallery_sized_paths("abc", "w200", "thumb.png").unwrap();
    assert_eq!(p.resized, "data/gallery/w200/abc.png");
    assert_eq!(p.original, "data/gallery/original/abc.png");
    assert_eq!(p.extension, "png");
    // a tail without a known extension leaves the extension empty
    let p = gallery_sized_paths("abc", "h50", "thumb.webp").unwrap();
    assert_eq!(p.resized, "data/gallery/h50/abc.");
    assert!(gallery_sized_paths("abc", "x200", "thumb.png").is_none());
    assert!(gallery_sized_paths("abc", "w", "thumb.png").is_none());
    assert!(gallery_sized_paths("--", "w200", "thumb.png").is_none());

    let find = |f: SizedFound| gallery_find_file("abc", "w200", "thumb.jpg", f);
    assert_eq!(find(SizedFound::Resized), "data/gallery/w200/abc.jpg");
    assert_eq!(find(SizedFound::ResizedNow), "data/gallery/w200/abc.jpg");
    assert_eq!(find(SizedFound::OriginalOnly), "data/gallery/original/abc.jpg");
    assert_eq!(find(SizedFound::Neither), "data/gallery/not_found.png");
    assert_eq!(
        gallery_find_file("abc", "200", "thumb.jpg", SizedFound::Resized),
        "data/gallery/not_found.png"
    );
}

#[test]
fn sizes_are_parsed_and_bounded() {
    assert_eq!(parse_size_request("w200"), Some(SizeRequest { side: Side::Width, pixels: 200 }));
    assert_eq!(parse_size_request("h26"), Some(SizeRequest { side: Side::Height, pixels: 26 }));
    assert_eq!(parse_size_request("x2000"), Some(SizeRequest { side: Side::Both, pixels: 2000 }));
    assert_eq!(parse_size_request("w25"), None);
    assert_eq!(parse_size_request("w2001"), None);
    assert_eq!(parse_size_request("w"), None);
    assert_eq!(parse_size_request(""), None);
    assert_eq!(parse_size_request("wabc"), None);
    assert!(fits_without_upscaling(10, 10, 10, 10));
    assert!(!fits_without_upscaling(11, 10, 10, 10));
    assert!(!fits_without_upscaling(10, 11, 10, 10));
    assert_eq!(picture_format("bmp"), PictureFormat::Bmp);
    assert_eq!(picture_format("gif"), PictureFormat::Gif);
    assert_eq!(picture_format("png"), PictureFormat::Png);
    assert_eq!(picture_format("jpg"), PictureFormat::Jpeg);
    assert_eq!(picture_format("PNG"), PictureFormat::Jpeg);
}

#[test]
fn numbers_are_parsed_as_std_parses_them() {
    assert_eq!(parse_u32("42"), Some(42));
    assert_eq!(parse_u32("+7"), Some(7));
    assert_eq!(parse_u32("007"), Some(7));
    assert_eq!(parse_u32("4294967295"), Some(u32::MAX));
    let cases = [
        "", "+", "-", "-1", "-0", "++1", "+-1", "1+", " 1", "1 ", "0", "00", "4294967296",
        "42949672950", "99999999999999999999999", "12a", "a12", "１２", "1_000", "0x10", "+0",
        "4294967295", "4294967294", "+4294967295", "+4294967296",
    ];
    for text in cases.iter() {
        assert_eq!(parse_u32(text), text.parse::<u32>().ok(), "{:?}", text);
    }
}

fn post_row() -> PostRow {
    PostRow {
        id: 4,
        author_name: String::from("Ann"),
        author_home_post: 1,
        date_posted: 2,
        date_modified: 3,
        state: String::from("published"),
        title: String::from("T"),
        content: String::from("C"),
        meta_title: String::from("M"),
        meta_description: String::from("D"),
        meta_keywords: Some(vec![String::from("k")]),
        url_canonical: String::from("u"),
        url_historic: Some(vec![]),
        tags: Some(vec![String::from("t")]),
        media: Some(vec![]),
        locations: Some(vec![]),
        related_posts: Some(vec![9]),
    }
}

#[test]
fn a_row_that_decodes_is_a_post() {
    let mut want = post_by("Ann", 4);
    want.author_home_post = 1;
    want.date_posted = 2;
    want.date_modified = 3;
    want.state = String::from("published");
    want.title = String::from("T");
    want.content = String::from("C");
    want.meta_title = String::from("M");
    want.meta_description = String::from("D");
    want.meta_keywords = vec![String::from("k")];
    want.url_canonical = String::from("u");
    want.tags = vec![String::from("t")];
    want.related_posts = vec![9];
    assert_eq!(Post::from_sql(post_row()), Some(want));
}

#[test]
fn a_row_with_a_column_that_does_not_decode_is_skipped() {
    let mut row = post_row();
    row.meta_keywords = None;
    assert_eq!(Post::from_sql(row), None);
    let mut row = post_row();
    row.url_historic = None;
    assert_eq!(Post::from_sql(row), None);
    let mut row = post_row();
    row.tags = None;
    assert_eq!(Post::from_sql(row), None);
    let mut row = post_row();
    row.media = None;
    assert_eq!(Post::from_sql(row), None);
    let mut row = post_row();
    row.locations = None;
    assert_eq!(Post::from_sql(row), None);
    let mut row = post_row();
    row.related_posts = None;
    assert_eq!(Post::from_sql(row), None);
}

#[test]
fn other_rows_are_read_or_skipped_alike() {
    let tag = |media| TagRow {
        id: String::from("t"),
        title: String::from("T"),
        content: String::new(),
        meta_title: String::new(),
        meta_description: String::new(),
        media,
    };
    assert_eq!(
        Tag::from_sql(tag(Some(vec![]))),
        Some(Tag {
            id: String::from("t"),
            title: String::from("T"),
            content: String::new(),
            meta_title: String::new(),
            meta_description: String::new(),
            media: vec![],
        })
    );
    assert_eq!(Tag::from_sql(tag(None)), None);
    assert_eq!(
        Menu::from_sql(MenuRow { id: 2, name: String::from("main"), items: Some(vec![]) }),
        Some(Menu { id: 2, name: String::from("main"), items: vec![] })
    );
    assert_eq!(Menu::from_sql(MenuRow { id: 2, name: String::from("main"), items: None }), None);
    let snippet = |variables| SnippetRow {
        id: 3,
        name: String::from("s"),
        replacement: String::from("r"),
        variables,
    };
    assert_eq!(
        Snippet::from_sql(snippet(Some(vec![]))),
        Some(Snippet {
            id: 3,
            name: String::from("s"),
            replacement: String::from("r"),
            variables: vec![],
        })
    );
    assert_eq!(Snippet::from_sql(snippet(None)), None);
    let user = |permissions| UserRow {
        id: 5,
        login: String::from("ann"),
        pass: String::from("h"),
        salt: String::from("s"),
        sn: 10,
        sr: 8,
        sp: 1,
        display_name: String::from("Ann"),
        home_post: 0,
        permissions,
    };
    let got = User::from_sql(user(Some(vec![String::from("admin")]))).unwrap();
    assert_eq!(got.id, 5);
    assert_eq!(got.login, "ann");
    assert_eq!(got.permissions, vec![String::from("admin")]);
    assert_eq!(User::from_sql(user(None)), None);
}

#[test]
fn upload_names_follow_the_extension_given() {
    let r = upload_file_name_for(Some("png"), |_p: &str| false).unwrap();
    assert!(r.starts_with("data/gallery/original/"));
    assert!(r.ends_with(".png"));
    assert_eq!(r.len(), "data/gallery/original/".len() + 15 + ".png".len());
    let name = &r["data/gallery/original/".len()..r.len() - ".png".len()];
    assert!(name.chars().all(|c| c.is_ascii_alphanumeric()));
    assert_eq!(
        upload_file_name_for(None, |_p: &str| false),
        Err(String::from("Could not get extension from filename"))
    );
    // every one of the names tried is asked for before giving up
    let asked = std::cell::RefCell::new(Vec::new());
    let r = upload_file_name_for(Some("gif"), |p: &str| {
        asked.borrow_mut().push(String::from(p));
        true
    });
    assert_eq!(r, Err(String::from("All file names collide")));
    assert_eq!(asked.borrow().len(), 25);
    assert!(asked.borrow().iter().all(|p| p.ends_with(".gif")));
    // the first free name is taken
    let count = std::cell::Cell::new(0);
    let last = std::cell::RefCell::new(String::new());
    let r = upload_file_name_for(Some("gif"), |p: &str| {
        count.set(count.get() + 1);
        *last.borrow_mut() = String::from(p);
        count.get() < 3
    });
    assert_eq!(count.get(), 3);
    assert_eq!(r, Ok(last.borrow().clone()));
}

#[test]
fn upload_info_follows_extension_and_stem_given() {
    let info =
        upload_info_from(Some("png"), Some("abc"), FileRead::Content(b"abc".to_vec()), Some((3, 4)))
            .unwrap();
    assert_eq!(info.guid, "abc");
    assert_eq!(info.ext, "png");
    assert_eq!(info.src, "/gallery/abc/w200/thumb.png");
    assert_eq!(info.hash, "900150983cd24fb0d6963f7d28e17f72");
    assert_eq!((info.x, info.y), (3, 4));
    // what is amiss is told in order
    assert_eq!(
        upload_info_from(None, None, FileRead::Missing, None),
        Err(String::from("Cannot get image extension"))
    );
    assert_eq!(
        upload_info_from(Some("png"), None, FileRead::Missing, None),
        Err(String::from("Cannot get image file stem"))
    );
    assert_eq!(
        upload_info_from(Some("png"), Some("a"), FileRead::Missing, None),
        Err(String::from("Image not found when trying to hash"))
    );
    assert_eq!(
        upload_info_from(Some("png"), Some("a"), FileRead::Unreadable, Some((1, 1))),
        Err(String::from("Image hashing error"))
    );
    assert_eq!(
        upload_info_from(Some("png"), Some("a"), FileRead::Content(vec![]), None),
        Err(String::from("Cannot open image"))
    );
}
