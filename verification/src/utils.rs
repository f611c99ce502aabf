//! Social feeds in their compact form, and small helpers.

use vstd::prelude::*;
use vstd::string::*;
use crate::config::{config_get_string, string_setting};
use crate::lists::{reversed, take_next};
use crate::text::{contains_text, replace, replace_all};

verus! {

/// A post of the first feed as its service delivers it.
#[derive(Debug, PartialEq)]
pub struct InstagramPost {
    pub id: String,
    pub media_url: String,
    pub permalink: String,
}

/// What the store keeps of a post of the first feed.
#[derive(Debug, PartialEq)]
pub struct InstagramPostCompact {
    pub link: String,
    pub img_src: String,
    pub location: String,
    pub likes: u32,
    pub comments: u32,
}

/// What an `InstagramPostCompact` holds.
pub struct InstagramPostView {
    pub link: Seq<char>,
    pub img_src: Seq<char>,
    pub location: Seq<char>,
    pub likes: u32,
    pub comments: u32,
}

impl View for InstagramPostCompact {
    type V = InstagramPostView;

    open spec fn view(&self) -> InstagramPostView {
        InstagramPostView {
            link: self.link@,
            img_src: self.img_src@,
            location: self.location@,
            likes: self.likes,
            comments: self.comments,
        }
    }
}

impl DeepView for InstagramPostCompact {
    type V = InstagramPostView;

    open spec fn deep_view(&self) -> InstagramPostView {
        self@
    }
}

impl Clone for InstagramPostCompact {
    fn clone(&self) -> (r: Self)
        ensures
            r@ == self@,
    {
        InstagramPostCompact {
            link: self.link.clone(),
            img_src: self.img_src.clone(),
            location: self.location.clone(),
            likes: self.likes,
            comments: self.comments,
        }
    }
}

/// The picture of a post of the second feed.
#[derive(Debug, PartialEq)]
pub struct PinterestPostImage {
    pub url: String,
    pub width: u32,
    pub height: u32,
}

/// The pictures of a post of the second feed.
#[derive(Debug, PartialEq)]
pub struct PinterestPostImageData {
    pub original: PinterestPostImage,
}

/// A post of the second feed as its service delivers it.
#[derive(Debug, PartialEq)]
pub struct PinterestPost {
    pub id: String,
    pub note: String,
    pub image: PinterestPostImageData,
}

/// What the store keeps of a post of the second feed.
#[derive(Debug, PartialEq)]
pub struct PinterestPostCompact {
    pub id: String,
    pub note: String,
    pub img_src: String,
}

/// What a `PinterestPostCompact` holds.
pub struct PinterestPostView {
    pub id: Seq<char>,
    pub note: Seq<char>,
    pub img_src: Seq<char>,
}

impl View for PinterestPostCompact {
    type V = PinterestPostView;

    open spec fn view(&self) -> PinterestPostView {
        PinterestPostView { id: self.id@, note: self.note@, img_src: self.img_src@ }
    }
}

impl DeepView for PinterestPostCompact {
    type V = PinterestPostView;

    open spec fn deep_view(&self) -> PinterestPostView {
        self@
    }
}

impl Clone for PinterestPostCompact {
    fn clone(&self) -> (r: Self)
        ensures
            r@ == self@,
    {
        PinterestPostCompact {
            id: self.id.clone(),
            note: self.note.clone(),
            img_src: self.img_src.clone(),
        }
    }
}

/// The compact form of a post of the first feed: its link and picture, with
/// nothing known of place, likes or comments.
pub open spec fn instagram_compact(p: InstagramPost) -> InstagramPostView {
    InstagramPostView {
        link: p.permalink@,
        img_src: p.media_url@,
        location: Seq::empty(),
        likes: 0,
        comments: 0,
    }
}

/// The compact form of a post of the second feed.
pub open spec fn pinterest_compact(p: PinterestPost) -> PinterestPostView {
    PinterestPostView { id: p.id@, note: p.note@, img_src: p.image.original.url@ }
}

/// The mark in a feed's address that gives way to the access token.
pub open spec fn token_mark() -> Seq<char> {
    "%TOKEN%"@
}

/// The address to fetch the first feed from: the setting `instagram_url` with
/// the setting `instagram_token` in place of the token mark.
pub fn instagram_feed_url(c: &config::Config) -> (r: String)
    ensures
        r@ == replace_all(
            string_setting(*c, "instagram_url"@),
            token_mark(),
            string_setting(*c, "instagram_token"@),
        ),
{
    let token = config_get_string(c, "instagram_token");
    let url = config_get_string(c, "instagram_url");
    replace(url.as_str(), "%TOKEN%", token.as_str())
}

/// The address to fetch the second feed from: the setting `pinterest_url`
/// with the setting `pinterest_token` in place of the token mark.
pub fn pinterest_feed_url(c: &config::Config) -> (r: String)
    ensures
        r@ == replace_all(
            string_setting(*c, "pinterest_url"@),
            token_mark(),
            string_setting(*c, "pinterest_token"@),
        ),
{
    let token = config_get_string(c, "pinterest_token");
    let url = config_get_string(c, "pinterest_url");
    replace(url.as_str(), "%TOKEN%", token.as_str())
}

/// The first feed in compact form, given what was fetched and decoded:
/// nothing where that failed, else each post in its compact form, in order.
pub fn fetch_instagram_feed(decoded: Option<Vec<InstagramPost>>) -> (r: Option<
    Vec<InstagramPostCompact>,
>)
    ensures
        r is Some <==> decoded is Some,
        r matches Some(out) ==> out.deep_view() == decoded->0@.map_values(
            |p: InstagramPost| instagram_compact(p),
        ),
{
    match decoded {
        Some(posts) => {
            let ghost all = posts@;
            let count = posts.len();
            let mut rest = reversed(posts);
            let mut out: Vec<InstagramPostCompact> = Vec::new();
            let mut i: usize = 0;
            assert(all.skip(0) =~= all);
            while i < count
                invariant
                    i <= count == all.len(),
                    rest@ == all.skip(i as int).reverse(),
                    out.len() == i,
                    forall|j: int|
                        0 <= j < i ==> #[trigger] out@[j]@ == instagram_compact(all[j]),
                decreases count - i,
            {
                let post = take_next(&mut rest, Ghost(all), Ghost(i as int));
                out.push(
                    InstagramPostCompact {
                        link: post.permalink,
                        img_src: post.media_url,
                        location: String::new(),
                        likes: 0,
                        comments: 0,
                    },
                );
                i = i + 1;
            }
            assert(out.deep_view() =~= all.map_values(|p: InstagramPost| instagram_compact(p)));
            Some(out)
        },
        None => None,
    }
}

/// The second feed in compact form, given what was fetched and decoded:
/// nothing where that failed, else each post in its compact form, in order.
pub fn fetch_pinterest_feed(decoded: Option<Vec<PinterestPost>>) -> (r: Option<
    Vec<PinterestPostCompact>,
>)
    ensures
        r is Some <==> decoded is Some,
        r matches Some(out) ==> out.deep_view() == decoded->0@.map_values(
            |p: PinterestPost| pinterest_compact(p),
        ),
{
    match decoded {
        Some(posts) => {
            let ghost all = posts@;
            let count = posts.len();
            let mut rest = reversed(posts);
            let mut out: Vec<PinterestPostCompact> = Vec::new();
            let mut i: usize = 0;
            assert(all.skip(0) =~= all);
            while i < count
                invariant
                    i <= count == all.len(),
                    rest@ == all.skip(i as int).reverse(),
                    out.len() == i,
                    forall|j: int|
                        0 <= j < i ==> #[trigger] out@[j]@ == pinterest_compact(all[j]),
                decreases count - i,
            {
                let post = take_next(&mut rest, Ghost(all), Ghost(i as int));
                out.push(
                    PinterestPostCompact {
                        id: post.id,
                        note: post.note,
                        img_src: post.image.original.url,
                    },
                );
                i = i + 1;
            }
            assert(out.deep_view() =~= all.map_values(|p: PinterestPost| pinterest_compact(p)));
            Some(out)
        },
        None => None,
    }
}

/// A letter of the English alphabet or a digit.
pub open spec fn is_base62(c: char) -> bool {
    ('0' <= c && c <= '9') || ('A' <= c && c <= 'Z') || ('a' <= c && c <= 'z')
}

/// A random string of `len` letters and digits, drawn with `rand`'s
/// `Alphanumeric` from the thread's generator. Good enough for file names,
/// too weak for secrets. Which string comes is left open: only its length
/// and alphabet are stated.
#[verifier::external_body]
pub fn weak_random_base62_string(len: usize) -> (r: String)
    ensures
        r@.len() == len,
        forall|i: int| 0 <= i < r@.len() ==> is_base62(#[trigger] r@[i]),
{
    rand::Rng::sample_iter(rand::thread_rng(), &rand::distributions::Alphanumeric).take(
        len,
    ).collect()
}

/// `ext` stands in `name` behind a dot and holds no dot itself.
pub open spec fn is_extension_in(name: Seq<char>, ext: Seq<char>) -> bool {
    contains_text(name, "."@ + ext) && forall|i: int| 0 <= i < ext.len() ==> ext[i] != '.'
}

/// The extension of the file name, by `Path::extension` of the standard
/// library. How a path falls into its parts is the platform's matter, so
/// which extension is found, and whether any, is left open. What the
/// library documents of every extension found is stated: it is the part of
/// the file name behind its last dot.
#[verifier::external_body]
pub fn get_extension_from_filename(filename: &str) -> (r: Option<&str>)
    ensures
        r matches Some(ext) ==> is_extension_in(filename@, ext@),
{
    std::path::Path::new(filename).extension().and_then(|e| e.to_str())
}

/// The file name without its extension, by `Path::file_stem` of the standard
/// library. Which stem is found, and whether any, is left open as for the
/// extension; every stem found is a part of the path.
#[verifier::external_body]
pub fn get_stem_from_filename(filename: &str) -> (r: Option<&str>)
    ensures
        r matches Some(stem) ==> contains_text(filename@, stem@),
{
    std::path::Path::new(filename).file_stem().and_then(|e| e.to_str())
}

} // verus!
