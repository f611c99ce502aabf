//! What the handlers of requests decide before they call the store.

use vstd::prelude::*;
use vstd::string::*;
use crate::blog::gallery::{gallery_sized_paths, sized_paths, SizedPaths};
use crate::blog::site_address;
use crate::blog::types::comment::{comment_fault, NewComment, NewCommentView};
use crate::text::trimmed;
use crate::config::config_get_string;
use crate::text::{chars_of, concat2, concat3, replace, replace_all, same_text, string_of};

verus! {

/// The query of a search request.
#[derive(Debug, PartialEq)]
pub struct QuerySearch {
    pub q: String,
    pub p: Option<u32>,
}

/// The query of a request for a listing page.
#[derive(Debug, PartialEq)]
pub struct QueryPage {
    pub p: Option<u32>,
}

/// The path of a request for a picture of the gallery.
#[derive(Debug, PartialEq)]
pub struct GalleryRequest {
    pub guid: String,
    pub size: String,
    pub tail: String,
}

/// A comment as a reader hands it in.
#[derive(Debug, PartialEq)]
pub struct Comment {
    pub post: u32,
    pub parent: u32,
    pub author: String,
    pub email: String,
    pub text: String,
    pub nd: String,
}

/// The query of a request to load a kind of content again.
#[derive(Debug, PartialEq)]
pub struct ReloadDataRequest {
    pub which: String,
}

/// What a request to load again names.
#[derive(Debug, PartialEq, Eq, Clone, Copy)]
pub enum ReloadKind {
    Comments,
    Html,
    Menus,
    Posts,
    Redirects,
    Tags,
    /// Nothing that can be loaded: such a request succeeds with a count of 0.
    Nothing,
}

/// The page that a request means, counted from 0: readers count from 1, and
/// no number means the first page.
pub open spec fn page_index_of(p: Option<u32>) -> u32 {
    match p {
        Some(n) => if n > 0 {
            (n - 1) as u32
        } else {
            0
        },
        None => 0,
    }
}

/// The page that a request means, counted from 0.
pub fn page_index(p: Option<u32>) -> (r: u32)
    ensures
        r == page_index_of(p),
{
    match p {
        Some(n) => if n > 0 {
            n - 1
        } else {
            0
        },
        None => 0,
    }
}

/// The address to look a post up by: the path without a slash at its end.
pub open spec fn seo_path(path: Seq<char>) -> Seq<char> {
    if path.len() > 0 && path.last() == '/' {
        path.drop_last()
    } else {
        path
    }
}

/// The address to look a post up by: the path without a slash at its end.
pub fn seo_url_of(path: &str) -> (r: String)
    ensures
        r@ == seo_path(path@),
{
    let mut v = chars_of(path);
    if v.len() > 0 && v[v.len() - 1] == '/' {
        v.pop();
    }
    string_of(&v)
}

/// The tag that a path names: the path without its slashes.
pub fn tag_of_path(path: &str) -> (r: String)
    ensures
        r@ == replace_all(path@, "/"@, ""@),
{
    replace(path, "/", "")
}

impl GalleryRequest {
    /// The files that may answer this request; none where it is not well
    /// formed.
    pub fn paths(&self) -> (r: Option<SizedPaths>)
        ensures
            r is Some <==> sized_paths(self.guid@, self.size@, self.tail@) is Some,
            r matches Some(p) ==> p@ == sized_paths(self.guid@, self.size@, self.tail@)->0,
    {
        gallery_sized_paths(self.guid.as_str(), self.size.as_str(), self.tail.as_str())
    }
}

impl Comment {
    /// Checks this comment: what is to be stored where it passes, else what
    /// is wrong with it.
    pub fn check(&self, c: &config::Config) -> (r: Result<NewComment, String>)
        ensures
            match comment_fault(*c, self.post, self.author@, self.text@, self.nd@) {
                Some(fault) => r matches Err(e) && e@ == fault,
                None => r matches Ok(n) && n@ == (NewCommentView {
                    post_id: self.post,
                    parent_id: self.parent,
                    status: "new"@,
                    author_name: trimmed(self.author@),
                    author_email: self.email@,
                    content: trimmed(self.text@),
                }),
            },
    {
        crate::blog::types::comment::Comment::store_unapproved_comment(
            c,
            self.post,
            self.parent,
            self.author.as_str(),
            self.email.as_str(),
            self.text.as_str(),
            self.nd.as_str(),
        )
    }
}

impl QueryPage {
    /// The page that this request means, counted from 0.
    pub fn page_index(&self) -> (r: u32)
        ensures
            r == page_index_of(self.p),
    {
        page_index(self.p)
    }
}

impl QuerySearch {
    /// The page that this request means, counted from 0.
    pub fn page_index(&self) -> (r: u32)
        ensures
            r == page_index_of(self.p),
    {
        page_index(self.p)
    }
}

/// What the word `which` names to be loaded again.
pub open spec fn reload_kind_of(which: Seq<char>) -> ReloadKind {
    if which == "comments"@ {
        ReloadKind::Comments
    } else if which == "html"@ {
        ReloadKind::Html
    } else if which == "menus"@ {
        ReloadKind::Menus
    } else if which == "posts"@ {
        ReloadKind::Posts
    } else if which == "redirects"@ {
        ReloadKind::Redirects
    } else if which == "tags"@ {
        ReloadKind::Tags
    } else {
        ReloadKind::Nothing
    }
}

impl ReloadDataRequest {
    /// What this request names to be loaded again.
    pub fn kind(&self) -> (r: ReloadKind)
        ensures
            r == reload_kind_of(self.which@),
    {
        let which = self.which.as_str();
        if same_text(which, "comments") {
            ReloadKind::Comments
        } else if same_text(which, "html") {
            ReloadKind::Html
        } else if same_text(which, "menus") {
            ReloadKind::Menus
        } else if same_text(which, "posts") {
            ReloadKind::Posts
        } else if same_text(which, "redirects") {
            ReloadKind::Redirects
        } else if same_text(which, "tags") {
            ReloadKind::Tags
        } else {
            ReloadKind::Nothing
        }
    }
}

/// Where a plain request for `path` with the query `query` is sent on to:
/// the same path and query on the site's secure address.
pub open spec fn secure_target(c: config::Config, path: Seq<char>, query: Seq<char>) -> Seq<char> {
    site_address(c) + path + (if query.len() > 0 {
        "?"@ + query
    } else {
        Seq::empty()
    })
}

/// Where a plain request for `path` with the query `query` is sent on to.
pub fn forward_to_https(c: &config::Config, path: &str, query: &str) -> (r: String)
    ensures
        r@ == secure_target(*c, path@, query@),
{
    let fqdn = config_get_string(c, "fqdn");
    let mut target = concat3("https://", fqdn.as_str(), path);
    if query.unicode_len() > 0 {
        target = concat3(target.as_str(), "?", query);
        assert(target@ =~= secure_target(*c, path@, query@));
    } else {
        assert(target@ =~= secure_target(*c, path@, query@));
    }
    target
}

/// What robots are told: where the site map is, and to keep out of the
/// admin pages.
pub fn robots(c: &config::Config) -> (r: String)
    ensures
        r@ == "Sitemap: "@ + site_address(*c) + "/sitemap.xml\nUser-agent: *\nDisallow: /admin"@,
{
    let fqdn = config_get_string(c, "fqdn");
    let head = concat2("Sitemap: https://", fqdn.as_str());
    assert(head@ =~= "Sitemap: "@ + site_address(*c)) by {
        reveal_strlit("Sitemap: https://");
        reveal_strlit("Sitemap: ");
        reveal_strlit("https://");
    }
    concat2(head.as_str(), "/sitemap.xml\nUser-agent: *\nDisallow: /admin")
}

} // verus!
