//! The gallery of uploaded pictures: where a picture is stored, and which
//! file answers a request for one.
//!
//! Nothing here touches the disk. What is on it the caller finds out and
//! hands over.

use md5::Digest;
use vstd::prelude::*;
use vstd::string::*;
use crate::pattern::{find_matches, regex_matches, Capture, CaptureView};
use crate::text::{
    chars_of,
    concat2,
    concat3,
    contains_text,
    parse_u32,
    parsed_u32,
    same_text,
    string_of,
};
use crate::utils::{
    get_extension_from_filename,
    get_stem_from_filename,
    is_base62,
    is_extension_in,
    weak_random_base62_string,
};

verus! {

/// The directory of the gallery.
pub open spec fn gallery_path() -> Seq<char> {
    "data/gallery"@
}

/// The picture served where the one asked for is not to be had.
pub open spec fn default_picture_path() -> Seq<char> {
    "data/gallery/not_found.png"@
}

/// How often a free file name is looked for before giving up.
pub open spec fn name_attempts() -> nat {
    25
}

/// A picture of the gallery.
#[derive(Debug, PartialEq)]
pub struct UploadedImage {
    pub guid: String,
    pub ext: String,
    pub src: String,
    pub hash: String,
    pub x: u32,
    pub y: u32,
}

/// What an `UploadedImage` holds.
pub struct UploadedImageView {
    pub guid: Seq<char>,
    pub ext: Seq<char>,
    pub src: Seq<char>,
    pub hash: Seq<char>,
    pub x: u32,
    pub y: u32,
}

impl View for UploadedImage {
    type V = UploadedImageView;

    open spec fn view(&self) -> UploadedImageView {
        UploadedImageView {
            guid: self.guid@,
            ext: self.ext@,
            src: self.src@,
            hash: self.hash@,
            x: self.x,
            y: self.y,
        }
    }
}

/// The MD5 digest of `bytes`, as the `md-5` crate computes it, in lower-case
/// hexadecimal digits.
pub uninterp spec fn md5_hex(bytes: Seq<u8>) -> Seq<char>;

/// `Md5::digest` of the `md-5` crate, formatted as hexadecimal digits.
#[verifier::external_body]
fn md5_hex_of(bytes: &Vec<u8>) -> (r: String)
    ensures
        r@ == md5_hex(bytes@),
{
    format!("{:x}", md5::Md5::digest(bytes))
}

/// The path under which an upload with the extension `ext` is stored under
/// the name `name`.
pub open spec fn upload_path(name: Seq<char>, ext: Seq<char>) -> Seq<char> {
    gallery_path() + "/original/"@ + name + "."@ + ext
}

/// `name` is a name as uploads get them: fifteen letters and digits.
pub open spec fn is_upload_name(name: Seq<char>) -> bool {
    name.len() == 15 && forall|i: int| 0 <= i < name.len() ==> is_base62(#[trigger] name[i])
}

/// `taken` found a file at `path`, which is a path as uploads with the
/// extension `ext` get them.
pub open spec fn found_taken<F: Fn(&str) -> bool>(taken: F, path: Seq<char>, ext: Seq<char>) -> bool {
    exists|name: Seq<char>, p: &str|
        is_upload_name(name) && path == upload_path(name, ext) && p@ == path && taken.ensures(
            (p,),
            true,
        )
}

/// `taken` found no file at `path`, which is a path as uploads with the
/// extension `ext` get them.
pub open spec fn found_free<F: Fn(&str) -> bool>(taken: F, path: Seq<char>, ext: Seq<char>) -> bool {
    exists|name: Seq<char>, p: &str|
        is_upload_name(name) && path == upload_path(name, ext) && p@ == path && taken.ensures(
            (p,),
            false,
        )
}

/// As many names as are tried were all taken: `taken` found a file at each
/// of `tried`, paths as uploads with the extension `ext` get them.
pub open spec fn all_taken<F: Fn(&str) -> bool>(taken: F, tried: Seq<Seq<char>>, ext: Seq<char>) -> bool {
    tried.len() == name_attempts() && forall|i: int|
        0 <= i < tried.len() ==> found_taken(taken, #[trigger] tried[i], ext)
}

/// Finds a path to store an upload under, given the extension of its name,
/// if it has one: a random name with that extension, for which `taken` says
/// that no file is there. Fails where there is no extension. Fails too where
/// as many names as are tried were all taken: each of them was asked for,
/// and `taken` found a file at each.
pub fn upload_file_name_for<F: Fn(&str) -> bool>(extension: Option<&str>, taken: F) -> (r: Result<
    String,
    String,
>)
    requires
        forall|p: &str| taken.requires((p,)),
    ensures
        match extension {
            None => r matches Err(e) && e@ == "Could not get extension from filename"@,
            Some(ext) => match r {
                Ok(path) => found_free(taken, path@, ext@),
                Err(e) => e@ == "All file names collide"@ && exists|tried: Seq<Seq<char>>|
                    all_taken(taken, tried, ext@),
            },
        },
{
    let ext: &str = match extension {
        Some(ext) => ext,
        None => {
            return Err(String::from_str("Could not get extension from filename"));
        },
    };
    let ghost mut tried: Seq<Seq<char>> = Seq::empty();
    let mut tries: u32 = 0;
    while tries < 25
        invariant
            tries <= 25,
            extension == Some(ext),
            forall|p: &str| taken.requires((p,)),
            tried.len() == tries,
            forall|i: int|
                0 <= i < tried.len() ==> found_taken(taken, #[trigger] tried[i], ext@),
        decreases 25 - tries,
    {
        let name = weak_random_base62_string(15);
        let head = concat3("data/gallery", "/original/", name.as_str());
        let path_local = concat3(head.as_str(), ".", ext);
        assert(is_upload_name(name@));
        assert(path_local@ == upload_path(name@, ext@));
        let probe: &str = path_local.as_str();
        if !taken(probe) {
            assert(found_free(taken, path_local@, ext@)) by {
                assert(is_upload_name(name@) && path_local@ == upload_path(name@, ext@)
                    && probe@ == path_local@ && taken.ensures((probe,), false));
            }
            return Ok(path_local);
        }
        proof {
            assert(found_taken(taken, path_local@, ext@)) by {
                assert(is_upload_name(name@) && path_local@ == upload_path(name@, ext@)
                    && probe@ == path_local@ && taken.ensures((probe,), true));
            }
            tried = tried.push(path_local@);
        }
        tries = tries + 1;
    }
    assert(all_taken(taken, tried, ext@));
    Err(String::from_str("All file names collide"))
}

/// Finds a path to store the upload `uploaded_name` under: a random name
/// with the extension of the upload, for which `taken` says that no file is
/// there. Which extension the upload has the platform says; what is done
/// with it `upload_file_name_for` says. So a path that is returned carries
/// an extension that stands in the upload's name, and no file was found at
/// it; and a failure is for want of an extension, or because as many names
/// as are tried were all found taken.
pub fn generate_upload_file_name<F: Fn(&str) -> bool>(uploaded_name: &str, taken: F) -> (r: Result<
    String,
    String,
>)
    requires
        forall|p: &str| taken.requires((p,)),
    ensures
        match r {
            Ok(path) => exists|ext: Seq<char>|
                is_extension_in(uploaded_name@, ext) && found_free(taken, path@, ext),
            Err(e) => e@ == "Could not get extension from filename"@ || (e@
                == "All file names collide"@ && exists|ext: Seq<char>, tried: Seq<Seq<char>>|
                is_extension_in(uploaded_name@, ext) && all_taken(taken, tried, ext)),
        },
{
    let extension = get_extension_from_filename(uploaded_name);
    let r = upload_file_name_for(extension, taken);
    proof {
        if extension is Some {
            let ext = extension->0@;
            if r is Ok {
                assert(is_extension_in(uploaded_name@, ext) && found_free(taken, r->Ok_0@, ext));
            } else {
                let tried = choose|tried: Seq<Seq<char>>| all_taken(taken, tried, ext);
                assert(is_extension_in(uploaded_name@, ext) && all_taken(taken, tried, ext));
            }
        }
    }
    r
}

/// What came of reading an uploaded file.
#[derive(Debug, PartialEq)]
pub enum FileRead {
    /// The file could not be opened.
    Missing,
    /// The file could not be read to its end.
    Unreadable,
    /// The bytes of the file.
    Content(Vec<u8>),
}

/// What is known of an upload, given the extension and the stem of its
/// path, what came of reading it and, where it could be opened as a picture,
/// its width and height. What is amiss is told in this order: no extension,
/// no stem, no file, a file that could not be read, a file that is no
/// picture.
pub open spec fn upload_info(
    extension: Option<Seq<char>>,
    stem: Option<Seq<char>>,
    file: FileRead,
    size: Option<(u32, u32)>,
) -> Result<UploadedImageView, Seq<char>> {
    if extension is None {
        Err("Cannot get image extension"@)
    } else if stem is None {
        Err("Cannot get image file stem"@)
    } else {
        match file {
            FileRead::Missing => Err("Image not found when trying to hash"@),
            FileRead::Unreadable => Err("Image hashing error"@),
            FileRead::Content(bytes) => match size {
                None => Err("Cannot open image"@),
                Some(s) => Ok(
                    UploadedImageView {
                        guid: stem->0,
                        ext: extension->0,
                        src: "/gallery/"@ + stem->0 + "/w200/thumb."@ + extension->0,
                        hash: md5_hex(bytes@),
                        x: s.0,
                        y: s.1,
                    },
                ),
            },
        }
    }
}

/// `r` is what `info` stands for.
pub open spec fn tells(r: Result<UploadedImage, String>, info: Result<UploadedImageView, Seq<char>>) -> bool {
    match info {
        Ok(image) => r matches Ok(i) && i@ == image,
        Err(fault) => r matches Err(e) && e@ == fault,
    }
}

/// What is known of an upload, given the extension and the stem of its path:
/// its name, its extension, the address of its thumbnail, the digest of its
/// bytes, and its size.
pub fn upload_info_from(
    extension: Option<&str>,
    stem: Option<&str>,
    file: FileRead,
    size: Option<(u32, u32)>,
) -> (r: Result<UploadedImage, String>)
    ensures
        tells(r, upload_info(extension.deep_view(), stem.deep_view(), file, size)),
{
    let extension = match extension {
        Some(tmp) => tmp,
        None => {
            return Err(String::from_str("Cannot get image extension"));
        },
    };
    let stem = match stem {
        Some(tmp) => tmp,
        None => {
            return Err(String::from_str("Cannot get image file stem"));
        },
    };
    let bytes = match file {
        FileRead::Missing => {
            return Err(String::from_str("Image not found when trying to hash"));
        },
        FileRead::Unreadable => {
            return Err(String::from_str("Image hashing error"));
        },
        FileRead::Content(bytes) => bytes,
    };
    let hash = md5_hex_of(&bytes);
    match size {
        Some((x, y)) => {
            let head = concat3("/gallery/", stem, "/w200/thumb.");
            Ok(
                UploadedImage {
                    guid: String::from_str(stem),
                    ext: String::from_str(extension),
                    src: concat2(head.as_str(), extension),
                    hash,
                    x,
                    y,
                },
            )
        },
        None => Err(String::from_str("Cannot open image")),
    }
}

/// What is known of the upload stored at `local_path`. Which extension and
/// stem the path has the platform says; what is made of them
/// `upload_info_from` says. So the answer is what `upload_info` gives for
/// some extension and some stem that stand in the path.
pub fn uploaded_file_get_info(local_path: &str, file: FileRead, size: Option<(u32, u32)>) -> (r:
    Result<UploadedImage, String>)
    ensures
        exists|extension: Option<Seq<char>>, stem: Option<Seq<char>>|
            (extension matches Some(e) ==> is_extension_in(local_path@, e)) && (stem matches Some(
                s,
            ) ==> contains_text(local_path@, s)) && tells(
                r,
                upload_info(extension, stem, file, size),
            ),
{
    let extension = get_extension_from_filename(local_path);
    let stem = get_stem_from_filename(local_path);
    let r = upload_info_from(extension, stem, file, size);
    proof {
        let e = extension.deep_view();
        let s = stem.deep_view();
        assert((e matches Some(x) ==> is_extension_in(local_path@, x)) && (s matches Some(x)
            ==> contains_text(local_path@, x)) && tells(r, upload_info(e, s, file, size)));
    }
    r
}

/// Whether `pattern` is found somewhere in `text`; not where the pattern is
/// none.
pub open spec fn pattern_found(pattern: Seq<char>, text: Seq<char>) -> bool {
    match regex_matches(pattern, text, Seq::empty()) {
        Some(found) => found.len() > 0,
        None => false,
    }
}

fn is_found(pattern: &str, text: &str) -> (r: bool)
    ensures
        r == pattern_found(pattern@, text@),
{
    let groups: Vec<String> = Vec::new();
    assert(groups.deep_view() =~= Seq::empty());
    match find_matches(pattern, text, &groups) {
        Some(found) => {
            assert(found.deep_view().len() == found.len());
            found.len() > 0
        },
        None => false,
    }
}

/// The pattern that a path into the gallery must hold.
pub open spec fn original_pattern() -> Seq<char> {
    "[A-z0-9.]+"@
}

/// The two places where the picture `path` may lie: the gallery itself, and
/// its originals.
pub struct OriginalPaths {
    pub local: String,
    pub original: String,
}

/// The places where the picture that `path` asks for may lie; none where
/// `path` is no path into the gallery.
pub fn gallery_original_paths(path: &str) -> (r: Option<OriginalPaths>)
    ensures
        r is Some <==> pattern_found(original_pattern(), path@),
        r matches Some(p) ==> p.local@ == gallery_path() + "/"@ + path@ && p.original@
            == gallery_path() + "/original/"@ + path@,
{
    if !is_found("[A-z0-9.]+", path) {
        return None;
    }
    Some(
        OriginalPaths {
            local: concat3("data/gallery", "/", path),
            original: concat3("data/gallery", "/original/", path),
        },
    )
}

/// The file that answers a request for the picture `path`, given whether it
/// lies in the gallery itself and whether among the originals: the first of
/// the two that is there, else the default picture.
pub fn gallery_find_original(path: &str, in_gallery: bool, in_originals: bool) -> (r: String)
    ensures
        r@ == (if !pattern_found(original_pattern(), path@) {
            default_picture_path()
        } else if in_gallery {
            gallery_path() + "/"@ + path@
        } else if in_originals {
            gallery_path() + "/original/"@ + path@
        } else {
            default_picture_path()
        }),
{
    match gallery_original_paths(path) {
        None => String::from_str("data/gallery/not_found.png"),
        Some(paths) => {
            if in_gallery {
                paths.local
            } else if in_originals {
                paths.original
            } else {
                String::from_str("data/gallery/not_found.png")
            }
        },
    }
}

/// The pattern that finds the extension at the end of a request.
pub open spec fn extension_pattern() -> Seq<char> {
    ".(?P<ext>jpg|jpeg|gif|png)$"@
}

/// The pattern that a size must hold: the side, then the pixels.
pub open spec fn size_pattern() -> Seq<char> {
    "[hw][0-9]+"@
}

/// The pattern that the name of a picture must hold.
pub open spec fn guid_pattern() -> Seq<char> {
    "[A-z0-9]+"@
}

/// The extension that the last of `found` captured; none where none did.
pub open spec fn last_extension(found: Seq<CaptureView>) -> Seq<char>
    decreases found.len(),
{
    if found.len() == 0 {
        Seq::empty()
    } else {
        let m = found.last();
        if m.1.len() == 1 && m.1[0] is Some {
            m.1[0]->0
        } else {
            last_extension(found.drop_last())
        }
    }
}

/// The two files that may answer a request for a picture in a size.
pub struct SizedPaths {
    /// The picture in the size asked for.
    pub resized: String,
    /// The picture as it was uploaded.
    pub original: String,
    /// The extension of both.
    pub extension: String,
}

/// What a `SizedPaths` holds.
pub struct SizedPathsView {
    pub resized: Seq<char>,
    pub original: Seq<char>,
    pub extension: Seq<char>,
}

impl View for SizedPaths {
    type V = SizedPathsView;

    open spec fn view(&self) -> SizedPathsView {
        SizedPathsView {
            resized: self.resized@,
            original: self.original@,
            extension: self.extension@,
        }
    }
}

/// The files that may answer a request for the picture `guid` in the size
/// `size`, where `tail` ends in the extension; none where the request is
/// not well formed.
pub open spec fn sized_paths(guid: Seq<char>, size: Seq<char>, tail: Seq<char>) -> Option<
    SizedPathsView,
> {
    match regex_matches(extension_pattern(), tail, seq!["ext"@]) {
        None => None,
        Some(found) => if !pattern_found(size_pattern(), size) || !pattern_found(
            guid_pattern(),
            guid,
        ) {
            None
        } else {
            let ext = last_extension(found);
            Some(
                SizedPathsView {
                    resized: gallery_path() + "/"@ + size + "/"@ + guid + "."@ + ext,
                    original: gallery_path() + "/original/"@ + guid + "."@ + ext,
                    extension: ext,
                },
            )
        },
    }
}

fn extension_from(found: &Vec<Capture>) -> (r: String)
    ensures
        r@ == last_extension(found.deep_view()),
{
    let ghost all = found.deep_view();
    let mut extension = String::new();
    let mut i: usize = 0;
    while i < found.len()
        invariant
            i <= found.len(),
            all == found.deep_view(),
            extension@ == last_extension(all.take(i as int)),
        decreases found.len() - i,
    {
        let groups = &found[i].1;
        proof {
            assert(all.take(i + 1).drop_last() =~= all.take(i as int));
            assert(all.take(i + 1).last() == all[i as int]);
            assert(all[i as int] == found@[i as int].deep_view());
            assert(all[i as int].1.len() == groups.len());
            if groups.len() > 0 {
                assert(all[i as int].1[0] == groups@[0].deep_view());
            }
        }
        if groups.len() == 1 {
            match &groups[0] {
                Some(v) => {
                    extension = v.clone();
                },
                None => {},
            }
        }
        i = i + 1;
    }
    assert(all.take(found.len() as int) =~= all);
    extension
}

/// The files that may answer a request for the picture `guid` in the size
/// `size`, where `tail` ends in the extension; none where the request is
/// not well formed.
pub fn gallery_sized_paths(guid: &str, size: &str, tail: &str) -> (r: Option<SizedPaths>)
    ensures
        r is Some <==> sized_paths(guid@, size@, tail@) is Some,
        r matches Some(p) ==> p@ == sized_paths(guid@, size@, tail@)->0,
{
    let mut groups: Vec<String> = Vec::new();
    groups.push(String::from_str("ext"));
    assert(groups.deep_view() =~= seq!["ext"@]);
    let extension = match find_matches(".(?P<ext>jpg|jpeg|gif|png)$", tail, &groups) {
        Some(found) => extension_from(&found),
        None => {
            return None;
        },
    };
    if !is_found("[hw][0-9]+", size) {
        return None;
    }
    if !is_found("[A-z0-9]+", guid) {
        return None;
    }
    let dir = concat3("data/gallery", "/", size);
    let stem = concat3(dir.as_str(), "/", guid);
    let resized = concat3(stem.as_str(), ".", extension.as_str());
    let head = concat3("data/gallery", "/original/", guid);
    let original = concat3(head.as_str(), ".", extension.as_str());
    Some(SizedPaths { resized, original, extension })
}

/// What the disk holds for a request for a picture in a size.
#[derive(Debug, PartialEq, Eq, Clone, Copy)]
pub enum SizedFound {
    /// The picture is there in the size asked for.
    Resized,
    /// Only the original was there, and it has now been resized.
    ResizedNow,
    /// Only the original is there, and it could not be resized.
    OriginalOnly,
    /// Neither is there.
    Neither,
}

/// The file that answers a request for the picture `guid` in the size
/// `size`, given what the disk holds: the picture in that size where it is
/// there or could be made, else the original, else the default picture.
pub fn gallery_find_file(guid: &str, size: &str, tail: &str, found: SizedFound) -> (r: String)
    ensures
        r@ == (match sized_paths(guid@, size@, tail@) {
            None => default_picture_path(),
            Some(p) => match found {
                SizedFound::Resized => p.resized,
                SizedFound::ResizedNow => p.resized,
                SizedFound::OriginalOnly => p.original,
                SizedFound::Neither => default_picture_path(),
            },
        }),
{
    match gallery_sized_paths(guid, size, tail) {
        None => String::from_str("data/gallery/not_found.png"),
        Some(paths) => match found {
            SizedFound::Resized => paths.resized,
            SizedFound::ResizedNow => paths.resized,
            SizedFound::OriginalOnly => paths.original,
            SizedFound::Neither => String::from_str("data/gallery/not_found.png"),
        },
    }
}

/// The side by which a picture is scaled.
#[derive(Debug, PartialEq, Eq, Clone, Copy)]
pub enum Side {
    Height,
    Width,
    /// Both: the picture is made square.
    Both,
}

/// A size as a request gives it: a side and a number of pixels.
#[derive(Debug, PartialEq, Eq, Clone, Copy)]
pub struct SizeRequest {
    pub side: Side,
    pub pixels: u32,
}

/// The smallest number of pixels that is not accepted from below, and the
/// largest that is accepted.
pub open spec fn pixel_bounds() -> (u32, u32) {
    (25, 2000)
}

/// What the size `size` asks for: the side by its first character, the
/// pixels by the rest. None where there is no first character, the rest is
/// no number, or the number is out of bounds.
pub open spec fn size_request(size: Seq<char>) -> Option<SizeRequest> {
    if size.len() == 0 {
        None
    } else {
        match parsed_u32(size.skip(1)) {
            Some(pixels) => if pixels <= pixel_bounds().0 || pixels > pixel_bounds().1 {
                None
            } else {
                Some(
                    SizeRequest {
                        side: if size[0] == 'h' {
                            Side::Height
                        } else if size[0] == 'w' {
                            Side::Width
                        } else {
                            Side::Both
                        },
                        pixels,
                    },
                )
            },
            None => None,
        }
    }
}

/// What the size `size` asks for.
pub fn parse_size_request(size: &str) -> (r: Option<SizeRequest>)
    ensures
        r == size_request(size@),
{
    let v = chars_of(size);
    if v.len() == 0 {
        return None;
    }
    let mut digits: Vec<char> = Vec::new();
    let mut i: usize = 1;
    while i < v.len()
        invariant
            1 <= i <= v.len(),
            digits@ == v@.subrange(1, i as int),
        decreases v.len() - i,
    {
        digits.push(v[i]);
        i = i + 1;
        assert(digits@ =~= v@.subrange(1, i as int));
    }
    assert(v@.subrange(1, v.len() as int) =~= v@.skip(1));
    let rest = string_of(&digits);
    match parse_u32(rest.as_str()) {
        Some(pixels) => {
            if pixels <= 25 || pixels > 2000 {
                return None;
            }
            let side = if v[0] == 'h' {
                Side::Height
            } else if v[0] == 'w' {
                Side::Width
            } else {
                Side::Both
            };
            Some(SizeRequest { side, pixels })
        },
        None => None,
    }
}

/// Whether a picture of `width` by `height` can be brought to `new_width` by
/// `new_height` without being enlarged.
pub fn fits_without_upscaling(new_width: u32, new_height: u32, width: u32, height: u32) -> (r:
    bool)
    ensures
        r == (new_width <= width && new_height <= height),
{
    !(new_width > width || new_height > height)
}

/// The formats in which a resized picture is written.
#[derive(Debug, PartialEq, Eq, Clone, Copy)]
pub enum PictureFormat {
    Bmp,
    Gif,
    Png,
    Jpeg,
}

/// The format in which a picture with the extension `extension` is written:
/// JPEG where the extension names no other.
pub fn picture_format(extension: &str) -> (r: PictureFormat)
    ensures
        r == (if extension@ == "bmp"@ {
            PictureFormat::Bmp
        } else if extension@ == "gif"@ {
            PictureFormat::Gif
        } else if extension@ == "png"@ {
            PictureFormat::Png
        } else {
            PictureFormat::Jpeg
        }),
{
    if same_text(extension, "bmp") {
        PictureFormat::Bmp
    } else if same_text(extension, "gif") {
        PictureFormat::Gif
    } else if same_text(extension, "png") {
        PictureFormat::Png
    } else {
        PictureFormat::Jpeg
    }
}

} // verus!
