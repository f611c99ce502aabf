//! Regular expressions, by way of the `regex` crate.

use vstd::prelude::*;

verus! {

/// One match of a pattern: the matched text, and what each of the groups
/// asked for has captured in it (`None` for a group that took no part).
pub type Capture = (String, Vec<Option<String>>);

/// What a `Capture` holds.
pub type CaptureView = (Seq<char>, Seq<Option<Seq<char>>>);

/// What the `regex` crate finds when `pattern` is compiled and run over
/// `text`: `None` where the pattern does not compile, else its successive
/// matches from left to right, each with the text it matched and the
/// captures of the groups named in `groups`, in that order.
pub uninterp spec fn regex_matches(
    pattern: Seq<char>,
    text: Seq<char>,
    groups: Seq<Seq<char>>,
) -> Option<Seq<CaptureView>>;

/// Compiles `pattern` with `regex::Regex::new` and walks `text` with
/// `Regex::captures_iter`. Nothing is proved of the result: it is what the
/// `regex` crate returns, copied into plain strings.
#[verifier::external_body]
pub(crate) fn find_matches(pattern: &str, text: &str, groups: &Vec<String>) -> (r: Option<
    Vec<Capture>,
>)
    ensures
        r.deep_view() == regex_matches(pattern@, text@, groups.deep_view()),
{
    match regex::Regex::new(pattern) {
        Ok(re) => Some(
            re.captures_iter(text).map(
                |c|
                    (
                        String::from(&c[0]),
                        groups.iter().map(
                            |g| c.name(g.as_str()).map(|m| String::from(m.as_str())),
                        ).collect(),
                    ),
            ).collect(),
        ),
        Err(_) => None,
    }
}

} // verus!
