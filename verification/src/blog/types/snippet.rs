//! Snippets: named templates that stand in for placeholders in post bodies.
//!
//! A placeholder is written `[name key="value" ...]`. It is replaced by the
//! template of the snippet called `name`, in which every `{variable}` gives
//! way to the value that the placeholder sets for it, or to the variable's
//! default.

use vstd::prelude::*;
use vstd::string::*;
use crate::pattern::{find_matches, regex_matches, Capture, CaptureView};
use crate::text::{concat2, concat3, replace, replace_all, same_text};

verus! {

/// A variable of a snippet, with the value it has where none is given.
#[derive(Debug, PartialEq)]
pub struct SnippetVariable {
    pub name: String,
    pub default: String,
}

/// What a `SnippetVariable` holds.
pub struct SnippetVariableView {
    pub name: Seq<char>,
    pub default: Seq<char>,
}

impl View for SnippetVariable {
    type V = SnippetVariableView;

    open spec fn view(&self) -> SnippetVariableView {
        SnippetVariableView { name: self.name@, default: self.default@ }
    }
}

impl DeepView for SnippetVariable {
    type V = SnippetVariableView;

    open spec fn deep_view(&self) -> SnippetVariableView {
        self@
    }
}

/// A named template.
#[derive(Debug, PartialEq)]
pub struct Snippet {
    pub id: u16,
    pub name: String,
    pub replacement: String,
    pub variables: Vec<SnippetVariable>,
}

/// What a `Snippet` holds.
pub struct SnippetView {
    pub id: u16,
    pub name: Seq<char>,
    pub replacement: Seq<char>,
    pub variables: Seq<SnippetVariableView>,
}

impl View for Snippet {
    type V = SnippetView;

    open spec fn view(&self) -> SnippetView {
        SnippetView {
            id: self.id,
            name: self.name@,
            replacement: self.replacement@,
            variables: self.variables.deep_view(),
        }
    }
}

impl DeepView for Snippet {
    type V = SnippetView;

    open spec fn deep_view(&self) -> SnippetView {
        self@
    }
}

/// The pattern that finds placeholders: an opening bracket, a key without
/// white space, and a tail that runs to the closing bracket.
pub open spec fn placeholder_pattern() -> Seq<char> {
    "\\[(?P<key>[^\\s^\\]]+)[\\s]*(?P<tail>[^]]*)\\]"@
}

/// The groups of a placeholder: its key and its tail.
pub open spec fn placeholder_groups() -> Seq<Seq<char>> {
    seq!["key"@, "tail"@]
}

/// The pattern that finds, in a placeholder's tail, the value set for the
/// variable `name`.
pub open spec fn override_pattern(name: Seq<char>) -> Seq<char> {
    name + "=\"(?P<capval>[^\"]+)\""@
}

/// The one group of an override: the value.
pub open spec fn override_groups() -> Seq<Seq<char>> {
    seq!["capval"@]
}

/// The value that the last of `found` captured; `default` where none did.
pub open spec fn last_value(found: Seq<CaptureView>, default: Seq<char>) -> Seq<char>
    decreases found.len(),
{
    if found.len() == 0 {
        default
    } else {
        let m = found.last();
        if m.1.len() == 1 && m.1[0] is Some {
            m.1[0]->0
        } else {
            last_value(found.drop_last(), default)
        }
    }
}

/// The value of a variable, given what the search for its override found.
pub open spec fn override_value(found: Option<Seq<CaptureView>>, default: Seq<char>) -> Seq<
    char,
> {
    match found {
        Some(f) => last_value(f, default),
        None => default,
    }
}

/// The value of `var` under the placeholder tail `tail`.
pub open spec fn variable_value(var: SnippetVariableView, tail: Seq<char>) -> Seq<char> {
    override_value(
        regex_matches(override_pattern(var.name), tail, override_groups()),
        var.default,
    )
}

/// The text that marks `name` in a template.
pub open spec fn variable_mark(name: Seq<char>) -> Seq<char> {
    "{"@ + name + "}"@
}

/// `text` with the marks of `vars` replaced, one variable after the other.
pub open spec fn fill(text: Seq<char>, vars: Seq<SnippetVariableView>, tail: Seq<char>) -> Seq<
    char,
>
    decreases vars.len(),
{
    if vars.len() == 0 {
        text
    } else {
        let v = vars.last();
        replace_all(fill(text, vars.drop_last(), tail), variable_mark(v.name), variable_value(v, tail))
    }
}

/// What a placeholder with the tail `tail` gives way to.
pub open spec fn replacement_of(s: SnippetView, tail: Seq<char>) -> Seq<char> {
    fill(s.replacement, s.variables, tail)
}

/// `text` after one placeholder has been handled: every snippet called `key`,
/// in the order of `snippets`, replaces the placeholder's text `whole`.
pub open spec fn apply_match(
    text: Seq<char>,
    whole: Seq<char>,
    key: Seq<char>,
    tail: Seq<char>,
    snippets: Seq<SnippetView>,
) -> Seq<char>
    decreases snippets.len(),
{
    if snippets.len() == 0 {
        text
    } else {
        let s = snippets.last();
        let prev = apply_match(text, whole, key, tail, snippets.drop_last());
        if s.name == key {
            replace_all(prev, whole, replacement_of(s, tail))
        } else {
            prev
        }
    }
}

/// A match that is a placeholder: both its key and its tail were captured.
pub open spec fn is_placeholder(m: CaptureView) -> bool {
    m.1.len() == 2 && m.1[0] is Some && m.1[1] is Some
}

/// `text` after the placeholders `found` have been handled in turn.
pub open spec fn apply_matches(
    text: Seq<char>,
    found: Seq<CaptureView>,
    snippets: Seq<SnippetView>,
) -> Seq<char>
    decreases found.len(),
{
    if found.len() == 0 {
        text
    } else {
        let m = found.last();
        let prev = apply_matches(text, found.drop_last(), snippets);
        if is_placeholder(m) {
            apply_match(prev, m.0, m.1[0]->0, m.1[1]->0, snippets)
        } else {
            prev
        }
    }
}

/// `content` after the search for placeholders gave `found`.
pub open spec fn substituted(
    content: Seq<char>,
    found: Option<Seq<CaptureView>>,
    snippets: Seq<SnippetView>,
) -> Seq<char> {
    match found {
        Some(f) => apply_matches(content, f, snippets),
        None => content,
    }
}

/// `content` with its placeholders replaced by the snippets they name.
pub open spec fn with_snippets(content: Seq<char>, snippets: Seq<SnippetView>) -> Seq<char> {
    substituted(
        content,
        regex_matches(placeholder_pattern(), content, placeholder_groups()),
        snippets,
    )
}

/// A body in which the search finds no placeholder is left as it is,
/// whatever the snippets: substituting a second time changes nothing once
/// the first pass has left no placeholder behind.
pub proof fn lemma_no_placeholder_no_change(content: Seq<char>, snippets: Seq<SnippetView>)
    requires
        regex_matches(placeholder_pattern(), content, placeholder_groups()) == Some(
            Seq::<CaptureView>::empty(),
        ),
    ensures
        with_snippets(content, snippets) == content,
{
}

/// A placeholder that names no snippet leaves the text as it is.
pub proof fn lemma_unknown_key_no_change(
    text: Seq<char>,
    whole: Seq<char>,
    key: Seq<char>,
    tail: Seq<char>,
    snippets: Seq<SnippetView>,
)
    requires
        forall|i: int| 0 <= i < snippets.len() ==> snippets[i].name != key,
    ensures
        apply_match(text, whole, key, tail, snippets) == text,
    decreases snippets.len(),
{
    if snippets.len() > 0 {
        lemma_unknown_key_no_change(text, whole, key, tail, snippets.drop_last());
    }
}

/// The value of a variable with the default `default`, given what the search
/// for its override found: the value captured last, else the default.
pub fn value_from(found: &Option<Vec<Capture>>, default: &str) -> (r: String)
    ensures
        r@ == override_value(found.deep_view(), default@),
{
    let mut value = String::from_str(default);
    match found {
        Some(list) => {
            let ghost all = list.deep_view();
            let mut i: usize = 0;
            while i < list.len()
                invariant
                    i <= list.len(),
                    all == list.deep_view(),
                    value@ == last_value(all.take(i as int), default@),
                decreases list.len() - i,
            {
                let groups = &list[i].1;
                proof {
                    assert(all.take(i + 1).drop_last() =~= all.take(i as int));
                    assert(all.take(i + 1).last() == all[i as int]);
                    assert(all[i as int] == list@[i as int].deep_view());
                    assert(all[i as int].1.len() == groups.len());
                    if groups.len() > 0 {
                        assert(all[i as int].1[0] == groups@[0].deep_view());
                    }
                }
                if groups.len() == 1 {
                    match &groups[0] {
                        Some(v) => {
                            value = v.clone();
                        },
                        None => {},
                    }
                }
                i = i + 1;
            }
            assert(all.take(list.len() as int) =~= all);
        },
        None => {},
    }
    value
}

impl Snippet {
    /// What a placeholder with the tail `tail` gives way to: the template,
    /// with each variable's mark replaced by the value that `tail` sets for
    /// it, or by its default.
    pub fn get_replacement(&self, tail: &str) -> (r: String)
        ensures
            r@ == replacement_of(self@, tail@),
    {
        let mut text = self.replacement.clone();
        let mut groups: Vec<String> = Vec::new();
        groups.push(String::from_str("capval"));
        assert(groups.deep_view() =~= override_groups());
        let ghost vars = self@.variables;
        let mut i: usize = 0;
        while i < self.variables.len()
            invariant
                i <= self.variables.len(),
                vars == self@.variables,
                groups.deep_view() == override_groups(),
                text@ == fill(self@.replacement, vars.take(i as int), tail@),
            decreases self.variables.len() - i,
        {
            let var = &self.variables[i];
            proof {
                assert(vars.take(i + 1).drop_last() =~= vars.take(i as int));
                assert(vars.take(i + 1).last() == var@);
            }
            let pattern = concat2(var.name.as_str(), "=\"(?P<capval>[^\"]+)\"");
            let found = find_matches(pattern.as_str(), tail, &groups);
            let value = value_from(&found, var.default.as_str());
            let mark = concat3("{", var.name.as_str(), "}");
            text = replace(text.as_str(), mark.as_str(), value.as_str());
            i = i + 1;
        }
        assert(vars.take(self.variables.len() as int) =~= vars);
        text
    }
}

/// `text` after one placeholder has been handled.
fn apply_one(text: String, whole: &str, key: &str, tail: &str, snippets: &Vec<Snippet>) -> (r:
    String)
    ensures
        r@ == apply_match(text@, whole@, key@, tail@, snippets.deep_view()),
{
    let ghost all = snippets.deep_view();
    let ghost start = text@;
    let mut out = text;
    let mut i: usize = 0;
    while i < snippets.len()
        invariant
            i <= snippets.len(),
            all == snippets.deep_view(),
            out@ == apply_match(start, whole@, key@, tail@, all.take(i as int)),
        decreases snippets.len() - i,
    {
        let s = &snippets[i];
        proof {
            assert(all.take(i + 1).drop_last() =~= all.take(i as int));
            assert(all.take(i + 1).last() == s@);
        }
        if same_text(s.name.as_str(), key) {
            let replacement = s.get_replacement(tail);
            out = replace(out.as_str(), whole, replacement.as_str());
        }
        i = i + 1;
    }
    assert(all.take(snippets.len() as int) =~= all);
    out
}

/// `content` after the search for placeholders gave `found`: each
/// placeholder, in the order found, is replaced wherever its text stands by
/// what the snippets of its name give for it.
pub fn apply_placeholders(content: &str, found: &Option<Vec<Capture>>, snippets: &Vec<Snippet>) -> (r:
    String)
    ensures
        r@ == substituted(content@, found.deep_view(), snippets.deep_view()),
{
    let mut out = String::from_str(content);
    match found {
        Some(list) => {
            let ghost all = list.deep_view();
            let mut i: usize = 0;
            while i < list.len()
                invariant
                    i <= list.len(),
                    all == list.deep_view(),
                    out@ == apply_matches(content@, all.take(i as int), snippets.deep_view()),
                decreases list.len() - i,
            {
                let whole = &list[i].0;
                let groups = &list[i].1;
                proof {
                    assert(all.take(i + 1).drop_last() =~= all.take(i as int));
                    assert(all.take(i + 1).last() == all[i as int]);
                    assert(all[i as int] == list@[i as int].deep_view());
                    assert(all[i as int].1.len() == groups.len());
                    if groups.len() == 2 {
                        assert(all[i as int].1[0] == groups@[0].deep_view());
                        assert(all[i as int].1[1] == groups@[1].deep_view());
                    }
                }
                if groups.len() == 2 {
                    match (&groups[0], &groups[1]) {
                        (Some(key), Some(tail)) => {
                            out = apply_one(
                                out,
                                whole.as_str(),
                                key.as_str(),
                                tail.as_str(),
                                snippets,
                            );
                        },
                        _ => {},
                    }
                }
                i = i + 1;
            }
            assert(all.take(list.len() as int) =~= all);
        },
        None => {},
    }
    out
}

/// `content` with its placeholders replaced by the snippets they name.
pub fn substitute_snippets(content: &str, snippets: &Vec<Snippet>) -> (r: String)
    ensures
        r@ == with_snippets(content@, snippets.deep_view()),
{
    let mut groups: Vec<String> = Vec::new();
    groups.push(String::from_str("key"));
    groups.push(String::from_str("tail"));
    assert(groups.deep_view() =~= placeholder_groups());
    let found = find_matches(
        "\\[(?P<key>[^\\s^\\]]+)[\\s]*(?P<tail>[^]]*)\\]",
        content,
        &groups,
    );
    apply_placeholders(content, &found, snippets)
}

/// A snippet as a row of the database gives it, its variables as they were
/// decoded, or `None` where their text did not decode.
#[derive(Debug, PartialEq)]
pub struct SnippetRow {
    pub id: u16,
    pub name: String,
    pub replacement: String,
    pub variables: Option<Vec<SnippetVariable>>,
}

impl Snippet {
    /// The snippet that a row holds. A row whose variables did not decode
    /// holds none: the record is passed over.
    pub fn from_sql(row: SnippetRow) -> (r: Option<Snippet>)
        ensures
            r is Some <==> row.variables is Some,
            r matches Some(s) ==> s == (Snippet {
                id: row.id,
                name: row.name,
                replacement: row.replacement,
                variables: row.variables->0,
            }),
    {
        match row.variables {
            Some(variables) => Some(
                Snippet { id: row.id, name: row.name, replacement: row.replacement, variables },
            ),
            None => None,
        }
    }
}

} // verus!
