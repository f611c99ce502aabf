use blog_engine::blog::types::snippet::{
    apply_placeholders, substitute_snippets, value_from, Snippet, SnippetVariable,
};

fn figure() -> Snippet {
    Snippet {
        id: 1,
        name: String::from("figure"),
        replacement: String::from("<img src=\"{src}\" alt=\"{alt}\">"),
        variables: vec![
            SnippetVariable { name: String::from("src"), default: String::from("/none.png") },
            SnippetVariable { name: String::from("alt"), default: String::from("picture") },
        ],
    }
}

#[test]
fn replacement_takes_overrides_from_the_tail() {
    let s = figure();
    assert_eq!(
        s.get_replacement("src=\"/a.png\" alt=\"A\""),
        "<img src=\"/a.png\" alt=\"A\">"
    );
}

#[test]
fn replacement_falls_back_to_defaults() {
    let s = figure();
    assert_eq!(s.get_replacement(""), "<img src=\"/none.png\" alt=\"picture\">");
    assert_eq!(s.get_replacement("alt=\"B\""), "<img src=\"/none.png\" alt=\"B\">");
}

#[test]
fn replacement_takes_the_last_override() {
    let s = figure();
    assert_eq!(
        s.get_replacement("alt=\"first\" alt=\"second\""),
        "<img src=\"/none.png\" alt=\"second\">"
    );
}

#[test]
fn placeholder_gives_way_to_its_snippet() {
    let snippets = vec![figure()];
    let body = "<p>before</p>[figure src=\"/x.png\"]<p>after</p>";
    assert_eq!(
        substitute_snippets(body, &snippets),
        "<p>before</p><img src=\"/x.png\" alt=\"picture\"><p>after</p>"
    );
}

#[test]
fn substitution_is_a_no_op_the_second_time() {
    let snippets = vec![figure()];
    let body = "[figure src=\"/x.png\" alt=\"X\"] and [figure]";
    let once = substitute_snippets(body, &snippets);
    assert_eq!(once, "<img src=\"/x.png\" alt=\"X\"> and <img src=\"/none.png\" alt=\"picture\">");
    let twice = substitute_snippets(&once, &snippets);
    assert_eq!(twice, once);
}

#[test]
fn unknown_placeholder_stays() {
    let snippets = vec![figure()];
    let body = "see [other thing] here";
    assert_eq!(substitute_snippets(body, &snippets), body);
}

#[test]
fn body_without_placeholder_stays() {
    let snippets = vec![figure()];
    assert_eq!(substitute_snippets("plain text", &snippets), "plain text");
    assert_eq!(substitute_snippets("", &snippets), "");
}

#[test]
fn placeholders_applied_from_given_matches() {
    let snippets = vec![figure()];
    let found = Some(vec![(
        String::from("[figure alt=\"Z\"]"),
        vec![Some(String::from("figure")), Some(String::from("alt=\"Z\""))],
    )]);
    assert_eq!(
        apply_placeholders("a [figure alt=\"Z\"] b", &found, &snippets),
        "a <img src=\"/none.png\" alt=\"Z\"> b"
    );
    assert_eq!(apply_placeholders("a [figure] b", &None, &snippets), "a [figure] b");
    assert_eq!(apply_placeholders("a [figure] b", &Some(vec![]), &snippets), "a [figure] b");
}

#[test]
fn value_from_takes_last_capture_or_default() {
    let found = Some(vec![
        (String::from("a=\"1\""), vec![Some(String::from("1"))]),
        (String::from("a=\"2\""), vec![Some(String::from("2"))]),
    ]);
    assert_eq!(value_from(&found, "d"), "2");
    assert_eq!(value_from(&Some(vec![]), "d"), "d");
    assert_eq!(value_from(&None, "d"), "d");
    let skipped = Some(vec![
        (String::from("a=\"1\""), vec![Some(String::from("1"))]),
        (String::from("a"), vec![None]),
    ]);
    assert_eq!(value_from(&skipped, "d"), "1");
}
