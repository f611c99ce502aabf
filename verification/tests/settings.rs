use blog_engine::config::{
    config_get_count, config_get_i64, config_get_seconds, config_get_string, is_plain_key,
};

#[test]
fn missing_settings_read_as_empty_or_zero() {
    let c = config::Config::default();
    assert_eq!(config_get_string(&c, "fqdn"), "");
    assert_eq!(config_get_i64(&c, "posts_per_page"), 0);
    assert_eq!(config_get_seconds(&c, "x"), 0);
    assert_eq!(config_get_count(&c, "x"), 0);
}

#[test]
fn settings_are_read_by_key() {
    let mut c = config::Config::default();
    c.set("fqdn", "example.org").unwrap();
    c.set("posts_per_page", 10i64).unwrap();
    assert_eq!(config_get_string(&c, "fqdn"), "example.org");
    assert_eq!(config_get_i64(&c, "posts_per_page"), 10);
    assert_eq!(config_get_count(&c, "posts_per_page"), 10);
    assert_eq!(config_get_seconds(&c, "posts_per_page"), 10);
    // an integer reads as a string too
    assert_eq!(config_get_string(&c, "posts_per_page"), "10");
    // a string that is no number reads as zero
    assert_eq!(config_get_i64(&c, "fqdn"), 0);
}

#[test]
fn counts_and_seconds_are_clamped() {
    let mut c = config::Config::default();
    c.set("neg", -3i64).unwrap();
    c.set("big", 5_000_000_000i64).unwrap();
    assert_eq!(config_get_i64(&c, "neg"), -3);
    assert_eq!(config_get_seconds(&c, "neg"), 0);
    assert_eq!(config_get_count(&c, "neg"), 0);
    assert_eq!(config_get_seconds(&c, "big"), 5_000_000_000);
    assert_eq!(config_get_count(&c, "big"), u32::MAX);
}

#[test]
fn keys_that_count_into_a_list_read_as_missing() {
    let mut c = config::Config::default();
    c.set("a", vec![1i64, 2i64]).unwrap();
    c.set("plain", "x").unwrap();
    // from the end of the list, and beyond its start
    assert_eq!(config_get_string(&c, "a[-3]"), "");
    assert_eq!(config_get_i64(&c, "a[-3]"), 0);
    assert_eq!(config_get_seconds(&c, "a[-9223372036854775808]"), 0);
    assert_eq!(config_get_count(&c, "a[-1]"), 0);
    // from its start too: no key with a bracket is looked up
    assert_eq!(config_get_i64(&c, "a[0]"), 0);
    assert_eq!(config_get_string(&c, "a[0]"), "");
    assert_eq!(config_get_string(&c, "["), "");
    assert_eq!(config_get_string(&c, "plain"), "x");
    assert!(is_plain_key("cached_tag_1"));
    assert!(is_plain_key(""));
    assert!(!is_plain_key("a[1]"));
    assert!(!is_plain_key("a]["));
}
