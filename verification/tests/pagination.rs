use blog_engine::blog::Blog;

fn ids(n: u32) -> Vec<u32> {
    (0..n).collect()
}

#[test]
fn pages_of_twenty_five_by_ten() {
    let source = ids(25);
    assert_eq!(Blog::get_pagination_slice(&source, 0, 10), (0..10).collect::<Vec<u32>>());
    assert_eq!(Blog::get_pagination_slice(&source, 1, 10), (10..20).collect::<Vec<u32>>());
    assert_eq!(Blog::get_pagination_slice(&source, 2, 10), (20..25).collect::<Vec<u32>>());
    assert_eq!(Blog::get_pagination_slice(&source, 3, 10), Vec::<u32>::new());
}
