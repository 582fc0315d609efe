use conduit::entity::{CommentId, PageNumber, Slug, Tag, Username, Viewer};
use conduit::home::SelectedFeed;
use conduit::request::{comment_path, into_paginated_list, request_url, ARTICLES_PER_PAGE};

fn viewer() -> Viewer {
    Viewer { username: Username::from("jake".to_string()), auth_token: "token".to_string() }
}

#[test]
fn global_feed_first_page() {
    assert_eq!(request_url(&SelectedFeed::Global, PageNumber::default()), "articles?limit=10&offset=0");
}

#[test]
fn your_feed_third_page() {
    let page = PageNumber::new(3).unwrap();
    assert_eq!(request_url(&SelectedFeed::Your(viewer()), page), "articles/feed?limit=10&offset=20");
}

#[test]
fn tag_feed_second_page() {
    let page = PageNumber::new(2).unwrap();
    let feed = SelectedFeed::Tag(Tag::from("rust".to_string()));
    assert_eq!(request_url(&feed, page), "articles?limit=10&offset=10&tag=rust");
}

#[test]
fn page_numbers_start_at_one() {
    assert!(PageNumber::new(0).is_none());
    assert_eq!(PageNumber::new(5).unwrap().get(), 5);
    assert_eq!(PageNumber::default().get(), 1);
}

#[test]
fn comment_paths() {
    let slug = Slug::from("how-to".to_string());
    let id = CommentId::from("42".to_string());
    assert_eq!(comment_path(&slug, &id), "articles/how-to/comments/42");
}

#[test]
fn unreadable_articles_are_left_out() {
    let decoded: Vec<Result<u32, String>> = vec![Ok(1), Err("bad".to_string()), Ok(3), Err("worse".to_string())];
    let (list, errors) = into_paginated_list(decoded, 57);
    assert_eq!(errors, vec!["bad".to_string(), "worse".to_string()]);
    assert_eq!(list.items, vec![1, 3]);
    assert_eq!(list.per_page, ARTICLES_PER_PAGE);
    assert_eq!(list.per_page, 10);
    assert_eq!(list.total, 57);
}
