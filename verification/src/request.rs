//! What the requests to the server are made of: their paths, and what is
//! kept of their answers.

use vstd::prelude::*;
use vstd::string::StringExecFns;

use crate::entity::{CommentId, PageNumber, PaginatedList, Slug};
use crate::home::{SelectedFeed, SelectedFeedView};
use crate::text::{decimal, decimal_text, join_strs, seq_join};

verus! {

/// How many articles a page of a feed holds.
pub const ARTICLES_PER_PAGE: usize = 10;

// ------ comments ------

/// The path of a comment of an article.
pub open spec fn comment_path_text(slug: Seq<char>, comment_id: Seq<char>) -> Seq<char> {
    "articles/"@ + slug + "/comments/"@ + comment_id
}

/// The path to which the request that deletes a comment goes.
pub fn comment_path(slug: &Slug, comment_id: &CommentId) -> (path: String)
    ensures
        path@ == comment_path_text(slug@, comment_id@),
{
    let mut path = String::from_str("articles/");
    path.append(slug.as_str());
    path.append("/comments/");
    path.append(comment_id.as_str());
    path
}

// ------ the home page's feed ------

/// The query parameters of a feed request: how many articles a page holds,
/// where the page starts, and the tag when the feed is a tag's.
pub open spec fn feed_parameters(feed: SelectedFeedView, page: nat) -> Seq<Seq<char>> {
    let limit = "limit="@ + decimal(ARTICLES_PER_PAGE as nat);
    let offset = "offset="@ + decimal(((page - 1) * ARTICLES_PER_PAGE) as nat);
    match feed {
        SelectedFeedView::Tag(tag) => seq![limit, offset, "tag="@ + tag],
        _ => seq![limit, offset],
    }
}

/// The path and query of the request for a page of the home page's feed:
/// the signed-in user's own feed is under `/feed`.
pub open spec fn home_feed_url(feed: SelectedFeedView, page: nat) -> Seq<char> {
    let path = if feed is Your {
        "/feed"@
    } else {
        Seq::<char>::empty()
    };
    "articles"@ + path + "?"@ + seq_join(feed_parameters(feed, page), "&"@)
}

/// The path and query of the request for page `page_number` of the feed
/// `selected_feed`.
pub fn request_url(selected_feed: &SelectedFeed, page_number: PageNumber) -> (url: String)
    requires
        (page_number.spec_number() - 1) * ARTICLES_PER_PAGE <= usize::MAX,
    ensures
        url@ == home_feed_url(selected_feed@, page_number.spec_number()),
{
    let number = page_number.get();
    let mut limit = String::from_str("limit=");
    limit.append(decimal_text(ARTICLES_PER_PAGE).as_str());
    let mut offset = String::from_str("offset=");
    offset.append(decimal_text((number - 1) * ARTICLES_PER_PAGE).as_str());
    let tag_parameter: Option<String> = match selected_feed {
        SelectedFeed::Tag(tag) => {
            let mut parameter = String::from_str("tag=");
            parameter.append(tag.as_str());
            Some(parameter)
        },
        _ => None,
    };
    let mut parameters: Vec<&str> = vec![limit.as_str(), offset.as_str()];
    match &tag_parameter {
        Some(parameter) => parameters.push(parameter.as_str()),
        None => {},
    }
    proof {
        assert(parameters@.map_values(|s: &str| s@) =~= feed_parameters(
            selected_feed@,
            page_number.spec_number(),
        ));
    }
    let mut url = String::from_str("articles");
    match selected_feed {
        SelectedFeed::Your(_) => url.append("/feed"),
        _ => {},
    }
    url.append("?");
    url.append(join_strs(&parameters, "&").as_str());
    proof {
        assert(url@ =~= home_feed_url(selected_feed@, page_number.spec_number()));
    }
    url
}

/// The values of the results that succeeded, in order.
pub open spec fn successes<T, E>(results: Seq<Result<T, E>>) -> Seq<T> {
    results.filter_map(
        |r: Result<T, E>|
            match r {
                Ok(v) => Some(v),
                Err(_) => None,
            },
    )
}

/// The errors of the results that failed, in order.
pub open spec fn failures<T, E>(results: Seq<Result<T, E>>) -> Seq<E> {
    results.filter_map(
        |r: Result<T, E>|
            match r {
                Ok(_) => None,
                Err(e) => Some(e),
            },
    )
}

/// A page of articles made from the server's answer: the articles that could
/// be read, in order, ten to a page, and the number of articles there are in
/// all; beside it, the errors of the articles that could not be read, in
/// order, each to be logged once.
pub fn into_paginated_list<T, E>(articles: Vec<Result<T, E>>, articles_count: usize) -> (result: (PaginatedList<T>, Vec<E>))
    ensures
        result.0.items@ == successes(articles@),
        result.0.per_page == ARTICLES_PER_PAGE,
        result.0.total == articles_count,
        result.1@ == failures(articles@),
{
    let ghost all = articles@;
    let mut items: Vec<T> = Vec::new();
    let mut errors: Vec<E> = Vec::new();
    for article in it: articles
        invariant
            all == it.seq(),
            items@ == successes(all.take(it.index() as int)),
            errors@ == failures(all.take(it.index() as int)),
    {
        let ghost i = it.index() as int;
        proof {
            assert(all.take(i + 1).drop_last() =~= all.take(i));
            assert(all.take(i + 1).last() == article);
        }
        match article {
            Ok(item) => items.push(item),
            Err(error) => errors.push(error),
        }
    }
    proof {
        assert(all.take(all.len() as int) =~= all);
    }
    (PaginatedList { items, per_page: ARTICLES_PER_PAGE, total: articles_count }, errors)
}

} // verus!
