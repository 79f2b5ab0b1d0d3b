//! Reddit: links to posts, and the one-hop resolution of share links.

use vstd::prelude::*;

use crate::links::{classify, opt_link_view, Link, LinkView, PlatformLink, PlatformLinkView};
use crate::weburl::{parse_url, parsed_url_of};

verus! {

/// `/r/<sub>/comments/<post>`, with `/comment/<comment>` where a comment is named.
pub open spec fn reddit_post_path(sub: Seq<char>, post: Seq<char>, comment: Option<Seq<char>>) -> Seq<
    char,
> {
    match comment {
        Some(c) => sub + "/comments/"@ + post + "/comment/"@ + c,
        None => sub + "/comments/"@ + post,
    }
}

/// The links for a Reddit post: on the current site, then on the old one.
pub open spec fn reddit_alternatives(sub: Seq<char>, post: Seq<char>, comment: Option<Seq<char>>) -> Seq<
    LinkView,
> {
    seq![
        LinkView::Simple("https://www.reddit.com/r/"@ + reddit_post_path(sub, post, comment)),
        LinkView::Simple("https://old.reddit.com/r/"@ + reddit_post_path(sub, post, comment)),
    ]
}

pub open spec fn links_view(v: Seq<Link>) -> Seq<LinkView> {
    v.map_values(|l: Link| l@)
}

pub open spec fn opt_str_view(o: Option<&str>) -> Option<Seq<char>> {
    match o {
        Some(s) => Some(s@),
        None => None,
    }
}

/// Builds the two links for a Reddit post.
pub fn alternative_reddit_links(subreddit: &str, post_id: &str, comment_id: Option<&str>) -> (r: Vec<
    Link,
>)
    ensures
        links_view(r@) == reddit_alternatives(subreddit@, post_id@, opt_str_view(comment_id)),
{
    let mut path = String::from_str(subreddit);
    path.append("/comments/");
    path.append(post_id);
    if let Some(c) = comment_id {
        path.append("/comment/");
        path.append(c);
    }
    let mut current = String::from_str("https://www.reddit.com/r/");
    current.append(path.as_str());
    let mut old = String::from_str("https://old.reddit.com/r/");
    old.append(path.as_str());
    let r = vec![Link::Simple(current), Link::Simple(old)];
    assert(links_view(r@) =~= reddit_alternatives(subreddit@, post_id@, opt_str_view(comment_id)));
    r
}

/// The address to request for a share link.
pub open spec fn share_request_url_of(sub: Seq<char>, share: Seq<char>) -> Seq<char> {
    "https://www.reddit.com/r/"@ + sub + "/s/"@ + share
}

/// What a share link's redirect target resolves to: only a Reddit post is
/// accepted, so that resolution never leads to another request.
pub open spec fn resolved_post(location: Seq<char>) -> Option<PlatformLinkView> {
    match parsed_url_of(location) {
        Some(u) => match classify(u) {
            Some(PlatformLinkView::RedditPost { subreddit, post_id, comment_id }) => Some(
                PlatformLinkView::RedditPost { subreddit, post_id, comment_id },
            ),
            _ => None,
        },
        None => None,
    }
}

/// Takes the redirect target of a share link and keeps it only where it is a Reddit post.
pub fn resolve_reddit_share_link(location: &str) -> (r: Option<PlatformLink>)
    ensures
        opt_link_view(r) == resolved_post(location@),
{
    match parse_url(location) {
        Some(u) => match crate::links::get_platform_link(u) {
            Some(PlatformLink::RedditPost { subreddit, post_id, comment_id }) => Some(
                PlatformLink::RedditPost { subreddit, post_id, comment_id },
            ),
            _ => None,
        },
        None => None,
    }
}

} // verus!
