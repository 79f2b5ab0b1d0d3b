//! Properties of recognition and of alternative links, proved over the
//! functions' mathematical models.

use vstd::prelude::*;

use crate::links::{
    alternatives, classify, is_instagram, is_known_domain, is_reddit, is_twitter, is_youtube,
    is_youtube_short, link_of_candidate, links_of_candidates, request_of, timestamp_of,
    PlatformLinkView,
};
use crate::reddit::resolved_post;
use crate::text::parse_unsigned;
use crate::weburl::{last_query_value, path_of, UrlView};

verus! {

/// The URL uses `http` or `https`.
pub open spec fn web_scheme(u: UrlView) -> bool {
    u.scheme == "https"@ || u.scheme == "http"@
}

/// The URL's domain is one that `pred` accepts.
pub open spec fn on_domain(u: UrlView, pred: spec_fn(Seq<char>) -> bool) -> bool {
    match u.domain {
        Some(d) => pred(d),
        None => false,
    }
}

/// The names that classification compares against are distinct.
proof fn lemma_names_distinct()
    ensures
        forall|d: Seq<char>|
            is_instagram(d) ==> !is_youtube(d) && !is_youtube_short(d) && !is_reddit(d)
                && !is_twitter(d),
        forall|d: Seq<char>|
            is_youtube(d) ==> !is_youtube_short(d) && !is_reddit(d) && !is_twitter(d),
        forall|d: Seq<char>| is_youtube_short(d) ==> !is_reddit(d) && !is_twitter(d),
        forall|d: Seq<char>| is_reddit(d) ==> !is_twitter(d),
        "reel"@ != "p"@,
        "s"@ != "comments"@,
{
    reveal_strlit("instagram.com");
    reveal_strlit("www.instagram.com");
    reveal_strlit("youtube.com");
    reveal_strlit("www.youtube.com");
    reveal_strlit("youtu.be");
    reveal_strlit("reddit.com");
    reveal_strlit("www.reddit.com");
    reveal_strlit("twitter.com");
    reveal_strlit("www.twitter.com");
    reveal_strlit("x.com");
    reveal_strlit("www.x.com");
    reveal_strlit("reel");
    reveal_strlit("p");
    reveal_strlit("r");
    reveal_strlit("s");
    reveal_strlit("comments");
    reveal_strlit("comment");
    reveal_strlit("status");
    assert("reel"@[0] != "p"@[0]);
    assert("s"@[0] != "comments"@[0]);
    assert("instagram.com"@.len() != "youtube.com"@.len());
    assert("instagram.com"@.len() != "www.youtube.com"@.len());
    assert("www.instagram.com"@.len() != "youtube.com"@.len());
    assert("www.instagram.com"@.len() != "www.youtube.com"@.len());
    assert("instagram.com"@.len() != "youtu.be"@.len());
    assert("www.instagram.com"@.len() != "youtu.be"@.len());
    assert("instagram.com"@.len() != "reddit.com"@.len());
    assert("instagram.com"@.len() != "www.reddit.com"@.len());
    assert("www.instagram.com"@.len() != "reddit.com"@.len());
    assert("www.instagram.com"@.len() != "www.reddit.com"@.len());
    assert("instagram.com"@.len() != "twitter.com"@.len());
    assert("instagram.com"@.len() != "www.twitter.com"@.len());
    assert("instagram.com"@.len() != "x.com"@.len());
    assert("instagram.com"@.len() != "www.x.com"@.len());
    assert("www.instagram.com"@.len() != "twitter.com"@.len());
    assert("www.instagram.com"@.len() != "www.twitter.com"@.len());
    assert("www.instagram.com"@.len() != "x.com"@.len());
    assert("www.instagram.com"@.len() != "www.x.com"@.len());
    assert("youtube.com"@.len() != "youtu.be"@.len());
    assert("www.youtube.com"@.len() != "youtu.be"@.len());
    assert("youtube.com"@.len() != "reddit.com"@.len());
    assert("youtube.com"@.len() != "www.reddit.com"@.len());
    assert("www.youtube.com"@.len() != "reddit.com"@.len());
    assert("www.youtube.com"@.len() != "www.reddit.com"@.len());
    assert("youtube.com"@[0] != "twitter.com"@[0]);
    assert("youtube.com"@.len() != "www.twitter.com"@.len());
    assert("youtube.com"@.len() != "x.com"@.len());
    assert("youtube.com"@.len() != "www.x.com"@.len());
    assert("www.youtube.com"@.len() != "twitter.com"@.len());
    assert("www.youtube.com"@[4] != "www.twitter.com"@[4]);
    assert("www.youtube.com"@.len() != "x.com"@.len());
    assert("www.youtube.com"@.len() != "www.x.com"@.len());
    assert("youtu.be"@.len() != "reddit.com"@.len());
    assert("youtu.be"@.len() != "www.reddit.com"@.len());
    assert("youtu.be"@.len() != "twitter.com"@.len());
    assert("youtu.be"@.len() != "www.twitter.com"@.len());
    assert("youtu.be"@.len() != "x.com"@.len());
    assert("youtu.be"@.len() != "www.x.com"@.len());
    assert("reddit.com"@.len() != "twitter.com"@.len());
    assert("reddit.com"@.len() != "www.twitter.com"@.len());
    assert("reddit.com"@.len() != "x.com"@.len());
    assert("reddit.com"@.len() != "www.x.com"@.len());
    assert("www.reddit.com"@.len() != "twitter.com"@.len());
    assert("www.reddit.com"@.len() != "www.twitter.com"@.len());
    assert("www.reddit.com"@.len() != "x.com"@.len());
    assert("www.reddit.com"@.len() != "www.x.com"@.len());
}

/// `/reel/<id>` on Instagram is that reel.
pub proof fn law_instagram_reel(u: UrlView, id: Seq<char>)
    requires
        web_scheme(u),
        on_domain(u, |d| is_instagram(d)),
        path_of(u) == seq!["reel"@, id],
    ensures
        classify(u) == Some(PlatformLinkView::InstagramReel(id)),
{
    lemma_names_distinct();
}

/// `/p/<id>` on Instagram is that post.
pub proof fn law_instagram_post(u: UrlView, id: Seq<char>)
    requires
        web_scheme(u),
        on_domain(u, |d| is_instagram(d)),
        path_of(u) == seq!["p"@, id],
    ensures
        classify(u) == Some(PlatformLinkView::InstagramPost(id)),
{
    lemma_names_distinct();
}

/// A single path segment on Instagram is a profile, whatever it says.
pub proof fn law_instagram_profile(u: UrlView, name: Seq<char>)
    requires
        web_scheme(u),
        on_domain(u, |d| is_instagram(d)),
        path_of(u) == seq![name],
    ensures
        classify(u) == Some(PlatformLinkView::InstagramProfile(name)),
{
    lemma_names_distinct();
}

/// YouTube's watch page (`/watch`, trailing slashes allowed) with a `v` pair
/// is that video, with the start time
/// of the `t` pair where it reads as a number.
pub proof fn law_youtube_watch(u: UrlView, v: Seq<char>)
    requires
        web_scheme(u),
        on_domain(u, |d| is_youtube(d)),
        path_of(u) == seq!["watch"@],
        last_query_value(u.query, "v"@) == Some(v),
    ensures
        classify(u) == Some(PlatformLinkView::YoutubeVideo { video_id: v, timestamp: timestamp_of(u.query) }),
{
    lemma_names_distinct();
}

/// One path segment on the short YouTube domain is that video.
pub proof fn law_youtube_short(u: UrlView, id: Seq<char>)
    requires
        web_scheme(u),
        on_domain(u, |d| is_youtube_short(d)),
        path_of(u) == seq![id],
    ensures
        classify(u) == Some(PlatformLinkView::YoutubeVideo { video_id: id, timestamp: timestamp_of(u.query) }),
{
    lemma_names_distinct();
}

/// A `t` pair that does not read as a number leaves the start time out; one
/// that does gives it.
pub proof fn law_timestamp(q: Seq<(Seq<char>, Seq<char>)>, t: Seq<char>)
    requires
        last_query_value(q, "t"@) == Some(t),
    ensures
        parse_unsigned(t, u32::MAX as nat) is None ==> timestamp_of(q) is None,
        parse_unsigned(t, u32::MAX as nat) matches Some(n) ==> timestamp_of(q) == Some(n as u32),
{
}

/// `/r/<sub>/s/<share>` on Reddit is that share link.
pub proof fn law_reddit_share(u: UrlView, sub: Seq<char>, share: Seq<char>)
    requires
        web_scheme(u),
        on_domain(u, |d| is_reddit(d)),
        path_of(u) == seq!["r"@, sub, "s"@, share],
    ensures
        classify(u) == Some(PlatformLinkView::RedditShareLink { subreddit: sub, share_id: share }),
{
    lemma_names_distinct();
}

/// `/r/<sub>/comments/<post>/comment/<comment>` on Reddit is that comment.
pub proof fn law_reddit_comment(u: UrlView, sub: Seq<char>, post: Seq<char>, comment: Seq<char>)
    requires
        web_scheme(u),
        on_domain(u, |d| is_reddit(d)),
        path_of(u) == seq!["r"@, sub, "comments"@, post, "comment"@, comment],
    ensures
        classify(u) == Some(
            PlatformLinkView::RedditPost { subreddit: sub, post_id: post, comment_id: Some(comment) },
        ),
{
    lemma_names_distinct();
}

/// `/r/<sub>/comments/<post>`, with or without a slug after it, is that post.
pub proof fn law_reddit_post(u: UrlView, sub: Seq<char>, post: Seq<char>, slug: Option<Seq<char>>)
    requires
        web_scheme(u),
        on_domain(u, |d| is_reddit(d)),
        path_of(u) == match slug {
            Some(s) => seq!["r"@, sub, "comments"@, post, s],
            None => seq!["r"@, sub, "comments"@, post],
        },
    ensures
        classify(u) == Some(
            PlatformLinkView::RedditPost { subreddit: sub, post_id: post, comment_id: None },
        ),
{
    lemma_names_distinct();
}

/// `/<user>/status/<id>` on Twitter or X, with a numeric id, is that status.
pub proof fn law_tweet(u: UrlView, user: Seq<char>, id: Seq<char>, n: nat)
    requires
        web_scheme(u),
        on_domain(u, |d| is_twitter(d)),
        path_of(u) == seq![user, "status"@, id],
        parse_unsigned(id, u64::MAX as nat) == Some(n),
    ensures
        classify(u) == Some(PlatformLinkView::Tweet { username: user, status_id: n as u64 }),
{
    lemma_names_distinct();
}

/// Other path shapes on Instagram are not recognised.
pub proof fn law_instagram_unlisted(u: UrlView)
    requires
        on_domain(u, |d| is_instagram(d)),
        path_of(u).len() == 0 || path_of(u).len() >= 3 || (path_of(u).len() == 2
            && path_of(u)[0] != "reel"@ && path_of(u)[0] != "p"@),
    ensures
        classify(u) is None,
{
    lemma_names_distinct();
}

/// YouTube addresses other than a watch page with a `v` pair are not recognised.
pub proof fn law_youtube_unlisted(u: UrlView)
    requires
        on_domain(u, |d| is_youtube(d)),
        path_of(u) != seq!["watch"@] || last_query_value(u.query, "v"@) is None,
    ensures
        classify(u) is None,
{
    lemma_names_distinct();
}

/// On the short YouTube domain, anything but one path segment is not recognised.
pub proof fn law_youtube_short_unlisted(u: UrlView)
    requires
        on_domain(u, |d| is_youtube_short(d)),
        path_of(u).len() != 1,
    ensures
        classify(u) is None,
{
    lemma_names_distinct();
}

/// Reddit paths outside the share, post and comment shapes are not recognised.
pub proof fn law_reddit_unlisted(u: UrlView)
    requires
        on_domain(u, |d| is_reddit(d)),
        ({
            let p = path_of(u);
            p.len() < 4 || p.len() > 6 || p[0] != "r"@ || (p[2] != "comments"@ && !(p.len() == 4
                && p[2] == "s"@)) || (p.len() == 6 && p[4] != "comment"@)
        }),
    ensures
        classify(u) is None,
{
    lemma_names_distinct();
}

/// On Twitter or X, anything but `/<user>/status/<number>` is not recognised.
pub proof fn law_tweet_unlisted(u: UrlView)
    requires
        on_domain(u, |d| is_twitter(d)),
        ({
            let p = path_of(u);
            p.len() != 3 || p[1] != "status"@ || parse_unsigned(p[2], u64::MAX as nat) is None
        }),
    ensures
        classify(u) is None,
{
    lemma_names_distinct();
}

/// Nothing on a domain outside the supported ones, or without a domain, is recognised.
pub proof fn law_unknown_domain(u: UrlView)
    requires
        !on_domain(u, |d| is_known_domain(d)),
    ensures
        classify(u) is None,
{
    lemma_names_distinct();
}

/// Recognised links keep the order of the candidates they came from.
pub proof fn law_links_in_order(a: Seq<Seq<char>>, b: Seq<Seq<char>>)
    ensures
        links_of_candidates(a + b) == links_of_candidates(a) + links_of_candidates(b),
    decreases b.len(),
{
    if b.len() == 0 {
        assert(a + b =~= a);
        assert(links_of_candidates(a) + links_of_candidates(b) =~= links_of_candidates(a));
    } else {
        assert((a + b).drop_last() =~= a + b.drop_last());
        assert((a + b).last() == b.last());
        law_links_in_order(a, b.drop_last());
        match link_of_candidate(b.last()) {
            Some(p) => {
                assert(links_of_candidates(a) + links_of_candidates(b) =~= (links_of_candidates(a)
                    + links_of_candidates(b.drop_last())).push(p));
            },
            None => {},
        }
    }
}

/// The alternatives of earlier links come before those of later links.
pub proof fn law_groups_in_order<A>(a: Seq<Seq<A>>, b: Seq<Seq<A>>)
    ensures
        (a + b).flatten() == a.flatten() + b.flatten(),
    decreases a.len(),
{
    if a.len() == 0 {
        assert(a + b =~= b);
        assert(a.flatten() + b.flatten() =~= b.flatten());
    } else {
        assert((a + b).drop_first() =~= a.drop_first() + b);
        assert((a + b).first() == a.first());
        law_groups_in_order(a.drop_first(), b);
        assert(a.flatten() + b.flatten() =~= a.first() + (a.drop_first().flatten()
            + b.flatten()));
    }
}

/// Recognising a URL depends on the URL alone: the same URL gives the same link.
pub proof fn law_classify_deterministic(u: UrlView, v: UrlView)
    requires
        u == v,
    ensures
        classify(u) == classify(v),
{
}

/// Recognising a candidate string depends on the string alone.
pub proof fn law_candidate_deterministic(a: Seq<char>, b: Seq<char>)
    requires
        a == b,
    ensures
        link_of_candidate(a) == link_of_candidate(b),
{
}

/// A link that needs no request has the same alternatives every time.
pub proof fn law_alternatives_stable(p: PlatformLinkView, l1: Option<Seq<char>>, l2: Option<Seq<char>>)
    requires
        request_of(p) is None,
    ensures
        alternatives(p, l1) == alternatives(p, l2),
{
}

/// A share link whose redirect leads to another share link has no alternatives.
pub proof fn law_share_chain_refused(p: PlatformLinkView, location: Seq<char>)
    requires
        p is RedditShareLink,
        link_of_candidate(location) matches Some(q) && q is RedditShareLink,
    ensures
        alternatives(p, Some(location)) == Seq::<crate::links::LinkView>::empty(),
{
}

/// What a share link resolves to never needs a request of its own: resolution
/// takes one hop at most.
pub proof fn law_single_hop(location: Seq<char>)
    ensures
        resolved_post(location) matches Some(q) ==> request_of(q) is None && q is RedditPost,
{
}

} // verus!
