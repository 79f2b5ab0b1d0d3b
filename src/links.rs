//! Platform links: what a URL is recognised as, and the alternative links for it.

use vstd::prelude::*;

use crate::text::{decimal_of, parse_unsigned, parse_unsigned_max, push_decimal, str_eq};
use crate::reddit::{
    alternative_reddit_links, links_view, opt_str_view, reddit_alternatives,
    resolve_reddit_share_link, resolved_post, share_request_url_of,
};
use crate::weburl::{
    last_query_value, opt_string_view, parse_url, parsed_url_of, path_of, strings_view, ParsedUrl,
    UrlView,
};

verus! {

/// An alternative link, ready for display.
#[derive(Debug, PartialEq, Eq)]
pub enum Link {
    /// A link that the host shows without a preview.
    Simple(String),
    /// A link that the host shows with a rich preview.
    Embed(String),
}

/// The mathematical form of a `Link`.
pub enum LinkView {
    Simple(Seq<char>),
    Embed(Seq<char>),
}

impl View for Link {
    type V = LinkView;

    open spec fn view(&self) -> LinkView {
        match self {
            Link::Simple(s) => LinkView::Simple(s@),
            Link::Embed(s) => LinkView::Embed(s@),
        }
    }
}

/// A recognised resource on one of the supported platforms.
#[derive(Debug, PartialEq, Eq)]
pub enum PlatformLink {
    InstagramReel(String),
    InstagramPost(String),
    InstagramProfile(String),
    YoutubeVideo { video_id: String, timestamp: Option<u32> },
    /// A share link; it names its post only after its redirect is followed.
    RedditShareLink { subreddit: String, share_id: String },
    RedditPost { subreddit: String, post_id: String, comment_id: Option<String> },
    Tweet { username: String, status_id: u64 },
}

/// The mathematical form of a `PlatformLink`.
pub enum PlatformLinkView {
    InstagramReel(Seq<char>),
    InstagramPost(Seq<char>),
    InstagramProfile(Seq<char>),
    YoutubeVideo { video_id: Seq<char>, timestamp: Option<u32> },
    RedditShareLink { subreddit: Seq<char>, share_id: Seq<char> },
    RedditPost { subreddit: Seq<char>, post_id: Seq<char>, comment_id: Option<Seq<char>> },
    Tweet { username: Seq<char>, status_id: u64 },
}

impl View for PlatformLink {
    type V = PlatformLinkView;

    open spec fn view(&self) -> PlatformLinkView {
        match self {
            PlatformLink::InstagramReel(id) => PlatformLinkView::InstagramReel(id@),
            PlatformLink::InstagramPost(id) => PlatformLinkView::InstagramPost(id@),
            PlatformLink::InstagramProfile(name) => PlatformLinkView::InstagramProfile(name@),
            PlatformLink::YoutubeVideo { video_id, timestamp } => PlatformLinkView::YoutubeVideo {
                video_id: video_id@,
                timestamp: *timestamp,
            },
            PlatformLink::RedditShareLink { subreddit, share_id } =>
                PlatformLinkView::RedditShareLink { subreddit: subreddit@, share_id: share_id@ },
            PlatformLink::RedditPost { subreddit, post_id, comment_id } =>
                PlatformLinkView::RedditPost {
                subreddit: subreddit@,
                post_id: post_id@,
                comment_id: match comment_id {
                    Some(c) => Some(c@),
                    None => None,
                },
            },
            PlatformLink::Tweet { username, status_id } => PlatformLinkView::Tweet {
                username: username@,
                status_id: *status_id,
            },
        }
    }
}

pub open spec fn opt_link_view(o: Option<PlatformLink>) -> Option<PlatformLinkView> {
    match o {
        Some(p) => Some(p@),
        None => None,
    }
}

/// The timestamp given by the last `t` query pair, where it reads as a `u32`.
pub open spec fn timestamp_of(q: Seq<(Seq<char>, Seq<char>)>) -> Option<u32> {
    match last_query_value(q, "t"@) {
        Some(v) => match parse_unsigned(v, u32::MAX as nat) {
            Some(n) => Some(n as u32),
            None => None,
        },
        None => None,
    }
}

/// Instagram: `/reel/<id>`, `/p/<id>`, or else `/<username>`.
pub open spec fn instagram_shape(p: Seq<Seq<char>>) -> Option<PlatformLinkView> {
    if p.len() == 2 && p[0] == "reel"@ {
        Some(PlatformLinkView::InstagramReel(p[1]))
    } else if p.len() == 2 && p[0] == "p"@ {
        Some(PlatformLinkView::InstagramPost(p[1]))
    } else if p.len() == 1 {
        Some(PlatformLinkView::InstagramProfile(p[0]))
    } else {
        None
    }
}

/// YouTube's watch page: the last `v` query pair names the video.
pub open spec fn youtube_watch_shape(q: Seq<(Seq<char>, Seq<char>)>) -> Option<PlatformLinkView> {
    match last_query_value(q, "v"@) {
        Some(v) => Some(PlatformLinkView::YoutubeVideo { video_id: v, timestamp: timestamp_of(q) }),
        None => None,
    }
}

/// YouTube's short domain: `/<id>`.
pub open spec fn youtube_short_shape(p: Seq<Seq<char>>, q: Seq<(Seq<char>, Seq<char>)>) -> Option<
    PlatformLinkView,
> {
    if p.len() == 1 {
        Some(PlatformLinkView::YoutubeVideo { video_id: p[0], timestamp: timestamp_of(q) })
    } else {
        None
    }
}

/// Reddit: `/r/<sub>/s/<share>`, `/r/<sub>/comments/<post>/comment/<comment>`,
/// `/r/<sub>/comments/<post>` with an optional slug.
pub open spec fn reddit_shape(p: Seq<Seq<char>>) -> Option<PlatformLinkView> {
    if p.len() == 4 && p[0] == "r"@ && p[2] == "s"@ {
        Some(PlatformLinkView::RedditShareLink { subreddit: p[1], share_id: p[3] })
    } else if p.len() == 6 && p[0] == "r"@ && p[2] == "comments"@ && p[4] == "comment"@ {
        Some(
            PlatformLinkView::RedditPost { subreddit: p[1], post_id: p[3], comment_id: Some(p[5]) },
        )
    } else if (p.len() == 4 || p.len() == 5) && p[0] == "r"@ && p[2] == "comments"@ {
        Some(PlatformLinkView::RedditPost { subreddit: p[1], post_id: p[3], comment_id: None })
    } else {
        None
    }
}

/// Twitter and X: `/<username>/status/<id>` with a numeric id.
pub open spec fn tweet_shape(p: Seq<Seq<char>>) -> Option<PlatformLinkView> {
    if p.len() == 3 && p[1] == "status"@ {
        match parse_unsigned(p[2], u64::MAX as nat) {
            Some(n) => Some(PlatformLinkView::Tweet { username: p[0], status_id: n as u64 }),
            None => None,
        }
    } else {
        None
    }
}

pub open spec fn is_instagram(d: Seq<char>) -> bool {
    d == "instagram.com"@ || d == "www.instagram.com"@
}

pub open spec fn is_youtube(d: Seq<char>) -> bool {
    d == "youtube.com"@ || d == "www.youtube.com"@
}

pub open spec fn is_youtube_short(d: Seq<char>) -> bool {
    d == "youtu.be"@
}

pub open spec fn is_reddit(d: Seq<char>) -> bool {
    d == "reddit.com"@ || d == "www.reddit.com"@
}

pub open spec fn is_twitter(d: Seq<char>) -> bool {
    d == "twitter.com"@ || d == "www.twitter.com"@ || d == "x.com"@ || d == "www.x.com"@
}

/// True for the domains that classification knows.
pub open spec fn is_known_domain(d: Seq<char>) -> bool {
    is_instagram(d) || is_youtube(d) || is_youtube_short(d) || is_reddit(d) || is_twitter(d)
}

/// What a URL is recognised as: first by domain, then by path shape.
pub open spec fn classify(u: UrlView) -> Option<PlatformLinkView> {
    if u.scheme != "https"@ && u.scheme != "http"@ {
        None
    } else {
        match u.domain {
            None => None,
            Some(d) => if is_instagram(d) {
                instagram_shape(path_of(u))
            } else if is_youtube(d) && path_of(u) == seq!["watch"@] {
                youtube_watch_shape(u.query)
            } else if is_youtube_short(d) {
                youtube_short_shape(path_of(u), u.query)
            } else if is_reddit(d) {
                reddit_shape(path_of(u))
            } else if is_twitter(d) {
                tweet_shape(path_of(u))
            } else {
                None
            },
        }
    }
}

fn timestamp_param(url: &ParsedUrl) -> (r: Option<u32>)
    ensures
        r == timestamp_of(url@.query),
{
    match url.query_value("t") {
        Some(v) => match parse_unsigned_max(v.as_str(), u32::MAX as u64) {
            Some(n) => Some(n as u32),
            None => None,
        },
        None => None,
    }
}

fn is_one_of2(d: &str, a: &str, b: &str) -> (r: bool)
    ensures
        r == (d@ == a@ || d@ == b@),
{
    str_eq(d, a) || str_eq(d, b)
}

/// True when the only non-empty path segment is `watch`.
fn is_watch_page(url: &ParsedUrl) -> (r: bool)
    ensures
        r == (path_of(url@) == seq!["watch"@]),
{
    let p = url.path_segments();
    let ghost ps = strings_view(p@);
    if p.len() == 1 && str_eq(p[0].as_str(), "watch") {
        assert(ps =~= seq!["watch"@]);
        true
    } else {
        assert(ps.len() == p@.len());
        assert(p.len() == 1 ==> ps[0] == p@[0]@);
        assert(seq!["watch"@][0] == "watch"@ && seq!["watch"@].len() == 1);
        false
    }
}

/// Recognises a parsed URL as a link of a supported platform.
pub fn get_platform_link(url: ParsedUrl) -> (r: Option<PlatformLink>)
    ensures
        opt_link_view(r) == classify(url@),
{
    if !str_eq(url.scheme.as_str(), "https") && !str_eq(url.scheme.as_str(), "http") {
        return None;
    }
    let d = match &url.domain {
        Some(d) => d.as_str(),
        None => return None,
    };
    if is_one_of2(d, "instagram.com", "www.instagram.com") {
        let p = url.path_segments();
        let ghost ps = strings_view(p@);
        if p.len() == 2 && str_eq(p[0].as_str(), "reel") {
            assert(ps[0] == p@[0]@);
            Some(PlatformLink::InstagramReel(p[1].clone()))
        } else if p.len() == 2 && str_eq(p[0].as_str(), "p") {
            assert(ps[0] == p@[0]@);
            Some(PlatformLink::InstagramPost(p[1].clone()))
        } else if p.len() == 1 {
            Some(PlatformLink::InstagramProfile(p[0].clone()))
        } else {
            assert(ps.len() == p@.len());
            None
        }
    } else if is_one_of2(d, "youtube.com", "www.youtube.com") && is_watch_page(&url) {
        match url.query_value("v") {
            Some(video_id) => Some(
                PlatformLink::YoutubeVideo { video_id, timestamp: timestamp_param(&url) },
            ),
            None => None,
        }
    } else if str_eq(d, "youtu.be") {
        let p = url.path_segments();
        if p.len() == 1 {
            Some(PlatformLink::YoutubeVideo { video_id: p[0].clone(), timestamp: timestamp_param(&url) })
        } else {
            None
        }
    } else if is_one_of2(d, "reddit.com", "www.reddit.com") {
        reddit_link(url.path_segments())
    } else if is_one_of2(d, "twitter.com", "www.twitter.com") || is_one_of2(d, "x.com", "www.x.com") {
        tweet_link(url.path_segments())
    } else {
        None
    }
}

fn reddit_link(p: Vec<String>) -> (r: Option<PlatformLink>)
    ensures
        opt_link_view(r) == reddit_shape(strings_view(p@)),
{
    let ghost ps = strings_view(p@);
    let n = p.len();
    if n < 4 || n > 6 || !str_eq(p[0].as_str(), "r") {
        return None;
    }
    assert(ps[0] == p@[0]@ && ps[2] == p@[2]@);
    if n == 4 && str_eq(p[2].as_str(), "s") {
        return Some(PlatformLink::RedditShareLink { subreddit: p[1].clone(), share_id: p[3].clone() });
    }
    if !str_eq(p[2].as_str(), "comments") {
        return None;
    }
    if n == 6 {
        assert(ps[4] == p@[4]@);
        if str_eq(p[4].as_str(), "comment") {
            Some(
                PlatformLink::RedditPost {
                    subreddit: p[1].clone(),
                    post_id: p[3].clone(),
                    comment_id: Some(p[5].clone()),
                },
            )
        } else {
            None
        }
    } else {
        Some(PlatformLink::RedditPost { subreddit: p[1].clone(), post_id: p[3].clone(), comment_id: None })
    }
}

fn tweet_link(p: Vec<String>) -> (r: Option<PlatformLink>)
    ensures
        opt_link_view(r) == tweet_shape(strings_view(p@)),
{
    let ghost ps = strings_view(p@);
    if p.len() != 3 || !str_eq(p[1].as_str(), "status") {
        assert(p.len() == 3 ==> ps[1] == p@[1]@);
        return None;
    }
    assert(ps[1] == p@[1]@ && ps[2] == p@[2]@);
    match parse_unsigned_max(p[2].as_str(), u64::MAX) {
        Some(n) => Some(PlatformLink::Tweet { username: p[0].clone(), status_id: n }),
        None => None,
    }
}

/// The short YouTube link for a video, with its start time where there is one.
pub open spec fn video_url(id: Seq<char>, timestamp: Option<u32>) -> Seq<char> {
    match timestamp {
        Some(t) => "https://youtu.be/"@ + id + "/?t="@ + decimal_of(t as nat),
        None => "https://youtu.be/"@ + id + "/"@,
    }
}

/// The path of a tweet: `<username>/status/<id>`.
pub open spec fn tweet_path(username: Seq<char>, id: u64) -> Seq<char> {
    username + "/status/"@ + decimal_of(id as nat)
}

/// The alternative links of a platform link, most preferred first. A share link
/// yields links only through `location`, the target its redirect pointed to.
pub open spec fn alternatives(p: PlatformLinkView, location: Option<Seq<char>>) -> Seq<LinkView> {
    match p {
        PlatformLinkView::InstagramReel(id) => seq![
            LinkView::Embed("https://www.ddinstagram.com/reel/"@ + id + "/"@),
            LinkView::Simple("https://www.instagram.com/reel/"@ + id + "/"@),
        ],
        PlatformLinkView::InstagramPost(id) => seq![
            LinkView::Simple("https://www.ddinstagram.com/p/"@ + id + "/"@),
            LinkView::Simple("https://www.instagram.com/p/"@ + id + "/"@),
        ],
        PlatformLinkView::InstagramProfile(name) => seq![
            LinkView::Simple("https://www.instagram.com/"@ + name + "/"@),
        ],
        PlatformLinkView::YoutubeVideo { video_id, timestamp } => seq![
            LinkView::Simple(video_url(video_id, timestamp)),
        ],
        PlatformLinkView::RedditShareLink { .. } => match location {
            Some(l) => match resolved_post(l) {
                Some(PlatformLinkView::RedditPost { subreddit, post_id, comment_id }) =>
                    reddit_alternatives(subreddit, post_id, comment_id),
                _ => Seq::empty(),
            },
            None => Seq::empty(),
        },
        PlatformLinkView::RedditPost { subreddit, post_id, comment_id } => reddit_alternatives(
            subreddit,
            post_id,
            comment_id,
        ),
        PlatformLinkView::Tweet { username, status_id } => seq![
            LinkView::Embed("https://fxtwitter.com/"@ + tweet_path(username, status_id)),
            LinkView::Simple("https://x.com/"@ + tweet_path(username, status_id)),
        ],
    }
}

/// What is requested before a link can give alternatives: the address of a
/// share link, nothing for every other link.
pub open spec fn request_of(p: PlatformLinkView) -> Option<Seq<char>> {
    match p {
        PlatformLinkView::RedditShareLink { subreddit, share_id } => Some(
            share_request_url_of(subreddit, share_id),
        ),
        _ => None,
    }
}

fn join3(a: &str, b: &str, c: &str) -> (r: String)
    ensures
        r@ == a@ + b@ + c@,
{
    let mut r = String::from_str(a);
    r.append(b);
    r.append(c);
    r
}

impl PlatformLink {
    /// The address to request before alternatives can be given: `Some` for a
    /// share link only.
    pub fn share_request_url(&self) -> (r: Option<String>)
        ensures
            opt_string_view(r) == request_of(self@),
    {
        match self {
            PlatformLink::RedditShareLink { subreddit, share_id } => {
                let mut u = String::from_str("https://www.reddit.com/r/");
                u.append(subreddit.as_str());
                u.append("/s/");
                u.append(share_id.as_str());
                Some(u)
            },
            _ => None,
        }
    }

    /// The alternative links, most preferred first. For a share link,
    /// `location` is where its redirect pointed, if anywhere; other links
    /// ignore it.
    pub fn alternative_links(self, location: Option<&str>) -> (r: Vec<Link>)
        ensures
            links_view(r@) == alternatives(self@, opt_str_view(location)),
    {
        match self {
            PlatformLink::InstagramReel(id) => {
                let r = vec![
                    Link::Embed(join3("https://www.ddinstagram.com/reel/", id.as_str(), "/")),
                    Link::Simple(join3("https://www.instagram.com/reel/", id.as_str(), "/")),
                ];
                assert(links_view(r@) =~= alternatives(self@, opt_str_view(location)));
                r
            },
            PlatformLink::InstagramPost(id) => {
                let r = vec![
                    Link::Simple(join3("https://www.ddinstagram.com/p/", id.as_str(), "/")),
                    Link::Simple(join3("https://www.instagram.com/p/", id.as_str(), "/")),
                ];
                assert(links_view(r@) =~= alternatives(self@, opt_str_view(location)));
                r
            },
            PlatformLink::InstagramProfile(name) => {
                let r = vec![Link::Simple(join3("https://www.instagram.com/", name.as_str(), "/"))];
                assert(links_view(r@) =~= alternatives(self@, opt_str_view(location)));
                r
            },
            PlatformLink::YoutubeVideo { video_id, timestamp } => {
                let u = match timestamp {
                    Some(t) => {
                        let mut u = join3("https://youtu.be/", video_id.as_str(), "/?t=");
                        push_decimal(&mut u, t as u64);
                        u
                    },
                    None => join3("https://youtu.be/", video_id.as_str(), "/"),
                };
                let r = vec![Link::Simple(u)];
                assert(links_view(r@) =~= alternatives(self@, opt_str_view(location)));
                r
            },
            PlatformLink::RedditShareLink { .. } => match location {
                Some(l) => match resolve_reddit_share_link(l) {
                    Some(PlatformLink::RedditPost { subreddit, post_id, comment_id }) => {
                        let c = match &comment_id {
                            Some(c) => Some(c.as_str()),
                            None => None,
                        };
                        alternative_reddit_links(subreddit.as_str(), post_id.as_str(), c)
                    },
                    _ => Vec::new(),
                },
                None => Vec::new(),
            },
            PlatformLink::RedditPost { subreddit, post_id, comment_id } => {
                let c = match &comment_id {
                    Some(c) => Some(c.as_str()),
                    None => None,
                };
                alternative_reddit_links(subreddit.as_str(), post_id.as_str(), c)
            },
            PlatformLink::Tweet { username, status_id } => {
                let mut path = String::from_str(username.as_str());
                path.append("/status/");
                push_decimal(&mut path, status_id);
                let mut embed = String::from_str("https://fxtwitter.com/");
                embed.append(path.as_str());
                let mut simple = String::from_str("https://x.com/");
                simple.append(path.as_str());
                let r = vec![Link::Embed(embed), Link::Simple(simple)];
                assert(links_view(r@) =~= alternatives(self@, opt_str_view(location)));
                r
            },
        }
    }
}

/// What linkify's `LinkFinder`, limited to URLs, finds in a text, in order.
pub uninterp spec fn url_candidates_of(text: Seq<char>) -> Seq<Seq<char>>;

/// Relies on linkify's `LinkFinder` with `LinkKind::Url` only: the URL-shaped
/// pieces of the text, in order of appearance, depend on the text alone.
#[verifier::external_body]
fn url_candidates(text: &str) -> (r: Vec<String>)
    ensures
        strings_view(r@) == url_candidates_of(text@),
{
    let mut finder = linkify::LinkFinder::new();
    finder.kinds(&[linkify::LinkKind::Url]);
    finder.links(text).map(|l| l.as_str().to_string()).collect()
}

/// What one candidate string is recognised as, once parsed.
pub open spec fn link_of_candidate(c: Seq<char>) -> Option<PlatformLinkView> {
    match parsed_url_of(c) {
        Some(u) => classify(u),
        None => None,
    }
}

/// The recognised links among the candidates, in the candidates' order.
pub open spec fn links_of_candidates(cs: Seq<Seq<char>>) -> Seq<PlatformLinkView>
    decreases cs.len(),
{
    if cs.len() == 0 {
        Seq::empty()
    } else {
        match link_of_candidate(cs.last()) {
            Some(p) => links_of_candidates(cs.drop_last()).push(p),
            None => links_of_candidates(cs.drop_last()),
        }
    }
}

/// The recognised links of a message, in order of appearance.
pub open spec fn links_in_message(message: Seq<char>) -> Seq<PlatformLinkView> {
    links_of_candidates(url_candidates_of(message))
}

pub open spec fn platform_links_view(v: Seq<PlatformLink>) -> Seq<PlatformLinkView> {
    v.map_values(|p: PlatformLink| p@)
}

/// Parses one string as a URL and recognises it.
pub fn platform_link_from_str(s: &str) -> (r: Option<PlatformLink>)
    ensures
        opt_link_view(r) == link_of_candidate(s@),
{
    match parse_url(s) {
        Some(u) => get_platform_link(u),
        None => None,
    }
}

/// The recognised links among candidate URL strings, in the candidates' order.
pub fn links_from_candidates(cands: &Vec<String>) -> (r: Vec<PlatformLink>)
    ensures
        platform_links_view(r@) == links_of_candidates(strings_view(cands@)),
{
    let mut r: Vec<PlatformLink> = Vec::new();
    let n = cands.len();
    let mut i: usize = 0;
    while i < n
        invariant
            n == cands@.len(),
            i <= n,
            platform_links_view(r@) == links_of_candidates(strings_view(cands@.take(i as int))),
        decreases n - i,
    {
        let ghost before = r@;
        assert(strings_view(cands@.take(i + 1)).drop_last() =~= strings_view(
            cands@.take(i as int),
        ));
        assert(strings_view(cands@.take(i + 1)).last() == cands@[i as int]@);
        match platform_link_from_str(cands[i].as_str()) {
            Some(p) => {
                r.push(p);
                assert(platform_links_view(r@) =~= platform_links_view(before).push(p@));
            },
            None => {},
        }
        i = i + 1;
    }
    assert(cands@.take(n as int) =~= cands@);
    r
}

/// The links of supported platforms in a message, in order of appearance.
pub fn find_platform_links(message: &str) -> (r: Vec<PlatformLink>)
    ensures
        platform_links_view(r@) == links_in_message(message@),
{
    let cands = url_candidates(message);
    links_from_candidates(&cands)
}

} // verus!
