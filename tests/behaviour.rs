use altlinks::commands::concat_alternatives;
use altlinks::{
    alternative_reddit_links, find_platform_links, links_from_candidates, platform_link_from_str,
    resolve_reddit_share_link, Link, MsgCommand, PlatformLink, SlashCommand,
};

fn simple(s: &str) -> Link {
    Link::Simple(s.to_string())
}

fn embed(s: &str) -> Link {
    Link::Embed(s.to_string())
}

#[test]
fn reel_scenario() {
    let link = platform_link_from_str("https://www.instagram.com/reel/ABC123/").unwrap();
    assert_eq!(link, PlatformLink::InstagramReel("ABC123".to_string()));
    assert_eq!(
        link.alternative_links(None),
        vec![
            embed("https://www.ddinstagram.com/reel/ABC123/"),
            simple("https://www.instagram.com/reel/ABC123/"),
        ]
    );
}

#[test]
fn youtube_watch_scenario() {
    let link = platform_link_from_str("https://www.youtube.com/watch?v=XYZ&t=90").unwrap();
    assert_eq!(
        link,
        PlatformLink::YoutubeVideo { video_id: "XYZ".to_string(), timestamp: Some(90) }
    );
    assert_eq!(link.alternative_links(None), vec![simple("https://youtu.be/XYZ/?t=90")]);
}

#[test]
fn tweet_scenario() {
    let link = platform_link_from_str("https://x.com/alice/status/42").unwrap();
    assert_eq!(link, PlatformLink::Tweet { username: "alice".to_string(), status_id: 42 });
    assert_eq!(
        link.alternative_links(None),
        vec![
            embed("https://fxtwitter.com/alice/status/42"),
            simple("https://x.com/alice/status/42"),
        ]
    );
}

#[test]
fn reddit_comment_scenario() {
    let link =
        platform_link_from_str("https://www.reddit.com/r/foo/comments/bar/comment/baz/").unwrap();
    assert_eq!(
        link,
        PlatformLink::RedditPost {
            subreddit: "foo".to_string(),
            post_id: "bar".to_string(),
            comment_id: Some("baz".to_string()),
        }
    );
    assert_eq!(
        link.alternative_links(None),
        vec![
            simple("https://www.reddit.com/r/foo/comments/bar/comment/baz"),
            simple("https://old.reddit.com/r/foo/comments/bar/comment/baz"),
        ]
    );
}

#[test]
fn nothing_recognisable_gives_nothing() {
    let message = "see https://example.com/reel/ABC and ftp://www.instagram.com/reel/X plus text";
    let links = find_platform_links(message);
    assert!(links.is_empty());
    let groups: Vec<Vec<Link>> = links.into_iter().map(|l| l.alternative_links(None)).collect();
    assert_eq!(
        MsgCommand.reply(groups),
        Err("Provided links are not supported :(".to_string())
    );
}

#[test]
fn instagram_post_and_profile_links() {
    let post = platform_link_from_str("https://instagram.com/p/QQ/").unwrap();
    assert_eq!(
        post.alternative_links(None),
        vec![
            simple("https://www.ddinstagram.com/p/QQ/"),
            simple("https://www.instagram.com/p/QQ/"),
        ]
    );
    let profile = platform_link_from_str("https://www.instagram.com/someone/").unwrap();
    assert_eq!(profile, PlatformLink::InstagramProfile("someone".to_string()));
    assert_eq!(profile.alternative_links(None), vec![simple("https://www.instagram.com/someone/")]);
}

#[test]
fn youtube_short_and_untimed_links() {
    let link = platform_link_from_str("https://youtu.be/abc").unwrap();
    assert_eq!(link, PlatformLink::YoutubeVideo { video_id: "abc".to_string(), timestamp: None });
    assert_eq!(link.alternative_links(None), vec![simple("https://youtu.be/abc/")]);
    let timed = platform_link_from_str("https://youtu.be/abc/?t=0").unwrap();
    assert_eq!(timed.alternative_links(None), vec![simple("https://youtu.be/abc/?t=0")]);
}

#[test]
fn unparseable_timestamp_is_left_out() {
    for t in ["90s", "-5", "", "4294967296", "1 2"] {
        let url = format!("https://www.youtube.com/watch?v=V&t={t}");
        assert_eq!(
            platform_link_from_str(&url),
            Some(PlatformLink::YoutubeVideo { video_id: "V".to_string(), timestamp: None }),
            "{url}"
        );
    }
    assert_eq!(
        platform_link_from_str("https://youtube.com/watch?t=%2B7&v=V"),
        Some(PlatformLink::YoutubeVideo { video_id: "V".to_string(), timestamp: Some(7) })
    );
    assert_eq!(
        platform_link_from_str("https://youtube.com/watch?v=V&t=4294967295"),
        Some(PlatformLink::YoutubeVideo { video_id: "V".to_string(), timestamp: Some(u32::MAX) })
    );
}

#[test]
fn watch_page_with_trailing_slash() {
    assert_eq!(
        platform_link_from_str("https://www.youtube.com/watch/?v=ABCD"),
        Some(PlatformLink::YoutubeVideo { video_id: "ABCD".to_string(), timestamp: None })
    );
    assert_eq!(platform_link_from_str("https://www.youtube.com/watch/more?v=ABCD"), None);
}

#[test]
fn last_query_pair_wins() {
    assert_eq!(
        platform_link_from_str("https://youtube.com/watch?v=A&t=5&v=B&t=x"),
        Some(PlatformLink::YoutubeVideo { video_id: "B".to_string(), timestamp: None })
    );
}

#[test]
fn status_id_must_be_a_u64() {
    assert_eq!(platform_link_from_str("https://twitter.com/bob/status/abc"), None);
    assert_eq!(platform_link_from_str("https://x.com/bob/status/18446744073709551616"), None);
    assert_eq!(
        platform_link_from_str("https://www.x.com/bob/status/18446744073709551615"),
        Some(PlatformLink::Tweet { username: "bob".to_string(), status_id: u64::MAX })
    );
}

#[test]
fn unlisted_shapes_are_not_recognised() {
    for url in [
        "https://www.instagram.com/",
        "https://www.instagram.com/a/b/c",
        "https://www.instagram.com/stories/x",
        "https://www.youtube.com/channel?v=ABCD",
        "https://www.youtube.com/watch?t=3",
        "https://youtu.be/",
        "https://youtu.be/a/b",
        "https://reddit.com/r/foo",
        "https://reddit.com/r/foo/comments",
        "https://reddit.com/r/foo/comments/bar/other/baz",
        "https://reddit.com/r/foo/comments/a/b/c/d",
        "https://reddit.com/u/foo/comments/bar",
        "https://reddit.com/r/foo/s/bar/more",
        "https://x.com/bob",
        "https://x.com/bob/likes/1",
        "https://x.com/bob/status/1/photo",
    ] {
        assert_eq!(platform_link_from_str(url), None, "{url}");
    }
}

#[test]
fn unknown_domains_and_schemes_are_not_recognised() {
    for url in [
        "https://example.com/reel/ABC",
        "https://ddinstagram.com/reel/ABC",
        "https://m.youtube.com/watch?v=X",
        "https://old.reddit.com/r/a/comments/b",
        "ftp://instagram.com/reel/ABC",
        "https://127.0.0.1/reel/ABC",
        "not a url",
    ] {
        assert_eq!(platform_link_from_str(url), None, "{url}");
    }
}

#[test]
fn trailing_and_doubled_slashes_are_ignored() {
    assert_eq!(
        platform_link_from_str("https://www.instagram.com//reel//ID//"),
        Some(PlatformLink::InstagramReel("ID".to_string()))
    );
}

#[test]
fn reddit_post_without_comment() {
    let link = platform_link_from_str("https://reddit.com/r/foo/comments/bar/some_slug/").unwrap();
    assert_eq!(
        link,
        PlatformLink::RedditPost {
            subreddit: "foo".to_string(),
            post_id: "bar".to_string(),
            comment_id: None,
        }
    );
    assert_eq!(
        link.alternative_links(None),
        vec![
            simple("https://www.reddit.com/r/foo/comments/bar"),
            simple("https://old.reddit.com/r/foo/comments/bar"),
        ]
    );
}

#[test]
fn alternative_reddit_links_with_and_without_comment() {
    assert_eq!(
        alternative_reddit_links("s", "p", Some("c")),
        vec![
            simple("https://www.reddit.com/r/s/comments/p/comment/c"),
            simple("https://old.reddit.com/r/s/comments/p/comment/c"),
        ]
    );
    assert_eq!(
        alternative_reddit_links("s", "p", None),
        vec![
            simple("https://www.reddit.com/r/s/comments/p"),
            simple("https://old.reddit.com/r/s/comments/p"),
        ]
    );
}

#[test]
fn share_link_is_resolved_once() {
    let link = platform_link_from_str("https://www.reddit.com/r/foo/s/SHARE").unwrap();
    assert_eq!(
        link,
        PlatformLink::RedditShareLink { subreddit: "foo".to_string(), share_id: "SHARE".to_string() }
    );
    assert_eq!(
        link.share_request_url(),
        Some("https://www.reddit.com/r/foo/s/SHARE".to_string())
    );
    let target = "https://www.reddit.com/r/foo/comments/p1/title/?share_id=z";
    assert_eq!(
        link.alternative_links(Some(target)),
        vec![
            simple("https://www.reddit.com/r/foo/comments/p1"),
            simple("https://old.reddit.com/r/foo/comments/p1"),
        ]
    );
}

#[test]
fn share_link_to_share_link_gives_nothing() {
    let chained = "https://www.reddit.com/r/other/s/NEXT";
    assert_eq!(resolve_reddit_share_link(chained), None);
    let link = PlatformLink::RedditShareLink {
        subreddit: "foo".to_string(),
        share_id: "SHARE".to_string(),
    };
    assert!(link.alternative_links(Some(chained)).is_empty());
    let same = PlatformLink::RedditShareLink {
        subreddit: "foo".to_string(),
        share_id: "SHARE".to_string(),
    };
    assert!(same.alternative_links(Some("https://www.reddit.com/r/foo/s/SHARE")).is_empty());
}

#[test]
fn share_link_without_usable_target_gives_nothing() {
    let make = || PlatformLink::RedditShareLink {
        subreddit: "foo".to_string(),
        share_id: "S".to_string(),
    };
    assert!(make().alternative_links(None).is_empty());
    assert!(make().alternative_links(Some("::garbage")).is_empty());
    assert!(make().alternative_links(Some("https://www.instagram.com/reel/X/")).is_empty());
    assert_eq!(
        resolve_reddit_share_link("https://www.reddit.com/r/a/comments/b/comment/c"),
        Some(PlatformLink::RedditPost {
            subreddit: "a".to_string(),
            post_id: "b".to_string(),
            comment_id: Some("c".to_string()),
        })
    );
}

#[test]
fn only_share_links_need_a_request() {
    let reel = PlatformLink::InstagramReel("R".to_string());
    assert_eq!(reel.share_request_url(), None);
    let post = platform_link_from_str("https://reddit.com/r/a/comments/b").unwrap();
    assert_eq!(post.share_request_url(), None);
}

#[test]
fn classification_is_repeatable() {
    let url = "https://www.youtube.com/watch?v=AAA&t=12";
    let first = platform_link_from_str(url).unwrap();
    let second = platform_link_from_str(url).unwrap();
    assert_eq!(first, second);
    assert_eq!(first.alternative_links(None), second.alternative_links(Some("ignored")));
}

#[test]
fn links_keep_message_order() {
    let message = "first https://x.com/a/status/1 then https://youtu.be/v then \
                   https://www.instagram.com/p/P/ last";
    let links = find_platform_links(message);
    assert_eq!(
        links,
        vec![
            PlatformLink::Tweet { username: "a".to_string(), status_id: 1 },
            PlatformLink::YoutubeVideo { video_id: "v".to_string(), timestamp: None },
            PlatformLink::InstagramPost("P".to_string()),
        ]
    );
    let groups: Vec<Vec<Link>> = links.into_iter().map(|l| l.alternative_links(None)).collect();
    assert_eq!(
        concat_alternatives(groups),
        vec![
            embed("https://fxtwitter.com/a/status/1"),
            simple("https://x.com/a/status/1"),
            simple("https://youtu.be/v/"),
            simple("https://www.ddinstagram.com/p/P/"),
            simple("https://www.instagram.com/p/P/"),
        ]
    );
}

#[test]
fn display_of_links() {
    assert_eq!(simple("https://a.b/").to_display(), "<https://a.b/>");
    assert_eq!(embed("https://a.b/").to_display(), "https://a.b/");
}

#[test]
fn message_reply_joins_lines() {
    let groups = vec![
        vec![embed("https://e/1"), simple("https://s/1")],
        vec![],
        vec![simple("https://s/2")],
    ];
    assert_eq!(
        MsgCommand.reply(groups),
        Ok("https://e/1\n<https://s/1>\n<https://s/2>".to_string())
    );
    assert_eq!(
        MsgCommand.reply(vec![vec![], vec![]]),
        Err("Provided links are not supported :(".to_string())
    );
}

#[test]
fn slash_reply() {
    assert_eq!(
        SlashCommand.reply(vec![simple("https://s/1")]),
        Ok("<https://s/1>".to_string())
    );
    assert_eq!(SlashCommand.reply(vec![]), Err("Provided link is not supported :(".to_string()));
}

#[test]
fn command_matching() {
    assert!(MsgCommand.can_handle("Alt URLs", true));
    assert!(!MsgCommand.can_handle("Alt URLs", false));
    assert!(!MsgCommand.can_handle("alturls", true));
    assert_eq!(MsgCommand.name(), "message command");
    assert_eq!(MsgCommand.command_name(), "Alt URLs");
    assert!(SlashCommand.can_handle("alturls", true, 1, true));
    assert!(!SlashCommand.can_handle("alturls", true, 2, true));
    assert!(!SlashCommand.can_handle("alturls", true, 1, false));
    assert!(!SlashCommand.can_handle("alturls", false, 1, true));
    assert!(!SlashCommand.can_handle("Alt URLs", true, 1, true));
    assert_eq!(SlashCommand.name(), "slash command");
    assert_eq!(SlashCommand.command_name(), "alturls");
}

#[test]
fn candidates_keep_order_and_drop_unrecognised() {
    let cands = vec![
        "https://x.com/a/status/7".to_string(),
        "https://example.com/".to_string(),
        "nonsense".to_string(),
        "https://youtube.com/watch/?v=Q&t=3".to_string(),
    ];
    assert_eq!(
        links_from_candidates(&cands),
        vec![
            PlatformLink::Tweet { username: "a".to_string(), status_id: 7 },
            PlatformLink::YoutubeVideo { video_id: "Q".to_string(), timestamp: Some(3) },
        ]
    );
    assert!(links_from_candidates(&Vec::new()).is_empty());
}

#[test]
fn slash_command_requested_link() {
    let reel = || Some(PlatformLink::InstagramReel("R".to_string()));
    assert_eq!(
        SlashCommand.requested_link(None, reel()),
        Ok(PlatformLink::InstagramReel("R".to_string()))
    );
    assert_eq!(
        SlashCommand.requested_link(Some("relative URL without a base".to_string()), None),
        Err("failed to parse url: relative URL without a base".to_string())
    );
    assert_eq!(
        SlashCommand.requested_link(None, None),
        Err("failed to parse plaform link: unsupported link".to_string())
    );
}

#[test]
fn large_timestamp_is_written_in_full() {
    let link = PlatformLink::YoutubeVideo { video_id: "V".to_string(), timestamp: Some(1234567890) };
    assert_eq!(link.alternative_links(None), vec![simple("https://youtu.be/V/?t=1234567890")]);
}
