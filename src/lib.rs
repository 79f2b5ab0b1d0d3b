//! Recognises links to a handful of social-media platforms in free text and
//! produces alternative links for each of them: links that a chat client
//! shows with a rich preview, or without one.

mod text;
pub mod weburl;
pub mod links;
pub mod reddit;
pub mod commands;
pub mod laws;

pub use commands::{MsgCommand, SlashCommand};
pub use links::{
    find_platform_links, get_platform_link, links_from_candidates, platform_link_from_str, Link,
    PlatformLink,
};
pub use reddit::{alternative_reddit_links, resolve_reddit_share_link};
pub use weburl::ParsedUrl;
