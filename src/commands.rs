//! The two chat commands: which requests they take, and the reply they give.

use vstd::prelude::*;

use crate::links::{opt_link_view, Link, LinkView, PlatformLink};
use crate::reddit::links_view;
use crate::text::str_eq;

verus! {

/// How a link is shown: a simple link in angle brackets, so that no preview
/// is made; an embed link bare.
pub open spec fn display_of(l: LinkView) -> Seq<char> {
    match l {
        LinkView::Simple(u) => "<"@ + u + ">"@,
        LinkView::Embed(u) => u,
    }
}

/// The lines joined with a newline between each two.
pub open spec fn join_lines(ls: Seq<Seq<char>>) -> Seq<char>
    decreases ls.len(),
{
    if ls.len() == 0 {
        Seq::empty()
    } else if ls.len() == 1 {
        ls[0]
    } else {
        join_lines(ls.drop_last()) + "\n"@ + ls.last()
    }
}

/// The display text of each link, in order.
pub open spec fn rendered(v: Seq<LinkView>) -> Seq<Seq<char>> {
    v.map_values(|l: LinkView| display_of(l))
}

pub open spec fn groups_view(v: Seq<Vec<Link>>) -> Seq<Seq<LinkView>> {
    v.map_values(|g: Vec<Link>| links_view(g@))
}

impl Link {
    /// The text that shows this link.
    pub fn to_display(&self) -> (r: String)
        ensures
            r@ == display_of(self@),
    {
        match self {
            Link::Simple(u) => {
                let mut s = String::from_str("<");
                s.append(u.as_str());
                s.append(">");
                s
            },
            Link::Embed(u) => String::from_str(u.as_str()),
        }
    }
}

/// The groups of links concatenated, the first group first.
pub fn concat_alternatives(groups: Vec<Vec<Link>>) -> (r: Vec<Link>)
    ensures
        links_view(r@) == groups_view(groups@).flatten(),
{
    let mut rest = groups;
    let mut r: Vec<Link> = Vec::new();
    while rest.len() > 0
        invariant
            links_view(r@) + groups_view(rest@).flatten() == groups_view(groups@).flatten(),
        decreases rest@.len(),
    {
        let ghost rv = groups_view(rest@);
        let ghost before = r@;
        let mut g = rest.remove(0);
        assert(groups_view(rest@) =~= rv.drop_first());
        r.append(&mut g);
        assert(links_view(r@) =~= links_view(before) + rv.first());
    }
    assert(groups_view(rest@) =~= Seq::<Seq<LinkView>>::empty());
    assert(links_view(r@) + Seq::<LinkView>::empty() =~= links_view(r@));
    r
}

/// The display texts of the links, one per line.
pub fn render_lines(links: &Vec<Link>) -> (r: String)
    ensures
        r@ == join_lines(rendered(links_view(links@))),
{
    let mut r = String::new();
    let n = links.len();
    let mut i: usize = 0;
    while i < n
        invariant
            n == links@.len(),
            i <= n,
            r@ == join_lines(rendered(links_view(links@.take(i as int)))),
        decreases n - i,
    {
        let ghost prev = rendered(links_view(links@.take(i as int)));
        let ghost next = rendered(links_view(links@.take(i + 1)));
        assert(next.drop_last() =~= prev);
        assert(next.last() == display_of(links@[i as int]@));
        if i > 0 {
            r.append("\n");
        } else {
            assert(next =~= seq![display_of(links@[0]@)]);
        }
        let line = links[i].to_display();
        r.append(line.as_str());
        i = i + 1;
    }
    assert(links@.take(n as int) =~= links@);
    r
}

/// The reply to a request: the links one per line, or `unsupported` where there are none.
pub open spec fn reply_of(links: Seq<LinkView>, unsupported: Seq<char>) -> Result<
    Seq<char>,
    Seq<char>,
> {
    if links.len() == 0 {
        Err(unsupported)
    } else {
        Ok(join_lines(rendered(links)))
    }
}

pub open spec fn result_view(r: Result<String, String>) -> Result<Seq<char>, Seq<char>> {
    match r {
        Ok(s) => Ok(s@),
        Err(e) => Err(e@),
    }
}

/// The command on a message: it gives the alternative links of every
/// supported link in that message.
pub struct MsgCommand;

impl MsgCommand {
    /// The name of this handler, for logs.
    pub fn name(&self) -> (r: String)
        ensures
            r@ == "message command"@,
    {
        String::from_str("message command")
    }

    /// The name under which the command is registered.
    pub fn command_name(&self) -> (r: String)
        ensures
            r@ == "Alt URLs"@,
    {
        String::from_str("Alt URLs")
    }

    /// True for a message command of this name.
    pub fn can_handle(&self, command_name: &str, is_message_command: bool) -> (r: bool)
        ensures
            r == (command_name@ == "Alt URLs"@ && is_message_command),
    {
        str_eq(command_name, "Alt URLs") && is_message_command
    }

    /// The reply for the alternative links of each found link, in order.
    pub fn reply(&self, groups: Vec<Vec<Link>>) -> (r: Result<String, String>)
        ensures
            result_view(r) == reply_of(
                groups_view(groups@).flatten(),
                "Provided links are not supported :("@,
            ),
    {
        let links = concat_alternatives(groups);
        if links.len() == 0 {
            Err(String::from_str("Provided links are not supported :("))
        } else {
            Ok(render_lines(&links))
        }
    }
}

/// The error reply of the slash command for a URL that did not parse, or
/// that is not a supported link.
pub open spec fn requested_link_error(parse_error: Option<Seq<char>>) -> Seq<char> {
    match parse_error {
        Some(e) => "failed to parse url: "@ + e,
        None => "failed to parse plaform link: unsupported link"@,
    }
}

/// The slash command: it gives the alternative links of one URL.
pub struct SlashCommand;

impl SlashCommand {
    /// The name of this handler, for logs.
    pub fn name(&self) -> (r: String)
        ensures
            r@ == "slash command"@,
    {
        String::from_str("slash command")
    }

    /// The name under which the command is registered.
    pub fn command_name(&self) -> (r: String)
        ensures
            r@ == "alturls"@,
    {
        String::from_str("alturls")
    }

    /// True for a chat-input command of this name with exactly one option,
    /// a string.
    pub fn can_handle(
        &self,
        command_name: &str,
        is_chat_input: bool,
        option_count: usize,
        first_option_is_string: bool,
    ) -> (r: bool)
        ensures
            r == (command_name@ == "alturls"@ && is_chat_input && option_count == 1
                && first_option_is_string),
    {
        str_eq(command_name, "alturls") && is_chat_input && option_count == 1
            && first_option_is_string
    }

    /// The link that the command works on, or the error reply: `parse_error`
    /// is why the URL did not parse, if it did not; `link` is what it was
    /// recognised as.
    pub fn requested_link(&self, parse_error: Option<String>, link: Option<PlatformLink>) -> (r:
        Result<PlatformLink, String>)
        ensures
            r matches Ok(p) ==> parse_error is None && opt_link_view(link) == Some(p@),
            r matches Err(e) ==> e@ == requested_link_error(
                match parse_error {
                    Some(pe) => Some(pe@),
                    None => None,
                },
            ),
            r is Err <==> (parse_error is Some || link is None),
    {
        match parse_error {
            Some(e) => {
                let mut msg = String::from_str("failed to parse url: ");
                msg.append(e.as_str());
                Err(msg)
            },
            None => match link {
                Some(p) => Ok(p),
                None => Err(String::from_str("failed to parse plaform link: unsupported link")),
            },
        }
    }

    /// The reply for the alternative links of the one URL.
    pub fn reply(&self, links: Vec<Link>) -> (r: Result<String, String>)
        ensures
            result_view(r) == reply_of(links_view(links@), "Provided link is not supported :("@),
    {
        if links.len() == 0 {
            Err(String::from_str("Provided link is not supported :("))
        } else {
            Ok(render_lines(&links))
        }
    }
}

} // verus!
