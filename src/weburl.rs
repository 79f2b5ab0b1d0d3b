//! A URL broken into the parts that classification reads.

use vstd::prelude::*;

use crate::text::str_eq;

verus! {

/// The parts of a parsed absolute URL.
pub struct ParsedUrl {
    /// The scheme, lower case (`https`).
    pub scheme: String,
    /// The host when it is a domain name (not an IP address).
    pub domain: Option<String>,
    /// The whole path, starting with `/` for URLs that have one.
    pub path: String,
    /// The path split at `/`, empty pieces included; `None` for URLs without a path base.
    pub segments: Option<Vec<String>>,
    /// The query's key and value pairs, percent-decoded, in order.
    pub query: Vec<(String, String)>,
}

/// The mathematical form of a `ParsedUrl`.
pub struct UrlView {
    pub scheme: Seq<char>,
    pub domain: Option<Seq<char>>,
    pub path: Seq<char>,
    pub segments: Option<Seq<Seq<char>>>,
    pub query: Seq<(Seq<char>, Seq<char>)>,
}

pub open spec fn strings_view(v: Seq<String>) -> Seq<Seq<char>> {
    v.map_values(|x: String| x@)
}

pub open spec fn pairs_view(v: Seq<(String, String)>) -> Seq<(Seq<char>, Seq<char>)> {
    v.map_values(|p: (String, String)| (p.0@, p.1@))
}

pub open spec fn opt_string_view(o: Option<String>) -> Option<Seq<char>> {
    match o {
        Some(s) => Some(s@),
        None => None,
    }
}

impl View for ParsedUrl {
    type V = UrlView;

    open spec fn view(&self) -> UrlView {
        UrlView {
            scheme: self.scheme@,
            domain: opt_string_view(self.domain),
            path: self.path@,
            segments: match self.segments {
                Some(v) => Some(strings_view(v@)),
                None => None,
            },
            query: pairs_view(self.query@),
        }
    }
}

/// What `url::Url::parse` makes of a string, in parts; `None` where it refuses it.
pub uninterp spec fn parsed_url_of(s: Seq<char>) -> Option<UrlView>;

pub open spec fn opt_url_view(o: Option<ParsedUrl>) -> Option<UrlView> {
    match o {
        Some(u) => Some(u@),
        None => None,
    }
}

/// Relies on `url::Url::parse` and the accessors `scheme`, `domain`, `path`,
/// `path_segments` and `query_pairs`: the parts depend on the input string alone.
#[verifier::external_body]
pub(crate) fn parse_url(s: &str) -> (r: Option<ParsedUrl>)
    ensures
        opt_url_view(r) == parsed_url_of(s@),
{
    let u = url::Url::parse(s).ok()?;
    Some(ParsedUrl {
        scheme: u.scheme().to_string(),
        domain: u.domain().map(|d| d.to_string()),
        path: u.path().to_string(),
        segments: u.path_segments().map(|it| it.map(|p| p.to_string()).collect()),
        query: u.query_pairs().map(|(k, v)| (k.into_owned(), v.into_owned())).collect(),
    })
}

/// The segments that are not empty, in order.
pub open spec fn nonempty_segments(s: Seq<Seq<char>>) -> Seq<Seq<char>>
    decreases s.len(),
{
    if s.len() == 0 {
        s
    } else if s.last().len() > 0 {
        nonempty_segments(s.drop_last()).push(s.last())
    } else {
        nonempty_segments(s.drop_last())
    }
}

/// The non-empty path segments of a URL; none where it has no path base.
pub open spec fn path_of(u: UrlView) -> Seq<Seq<char>> {
    match u.segments {
        Some(s) => nonempty_segments(s),
        None => Seq::empty(),
    }
}

/// The value of the last query pair whose key is `key`.
pub open spec fn last_query_value(q: Seq<(Seq<char>, Seq<char>)>, key: Seq<char>) -> Option<
    Seq<char>,
>
    decreases q.len(),
{
    if q.len() == 0 {
        None
    } else if q.last().0 == key {
        Some(q.last().1)
    } else {
        last_query_value(q.drop_last(), key)
    }
}

impl ParsedUrl {
    /// The non-empty path segments, in order.
    pub fn path_segments(&self) -> (r: Vec<String>)
        ensures
            strings_view(r@) == path_of(self@),
    {
        let mut r: Vec<String> = Vec::new();
        match &self.segments {
            None => {
                assert(strings_view(r@) =~= Seq::<Seq<char>>::empty());
                r
            },
            Some(segs) => {
                let n = segs.len();
                let mut i: usize = 0;
                while i < n
                    invariant
                        n == segs@.len(),
                        i <= n,
                        strings_view(r@) == nonempty_segments(strings_view(segs@.take(i as int))),
                    decreases n - i,
                {
                    let ghost before = r@;
                    assert(strings_view(segs@.take(i + 1)).drop_last() =~= strings_view(
                        segs@.take(i as int),
                    ));
                    assert(strings_view(segs@.take(i + 1)).last() == segs@[i as int]@);
                    if segs[i].as_str().unicode_len() > 0 {
                        r.push(segs[i].clone());
                        assert(strings_view(r@) =~= strings_view(before).push(segs@[i as int]@));
                    }
                    i = i + 1;
                }
                assert(segs@.take(n as int) =~= segs@);
                r
            },
        }
    }

    /// The value of the last query pair whose key is `key`.
    pub fn query_value(&self, key: &str) -> (r: Option<String>)
        ensures
            opt_string_view(r) == last_query_value(self@.query, key@),
    {
        let mut found: Option<String> = None;
        let n = self.query.len();
        let mut i: usize = 0;
        while i < n
            invariant
                n == self.query@.len(),
                i <= n,
                opt_string_view(found) == last_query_value(
                    pairs_view(self.query@.take(i as int)),
                    key@,
                ),
            decreases n - i,
        {
            assert(pairs_view(self.query@.take(i + 1)).drop_last() =~= pairs_view(
                self.query@.take(i as int),
            ));
            assert(pairs_view(self.query@.take(i + 1)).last() == (
            self.query@[i as int].0@,
            self.query@[i as int].1@,
            ));
            if str_eq(self.query[i].0.as_str(), key) {
                found = Some(self.query[i].1.clone());
            }
            i = i + 1;
        }
        assert(self.query@.take(n as int) =~= self.query@);
        found
    }
}

} // verus!
