//! The location of a shard: an absolute URL with a host.

use vstd::prelude::*;

verus! {

/// What `url::Url::parse` reads from a text: the URL as the url crate writes
/// it, and the URL's host where it has one; `None` where it reads nothing.
pub uninterp spec fn url_parsed(text: Seq<char>) -> Option<(Seq<char>, Option<Seq<char>>)>;

/// `url::Url::parse`, with what it gives taken as text by `as_str` and
/// `host_str`. The contract names what was read.
#[verifier::external_body]
fn read_url(text: &str) -> (read: Option<(String, Option<String>)>)
    ensures
        match read {
            Some((href, Some(host))) => url_parsed(text@) == Some((href@, Some(host@))),
            Some((href, None)) => url_parsed(text@) == Some((href@, None::<Seq<char>>)),
            None => url_parsed(text@) is None,
        },
{
    match url::Url::parse(text) {
        Ok(url) => Some((url.as_str().to_owned(), url.host_str().map(str::to_owned))),
        Err(_) => None,
    }
}

/// A shard's location as mathematical values.
pub struct ShardUrlView {
    /// The whole URL, as the url crate writes it.
    pub href: Seq<char>,
    /// The URL's host.
    pub host: Seq<char>,
}

impl ShardUrlView {
    /// A location that has a host and reads back: its host is not empty, and
    /// its URL is read as itself, with its host.
    pub open spec fn valid(self) -> bool {
        &&& self.host.len() > 0
        &&& url_parsed(self.href) == Some((self.href, Some(self.host)))
    }

    /// The text that is written for the location.
    pub open spec fn text(self) -> Seq<char> {
        self.href
    }

    /// The location that a text stands for: what the url crate reads from it,
    /// where that has a host, which is not empty, and reads back.
    pub open spec fn from_text(text: Seq<char>) -> Option<ShardUrlView> {
        match url_parsed(text) {
            Some((href, Some(host))) => {
                let location = ShardUrlView { href, host };
                if location.valid() {
                    Some(location)
                } else {
                    None
                }
            },
            _ => None,
        }
    }

    /// The text of a valid location stands for that location.
    pub proof fn lemma_read_back(self)
        requires
            self.valid(),
        ensures
            Self::from_text(self.text()) == Some(self),
    {
    }
}

/// The location of a shard. Every location is one that reads back.
#[derive(Debug, PartialEq, Eq)]
pub struct ShardUrl {
    href: String,
    host: String,
}

impl View for ShardUrl {
    type V = ShardUrlView;

    closed spec fn view(&self) -> ShardUrlView {
        ShardUrlView { href: self.href@, host: self.host@ }
    }
}

impl ShardUrl {
    /// What holds of every location.
    #[verifier::type_invariant]
    pub closed spec fn valid(self) -> bool {
        self@.valid()
    }

    /// A location is valid exactly when what it holds reads back.
    pub proof fn lemma_valid(self)
        ensures
            self.valid() == self@.valid(),
    {
    }

    /// Reads a location from its text.
    pub fn parse(text: &str) -> (location: Option<ShardUrl>)
        ensures
            match location {
                Some(l) => ShardUrlView::from_text(text@) == Some(l@),
                None => ShardUrlView::from_text(text@) is None,
            },
    {
        match read_url(text) {
            Some((href, Some(host))) => match read_url(href.as_str()) {
                Some((again, Some(same))) => {
                    if !host.as_str().is_empty() && again == href && same == host {
                        Some(ShardUrl { href, host })
                    } else {
                        None
                    }
                },
                _ => None,
            },
            _ => None,
        }
    }

    /// Writes the location as text.
    pub fn to_text(&self) -> (text: String)
        ensures
            text@ == self@.text(),
    {
        self.href.clone()
    }

    /// The whole URL.
    pub fn as_str(&self) -> (href: &str)
        ensures
            href@ == self@.href,
    {
        self.href.as_str()
    }

    /// The URL's host.
    pub fn host_str(&self) -> (host: &str)
        ensures
            host@ == self@.host,
    {
        self.host.as_str()
    }

}

impl Clone for ShardUrl {
    fn clone(&self) -> (copy: Self)
        ensures
            copy@ == self@,
    {
        proof {
            use_type_invariant(self);
        }
        ShardUrl { href: self.href.clone(), host: self.host.clone() }
    }
}

} // verus!
