//! Locations: parsing and normalizing the URLs the sitemap lists.
//!
//! A location is accepted only when it parses as an absolute URL; the parsed
//! form is what the sitemap carries, so a location is always written in the
//! parser's normalized rendering (for instance, a bare authority gains a
//! trailing slash).

use vstd::prelude::*;

use crate::model::ChangeFreq;
use crate::model::UrlEntry;
use crate::model::UrlEntryV;

verus! {

/// Whether a string parses as an absolute URL.
pub uninterp spec fn url_ok(s: Seq<char>) -> bool;

/// The normalized rendering of a string that parses as an absolute URL.
pub uninterp spec fn url_norm(s: Seq<char>) -> Seq<char>;

/// Relies on url::Url::parse and url::Url::as_str: parsing either fails or
/// yields the URL's normalized serialization, and both depend on the input
/// characters alone.
#[verifier::external_body]
fn normalize_url(s: &str) -> (r: Option<String>)
    ensures
        r is Some <==> url_ok(s@),
        r matches Some(t) ==> t@ == url_norm(s@),
{
    match url::Url::parse(s) {
        Ok(u) => Some(u.as_str().to_owned()),
        Err(_) => None,
    }
}

/// Why building the sitemap failed.
#[derive(Debug)]
pub enum BuildError {
    /// A location did not parse as an absolute URL. The offending text is
    /// carried along for the diagnostic.
    MalformedUrl { url: String },
}

impl BuildError {
    /// The diagnostic text for this error.
    pub open spec fn message_spec(&self) -> Seq<char> {
        match self {
            BuildError::MalformedUrl { url } => "malformed URL: "@ + url@,
        }
    }

    /// Renders the diagnostic named by `message_spec`.
    pub fn message(&self) -> (r: String)
        ensures
            r@ == self.message_spec(),
    {
        match self {
            BuildError::MalformedUrl { url } => {
                let mut m = "malformed URL: ".to_owned();
                m.append(url.as_str());
                m
            },
        }
    }
}

/// The entry that `make_entry` produces for an accepted location.
pub open spec fn entry_v(
    loc: Seq<char>,
    changefreq: ChangeFreq,
    priority_tenths: int,
    lastmod: Seq<char>,
) -> UrlEntryV {
    UrlEntryV { loc: url_norm(loc), changefreq, priority_tenths, lastmod }
}

/// Builds the sitemap record for one location: the location is parsed and
/// normalized, and a location that does not parse is rejected.
pub fn make_entry(
    loc: &str,
    changefreq: ChangeFreq,
    priority_tenths: u8,
    lastmod: &String,
) -> (r: Result<UrlEntry, BuildError>)
    requires
        priority_tenths <= 10,
    ensures
        url_ok(loc@) <==> r is Ok,
        r matches Ok(e) ==> e@ == entry_v(loc@, changefreq, priority_tenths as int, lastmod@)
            && e@.wf(),
        r matches Err(BuildError::MalformedUrl { url }) ==> url@ == loc@,
{
    match normalize_url(loc) {
        Some(n) => Ok(
            UrlEntry { loc: n, changefreq, priority_tenths, lastmod: lastmod.clone() },
        ),
        None => Err(BuildError::MalformedUrl { url: loc.to_owned() }),
    }
}

} // verus!
