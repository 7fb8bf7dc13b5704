//! The data the sitemap is built from, modelled as plain values.

use vstd::prelude::*;

verus! {

/// The access scope of a remote post. Only fully public posts are
/// sitemap-eligible.
#[derive(Clone, Copy, PartialEq, Eq, Structural, Debug)]
pub enum Visibility {
    Public,
    Unlisted,
    Private,
    Direct,
    /// Visible on the local instance only; some servers report this scope.
    Local,
}

/// A hashtag attached to a post: its name and its canonical URL.
pub struct Tag {
    pub name: String,
    pub url: String,
}

/// The view of a `Tag`: both fields as character sequences.
pub ghost struct TagV {
    pub name: Seq<char>,
    pub url: Seq<char>,
}

impl View for Tag {
    type V = TagV;

    open spec fn view(&self) -> TagV {
        TagV { name: self.name@, url: self.url@ }
    }
}

impl Clone for Tag {
    fn clone(&self) -> (r: Self)
        ensures
            r == *self,
    {
        Tag { name: self.name.clone(), url: self.url.clone() }
    }
}

/// A remote post, reduced to the fields the sitemap reads. Timestamps are
/// carried as their rendered text; the library never computes with them,
/// it only chooses one and writes it out.
pub struct Status {
    pub visibility: Visibility,
    pub url: Option<String>,
    pub created_at: String,
    pub edited_at: Option<String>,
    pub tags: Vec<Tag>,
}

/// The view of a `Status`.
pub ghost struct StatusV {
    pub visibility: Visibility,
    pub url: Option<Seq<char>>,
    pub created_at: Seq<char>,
    pub edited_at: Option<Seq<char>>,
    pub tags: Seq<TagV>,
}

impl View for Status {
    type V = StatusV;

    open spec fn view(&self) -> StatusV {
        StatusV {
            visibility: self.visibility,
            url: match self.url {
                Some(u) => Some(u@),
                None => None,
            },
            created_at: self.created_at@,
            edited_at: match self.edited_at {
                Some(t) => Some(t@),
                None => None,
            },
            tags: self.tags@.map_values(|t: Tag| t@),
        }
    }
}

/// A directory account: its identifier, its username, and its profile URL.
pub struct Account {
    pub id: String,
    pub username: String,
    pub url: String,
}

/// The view of an `Account`.
pub ghost struct AccountV {
    pub id: Seq<char>,
    pub username: Seq<char>,
    pub url: Seq<char>,
}

impl View for Account {
    type V = AccountV;

    open spec fn view(&self) -> AccountV {
        AccountV { id: self.id@, username: self.username@, url: self.url@ }
    }
}

impl Clone for Account {
    fn clone(&self) -> (r: Self)
        ensures
            r == *self,
    {
        Account { id: self.id.clone(), username: self.username.clone(), url: self.url.clone() }
    }
}

/// How often a listed URL is expected to change.
#[derive(Clone, Copy, PartialEq, Eq, Structural, Debug)]
pub enum ChangeFreq {
    Hourly,
    Daily,
    Weekly,
    Monthly,
    Yearly,
}

/// One record of the sitemap: a location with its crawl hints. The priority
/// weight runs from 0.0 to 1.0 and is held in tenths, so that 10 stands for
/// the full weight.
pub struct UrlEntry {
    pub loc: String,
    pub changefreq: ChangeFreq,
    pub priority_tenths: u8,
    pub lastmod: String,
}

/// The view of a `UrlEntry`.
pub ghost struct UrlEntryV {
    pub loc: Seq<char>,
    pub changefreq: ChangeFreq,
    pub priority_tenths: int,
    pub lastmod: Seq<char>,
}

impl View for UrlEntry {
    type V = UrlEntryV;

    open spec fn view(&self) -> UrlEntryV {
        UrlEntryV {
            loc: self.loc@,
            changefreq: self.changefreq,
            priority_tenths: self.priority_tenths as int,
            lastmod: self.lastmod@,
        }
    }
}

impl UrlEntryV {
    /// A well-formed entry carries a priority weight between 0.0 and 1.0.
    pub open spec fn wf(&self) -> bool {
        0 <= self.priority_tenths <= 10
    }
}

} // verus!
