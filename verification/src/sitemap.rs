//! Serializing the record list into a sitemap XML document.
//!
//! The document shape is the sitemap protocol's: a `urlset` root holding one
//! `url` element per record, each with `loc`, `lastmod`, `priority` and
//! `changefreq` children, indented by four spaces per level, with text
//! content escaped.

use vstd::prelude::*;

use crate::model::ChangeFreq;
use crate::model::UrlEntry;
use crate::model::UrlEntryV;
use vstd::string::StrSliceExecFns;
use vstd::string::StringExecFns;

verus! {

/// How one character of text content is written: the five XML-special
/// characters become entities, every other character stands as it is.
pub open spec fn escape_char(c: char) -> Seq<char> {
    if c == '&' {
        seq!['&', 'a', 'm', 'p', ';']
    } else if c == '<' {
        seq!['&', 'l', 't', ';']
    } else if c == '>' {
        seq!['&', 'g', 't', ';']
    } else if c == '\'' {
        seq!['&', 'a', 'p', 'o', 's', ';']
    } else if c == '"' {
        seq!['&', 'q', 'u', 'o', 't', ';']
    } else {
        seq![c]
    }
}

/// How a stretch of text content is written: each character escaped in turn.
pub open spec fn escape_seq(s: Seq<char>) -> Seq<char>
    decreases s.len(),
{
    if s.len() == 0 {
        Seq::empty()
    } else {
        escape_seq(s.drop_last()) + escape_char(s.last())
    }
}

/// Relies on String::push: appends the given character at the end.
#[verifier::external_body]
fn push_char(s: &mut String, c: char)
    ensures
        final(s)@ == old(s)@.push(c),
{
    s.push(c);
}

/// Escapes a stretch of text content, as `escape_seq` names it.
pub fn escape_text(s: &str) -> (r: String)
    ensures
        r@ == escape_seq(s@),
{
    let mut out = String::new();
    let n = s.unicode_len();
    let mut i: usize = 0;
    proof {
        assert(s@.take(0) =~= Seq::<char>::empty());
    }
    while i < n
        invariant
            n == s@.len(),
            0 <= i <= n,
            out@ == escape_seq(s@.take(i as int)),
        decreases n - i,
    {
        proof {
            assert(s@.take(i + 1).drop_last() =~= s@.take(i as int));
            assert(s@.take(i + 1).last() == s@[i as int]);
        }
        let c = s.get_char(i);
        if c == '&' {
            out.append("&amp;");
            proof {
                reveal_strlit("&amp;");
                assert("&amp;"@ =~= seq!['&', 'a', 'm', 'p', ';']);
            }
        } else if c == '<' {
            out.append("&lt;");
            proof {
                reveal_strlit("&lt;");
                assert("&lt;"@ =~= seq!['&', 'l', 't', ';']);
            }
        } else if c == '>' {
            out.append("&gt;");
            proof {
                reveal_strlit("&gt;");
                assert("&gt;"@ =~= seq!['&', 'g', 't', ';']);
            }
        } else if c == '\'' {
            out.append("&apos;");
            proof {
                reveal_strlit("&apos;");
                assert("&apos;"@ =~= seq!['&', 'a', 'p', 'o', 's', ';']);
            }
        } else if c == '"' {
            out.append("&quot;");
            proof {
                reveal_strlit("&quot;");
                assert("&quot;"@ =~= seq!['&', 'q', 'u', 'o', 't', ';']);
            }
        } else {
            push_char(&mut out, c);
            proof {
                assert(out@ =~= escape_seq(s@.take(i as int)) + escape_char(s@[i as int]));
            }
        }
        i = i + 1;
    }
    proof {
        assert(s@.take(n as int) =~= s@);
    }
    out
}

/// How a change-frequency hint is written.
pub open spec fn changefreq_text(cf: ChangeFreq) -> Seq<char> {
    match cf {
        ChangeFreq::Hourly => "hourly"@,
        ChangeFreq::Daily => "daily"@,
        ChangeFreq::Weekly => "weekly"@,
        ChangeFreq::Monthly => "monthly"@,
        ChangeFreq::Yearly => "yearly"@,
    }
}

fn changefreq_string(cf: ChangeFreq) -> (r: String)
    ensures
        r@ == changefreq_text(cf),
{
    match cf {
        ChangeFreq::Hourly => "hourly".to_owned(),
        ChangeFreq::Daily => "daily".to_owned(),
        ChangeFreq::Weekly => "weekly".to_owned(),
        ChangeFreq::Monthly => "monthly".to_owned(),
        ChangeFreq::Yearly => "yearly".to_owned(),
    }
}

/// How a priority weight held in tenths is written: one digit, a point, one
/// digit.
pub open spec fn priority_text(tenths: int) -> Seq<char> {
    if tenths == 10 {
        "1.0"@
    } else if tenths == 0 {
        "0.0"@
    } else if tenths == 1 {
        "0.1"@
    } else if tenths == 2 {
        "0.2"@
    } else if tenths == 3 {
        "0.3"@
    } else if tenths == 4 {
        "0.4"@
    } else if tenths == 5 {
        "0.5"@
    } else if tenths == 6 {
        "0.6"@
    } else if tenths == 7 {
        "0.7"@
    } else if tenths == 8 {
        "0.8"@
    } else {
        "0.9"@
    }
}

fn priority_string(tenths: u8) -> (r: String)
    requires
        tenths <= 10,
    ensures
        r@ == priority_text(tenths as int),
{
    if tenths == 10 {
        "1.0".to_owned()
    } else if tenths == 0 {
        "0.0".to_owned()
    } else if tenths == 1 {
        "0.1".to_owned()
    } else if tenths == 2 {
        "0.2".to_owned()
    } else if tenths == 3 {
        "0.3".to_owned()
    } else if tenths == 4 {
        "0.4".to_owned()
    } else if tenths == 5 {
        "0.5".to_owned()
    } else if tenths == 6 {
        "0.6".to_owned()
    } else if tenths == 7 {
        "0.7".to_owned()
    } else if tenths == 8 {
        "0.8".to_owned()
    } else {
        "0.9".to_owned()
    }
}

/// The document's first line and the opening of the `urlset` root.
pub open spec fn xml_header() -> Seq<char> {
    "<?xml version=\"1.0\" encoding=\"UTF-8\"?>\n<urlset xmlns=\"http://www.sitemaps.org/schemas/sitemap/0.9\">"@
}

/// The closing of the `urlset` root.
pub open spec fn xml_footer() -> Seq<char> {
    "\n</urlset>"@
}

/// How one record is written: a `url` element with the location, the
/// last-modified timestamp, the priority weight and the change-frequency
/// hint, in that order, text content escaped.
pub open spec fn entry_xml(e: UrlEntryV) -> Seq<char> {
    "\n    <url>\n        <loc>"@ + escape_seq(e.loc) + "</loc>\n        <lastmod>"@ + escape_seq(
        e.lastmod,
    ) + "</lastmod>\n        <priority>"@ + priority_text(e.priority_tenths)
        + "</priority>\n        <changefreq>"@ + changefreq_text(e.changefreq)
        + "</changefreq>\n    </url>"@
}

/// How a record list is written: each record in turn, in list order.
pub open spec fn entries_xml(es: Seq<UrlEntryV>) -> Seq<char>
    decreases es.len(),
{
    if es.len() == 0 {
        Seq::empty()
    } else {
        entries_xml(es.drop_last()) + entry_xml(es.last())
    }
}

/// The whole document for a record list.
pub open spec fn sitemap_xml(es: Seq<UrlEntryV>) -> Seq<char> {
    xml_header() + entries_xml(es) + xml_footer()
}

/// Serializes the record list into the sitemap document that `sitemap_xml`
/// names: one `url` element per record, in list order.
pub fn generate_sitemap(entries: &Vec<UrlEntry>) -> (r: String)
    requires
        forall|k: int| 0 <= k < entries@.len() ==> (#[trigger] entries@[k])@.wf(),
    ensures
        r@ == sitemap_xml(entries@.map_values(|e: UrlEntry| e@)),
{
    let ghost vs = entries@.map_values(|e: UrlEntry| e@);
    let mut out = String::new();
    out.append(
        "<?xml version=\"1.0\" encoding=\"UTF-8\"?>\n<urlset xmlns=\"http://www.sitemaps.org/schemas/sitemap/0.9\">",
    );
    let n = entries.len();
    let mut i: usize = 0;
    proof {
        assert(vs.take(0) =~= Seq::<UrlEntryV>::empty());
        assert(out@ =~= xml_header() + entries_xml(vs.take(0)));
    }
    while i < n
        invariant
            n == entries@.len(),
            vs == entries@.map_values(|e: UrlEntry| e@),
            forall|k: int| 0 <= k < entries@.len() ==> (#[trigger] entries@[k])@.wf(),
            0 <= i <= n,
            out@ == xml_header() + entries_xml(vs.take(i as int)),
        decreases n - i,
    {
        let e = &entries[i];
        proof {
            assert(vs[i as int] == entries@[i as int]@);
            assert(vs.take(i + 1).drop_last() =~= vs.take(i as int));
            assert(vs.take(i + 1).last() == vs[i as int]);
        }
        out.append("\n    <url>\n        <loc>");
        let loc_text = escape_text(e.loc.as_str());
        out.append(loc_text.as_str());
        out.append("</loc>\n        <lastmod>");
        let lastmod_text = escape_text(e.lastmod.as_str());
        out.append(lastmod_text.as_str());
        out.append("</lastmod>\n        <priority>");
        let prio_text = priority_string(e.priority_tenths);
        out.append(prio_text.as_str());
        out.append("</priority>\n        <changefreq>");
        let cf_text = changefreq_string(e.changefreq);
        out.append(cf_text.as_str());
        out.append("</changefreq>\n    </url>");
        proof {
            assert(out@ =~= xml_header() + entries_xml(vs.take(i + 1)));
        }
        i = i + 1;
    }
    out.append("\n</urlset>");
    proof {
        assert(vs.take(n as int) =~= vs);
        assert(out@ =~= sitemap_xml(vs));
    }
    out
}

} // verus!
