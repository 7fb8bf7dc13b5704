//! What holds of the serialized document as a whole.

use vstd::prelude::*;

use crate::sitemap::changefreq_text;
use crate::sitemap::entries_xml;
use crate::sitemap::entry_xml;
use crate::sitemap::escape_char;
use crate::sitemap::escape_seq;
use crate::sitemap::priority_text;
use crate::sitemap::sitemap_xml;
use crate::sitemap::xml_footer;
use crate::sitemap::xml_header;
use crate::model::UrlEntryV;

verus! {

/// Serializing no records yields exactly the empty `urlset` document.
pub proof fn lemma_sitemap_empty()
    ensures
        sitemap_xml(Seq::<UrlEntryV>::empty())
            == "<?xml version=\"1.0\" encoding=\"UTF-8\"?>\n<urlset xmlns=\"http://www.sitemaps.org/schemas/sitemap/0.9\">\n</urlset>"@,
{
    reveal_strlit(
        "<?xml version=\"1.0\" encoding=\"UTF-8\"?>\n<urlset xmlns=\"http://www.sitemaps.org/schemas/sitemap/0.9\">",
    );
    reveal_strlit("\n</urlset>");
    reveal_strlit(
        "<?xml version=\"1.0\" encoding=\"UTF-8\"?>\n<urlset xmlns=\"http://www.sitemaps.org/schemas/sitemap/0.9\">\n</urlset>",
    );
    assert(entries_xml(Seq::<UrlEntryV>::empty()) =~= Seq::<char>::empty());
    assert(sitemap_xml(Seq::<UrlEntryV>::empty())
        =~= "<?xml version=\"1.0\" encoding=\"UTF-8\"?>\n<urlset xmlns=\"http://www.sitemaps.org/schemas/sitemap/0.9\">\n</urlset>"@);
}

/// How many times a character occurs in a stretch of text.
pub open spec fn count_char(t: Seq<char>, c: char) -> nat
    decreases t.len(),
{
    if t.len() == 0 {
        0
    } else {
        count_char(t.drop_last(), c) + (if t.last() == c {
            1nat
        } else {
            0nat
        })
    }
}

/// Occurrences add up over concatenation.
pub proof fn lemma_count_char_concat(a: Seq<char>, b: Seq<char>, c: char)
    ensures
        count_char(a + b, c) == count_char(a, c) + count_char(b, c),
    decreases b.len(),
{
    if b.len() == 0 {
        assert(a + b =~= a);
    } else {
        assert((a + b).drop_last() =~= a + b.drop_last());
        lemma_count_char_concat(a, b.drop_last(), c);
    }
}

/// A character that occurs nowhere counts zero.
pub proof fn lemma_count_char_absent(t: Seq<char>, c: char)
    requires
        forall|i: int| 0 <= i < t.len() ==> t[i] != c,
    ensures
        count_char(t, c) == 0,
    decreases t.len(),
{
    if t.len() > 0 {
        lemma_count_char_absent(t.drop_last(), c);
    }
}

/// Escaped text never holds a `<`: that character is what escaping is for.
pub proof fn lemma_escape_no_lt(s: Seq<char>)
    ensures
        forall|i: int| 0 <= i < escape_seq(s).len() ==> escape_seq(s)[i] != '<',
    decreases s.len(),
{
    if s.len() > 0 {
        lemma_escape_no_lt(s.drop_last());
        let e = escape_seq(s.drop_last());
        assert forall|i: int| 0 <= i < escape_seq(s).len() implies escape_seq(s)[i] != '<' by {
            if i >= e.len() {
                assert(escape_seq(s)[i] == escape_char(s.last())[i - e.len()]);
            }
        }
    }
}

proof fn lemma_priority_no_lt(tenths: int)
    ensures
        count_char(priority_text(tenths), '<') == 0,
{
    reveal_strlit("1.0");
    reveal_strlit("0.0");
    reveal_strlit("0.1");
    reveal_strlit("0.2");
    reveal_strlit("0.3");
    reveal_strlit("0.4");
    reveal_strlit("0.5");
    reveal_strlit("0.6");
    reveal_strlit("0.7");
    reveal_strlit("0.8");
    reveal_strlit("0.9");
    assert(count_char(priority_text(tenths), '<') == 0) by {
        reveal_with_fuel(count_char, 5);
    }
}

proof fn lemma_changefreq_no_lt(cf: crate::model::ChangeFreq)
    ensures
        count_char(changefreq_text(cf), '<') == 0,
{
    reveal_strlit("hourly");
    reveal_strlit("daily");
    reveal_strlit("weekly");
    reveal_strlit("monthly");
    reveal_strlit("yearly");
    assert(count_char(changefreq_text(cf), '<') == 0) by {
        reveal_with_fuel(count_char, 9);
    }
}

#[verifier::rlimit(60)]
proof fn lemma_count_open_pieces()
    ensures
        count_char("\n    <url>\n        <loc>"@, '<') == 2,
        count_char("</loc>\n        <lastmod>"@, '<') == 2,
        count_char("</lastmod>\n        <priority>"@, '<') == 2,
{
    reveal_strlit("\n    <url>\n        <loc>");
    reveal_strlit("</loc>\n        <lastmod>");
    reveal_strlit("</lastmod>\n        <priority>");
    assert(count_char("\n    <url>\n        <loc>"@, '<') == 2) by {
        reveal_with_fuel(count_char, 26);
    }
    assert(count_char("</loc>\n        <lastmod>"@, '<') == 2) by {
        reveal_with_fuel(count_char, 27);
    }
    assert(count_char("</lastmod>\n        <priority>"@, '<') == 2) by {
        reveal_with_fuel(count_char, 31);
    }
}

#[verifier::rlimit(60)]
proof fn lemma_count_close_pieces()
    ensures
        count_char("</priority>\n        <changefreq>"@, '<') == 2,
        count_char("</changefreq>\n    </url>"@, '<') == 2,
{
    reveal_strlit("</priority>\n        <changefreq>");
    reveal_strlit("</changefreq>\n    </url>");
    assert(count_char("</priority>\n        <changefreq>"@, '<') == 2) by {
        reveal_with_fuel(count_char, 34);
    }
    assert(count_char("</changefreq>\n    </url>"@, '<') == 2) by {
        reveal_with_fuel(count_char, 26);
    }
}

/// One record's `url` element holds exactly ten opening angle brackets: its
/// five opening tags and five closing tags, and none in its text content.
pub proof fn lemma_entry_tag_count(e: UrlEntryV)
    ensures
        count_char(entry_xml(e), '<') == 10,
{
    let a1 = "\n    <url>\n        <loc>"@;
    let a2 = "</loc>\n        <lastmod>"@;
    let a3 = "</lastmod>\n        <priority>"@;
    let a4 = "</priority>\n        <changefreq>"@;
    let a5 = "</changefreq>\n    </url>"@;
    let e1 = escape_seq(e.loc);
    let e2 = escape_seq(e.lastmod);
    let p = priority_text(e.priority_tenths);
    let cf = changefreq_text(e.changefreq);
    lemma_count_open_pieces();
    lemma_count_close_pieces();
    lemma_escape_no_lt(e.loc);
    lemma_count_char_absent(e1, '<');
    lemma_escape_no_lt(e.lastmod);
    lemma_count_char_absent(e2, '<');
    lemma_priority_no_lt(e.priority_tenths);
    lemma_changefreq_no_lt(e.changefreq);
    lemma_count_char_concat(a1, e1, '<');
    lemma_count_char_concat(a1 + e1, a2, '<');
    lemma_count_char_concat(a1 + e1 + a2, e2, '<');
    lemma_count_char_concat(a1 + e1 + a2 + e2, a3, '<');
    lemma_count_char_concat(a1 + e1 + a2 + e2 + a3, p, '<');
    lemma_count_char_concat(a1 + e1 + a2 + e2 + a3 + p, a4, '<');
    lemma_count_char_concat(a1 + e1 + a2 + e2 + a3 + p + a4, cf, '<');
    lemma_count_char_concat(a1 + e1 + a2 + e2 + a3 + p + a4 + cf, a5, '<');
}

/// A record list's elements hold exactly ten opening angle brackets per
/// record.
pub proof fn lemma_entries_tag_count(es: Seq<UrlEntryV>)
    ensures
        count_char(entries_xml(es), '<') == 10 * es.len(),
    decreases es.len(),
{
    if es.len() > 0 {
        lemma_entries_tag_count(es.drop_last());
        lemma_entry_tag_count(es.last());
        lemma_count_char_concat(entries_xml(es.drop_last()), entry_xml(es.last()), '<');
    }
}

#[verifier::rlimit(80)]
proof fn lemma_count_frame()
    ensures
        count_char(xml_header(), '<') == 2,
        count_char(xml_footer(), '<') == 1,
{
    let h1 = "<?xml version=\"1.0\" encoding=\"UTF-8\"?>"@;
    let h2 = "\n<urlset xmlns=\"http://www.sitemaps.org/schemas/sitemap/0.9\">"@;
    reveal_strlit("<?xml version=\"1.0\" encoding=\"UTF-8\"?>");
    reveal_strlit("\n<urlset xmlns=\"http://www.sitemaps.org/schemas/sitemap/0.9\">");
    reveal_strlit(
        "<?xml version=\"1.0\" encoding=\"UTF-8\"?>\n<urlset xmlns=\"http://www.sitemaps.org/schemas/sitemap/0.9\">",
    );
    reveal_strlit("\n</urlset>");
    assert(xml_header() =~= h1 + h2);
    assert(count_char(h1, '<') == 1) by {
        reveal_with_fuel(count_char, 41);
    }
    let h2a = "\n<urlset xmlns=\"http://www."@;
    let h2b = "sitemaps.org/schemas/sitemap/0.9\">"@;
    reveal_strlit("\n<urlset xmlns=\"http://www.");
    reveal_strlit("sitemaps.org/schemas/sitemap/0.9\">");
    assert(h2 =~= h2a + h2b);
    assert(count_char(h2a, '<') == 1) by {
        reveal_with_fuel(count_char, 29);
    }
    assert(count_char(h2b, '<') == 0) by {
        reveal_with_fuel(count_char, 36);
    }
    lemma_count_char_concat(h2a, h2b, '<');
    lemma_count_char_concat(h1, h2, '<');
    assert(count_char(xml_footer(), '<') == 1) by {
        reveal_with_fuel(count_char, 11);
    }
}

/// The document for a list of N records holds exactly 3 + 10 N opening angle
/// brackets: two in the declaration and the `urlset` opening, one in the
/// `urlset` closing, and ten per `url` element — so it holds exactly one
/// `url` element per record, and (by `sitemap_xml`'s shape) in list order.
pub proof fn lemma_sitemap_tag_count(es: Seq<UrlEntryV>)
    ensures
        count_char(sitemap_xml(es), '<') == 3 + 10 * es.len(),
{
    lemma_count_frame();
    lemma_entries_tag_count(es);
    lemma_count_char_concat(xml_header(), entries_xml(es), '<');
    lemma_count_char_concat(xml_header() + entries_xml(es), xml_footer(), '<');
}

/// Whether `p` is a suffix of `t`.
pub open spec fn ends_with(t: Seq<char>, p: Seq<char>) -> bool {
    p.len() <= t.len() && t.subrange(t.len() - p.len(), t.len() as int) == p
}

/// Reads escaped text content back: each of the five entities becomes its
/// character, every other character stands as it is.
pub open spec fn unescape(t: Seq<char>) -> Seq<char>
    decreases t.len(),
{
    if t.len() == 0 {
        Seq::empty()
    } else if ends_with(t, seq!['&', 'a', 'm', 'p', ';']) {
        unescape(t.take(t.len() - 5)).push('&')
    } else if ends_with(t, seq!['&', 'l', 't', ';']) {
        unescape(t.take(t.len() - 4)).push('<')
    } else if ends_with(t, seq!['&', 'g', 't', ';']) {
        unescape(t.take(t.len() - 4)).push('>')
    } else if ends_with(t, seq!['&', 'a', 'p', 'o', 's', ';']) {
        unescape(t.take(t.len() - 6)).push('\'')
    } else if ends_with(t, seq!['&', 'q', 'u', 'o', 't', ';']) {
        unescape(t.take(t.len() - 6)).push('"')
    } else {
        unescape(t.drop_last()).push(t.last())
    }
}

proof fn lemma_ends_with_index(t: Seq<char>, q: Seq<char>, i: int)
    requires
        ends_with(t, q),
        0 <= i < q.len(),
    ensures
        t[t.len() - q.len() + i] == q[i],
{
    assert(t.subrange(t.len() - q.len(), t.len() as int)[i] == q[i]);
}

proof fn lemma_not_suffix_by_last(t: Seq<char>, q: Seq<char>)
    requires
        q.len() >= 1,
        t.len() >= 1,
        t.last() != q.last(),
    ensures
        !ends_with(t, q),
{
    if ends_with(t, q) {
        lemma_ends_with_index(t, q, q.len() - 1);
    }
}

proof fn lemma_ends_with_snoc(e: Seq<char>, c: char, q: Seq<char>)
    requires
        q.len() >= 1,
        ends_with(e.push(c), q),
    ensures
        c == q.last(),
        ends_with(e, q.drop_last()),
{
    let t = e.push(c);
    lemma_ends_with_index(t, q, q.len() - 1);
    assert forall|i: int| 0 <= i < q.len() - 1 implies e.subrange(
        e.len() - (q.len() - 1),
        e.len() as int,
    )[i] == q.drop_last()[i] by {
        lemma_ends_with_index(t, q, i);
    }
    assert(e.subrange(e.len() - (q.len() - 1), e.len() as int) =~= q.drop_last());
}

proof fn lemma_escape_no_dangling(s: Seq<char>)
    ensures
        !ends_with(escape_seq(s), seq!['&']),
        !ends_with(escape_seq(s), seq!['&', 'a']),
        !ends_with(escape_seq(s), seq!['&', 'a', 'm']),
        !ends_with(escape_seq(s), seq!['&', 'a', 'm', 'p']),
        !ends_with(escape_seq(s), seq!['&', 'l']),
        !ends_with(escape_seq(s), seq!['&', 'l', 't']),
        !ends_with(escape_seq(s), seq!['&', 'g']),
        !ends_with(escape_seq(s), seq!['&', 'g', 't']),
        !ends_with(escape_seq(s), seq!['&', 'a', 'p']),
        !ends_with(escape_seq(s), seq!['&', 'a', 'p', 'o']),
        !ends_with(escape_seq(s), seq!['&', 'a', 'p', 'o', 's']),
        !ends_with(escape_seq(s), seq!['&', 'q']),
        !ends_with(escape_seq(s), seq!['&', 'q', 'u']),
        !ends_with(escape_seq(s), seq!['&', 'q', 'u', 'o']),
        !ends_with(escape_seq(s), seq!['&', 'q', 'u', 'o', 't']),
    decreases s.len(),
{
    if s.len() > 0 {
        lemma_escape_no_dangling(s.drop_last());
        let e = escape_seq(s.drop_last());
        let c = s.last();
        let t = escape_seq(s);
        if c == '&' || c == '<' || c == '>' || c == '\'' || c == '"' {
            assert(t =~= e + escape_char(c));
            assert(escape_char(c).last() == ';');
            assert(t.last() == ';');
            lemma_not_suffix_by_last(t, seq!['&']);
            lemma_not_suffix_by_last(t, seq!['&', 'a']);
            lemma_not_suffix_by_last(t, seq!['&', 'a', 'm']);
            lemma_not_suffix_by_last(t, seq!['&', 'a', 'm', 'p']);
            lemma_not_suffix_by_last(t, seq!['&', 'l']);
            lemma_not_suffix_by_last(t, seq!['&', 'l', 't']);
            lemma_not_suffix_by_last(t, seq!['&', 'g']);
            lemma_not_suffix_by_last(t, seq!['&', 'g', 't']);
            lemma_not_suffix_by_last(t, seq!['&', 'a', 'p']);
            lemma_not_suffix_by_last(t, seq!['&', 'a', 'p', 'o']);
            lemma_not_suffix_by_last(t, seq!['&', 'a', 'p', 'o', 's']);
            lemma_not_suffix_by_last(t, seq!['&', 'q']);
            lemma_not_suffix_by_last(t, seq!['&', 'q', 'u']);
            lemma_not_suffix_by_last(t, seq!['&', 'q', 'u', 'o']);
            lemma_not_suffix_by_last(t, seq!['&', 'q', 'u', 'o', 't']);
        } else {
            assert(t =~= e.push(c));
            if ends_with(t, seq!['&']) {
                lemma_ends_with_snoc(e, c, seq!['&']);
            }
            if ends_with(t, seq!['&', 'a']) {
                lemma_ends_with_snoc(e, c, seq!['&', 'a']);
                assert(seq!['&', 'a'].drop_last() =~= seq!['&']);
            }
            if ends_with(t, seq!['&', 'a', 'm']) {
                lemma_ends_with_snoc(e, c, seq!['&', 'a', 'm']);
                assert(seq!['&', 'a', 'm'].drop_last() =~= seq!['&', 'a']);
            }
            if ends_with(t, seq!['&', 'a', 'm', 'p']) {
                lemma_ends_with_snoc(e, c, seq!['&', 'a', 'm', 'p']);
                assert(seq!['&', 'a', 'm', 'p'].drop_last() =~= seq!['&', 'a', 'm']);
            }
            if ends_with(t, seq!['&', 'l']) {
                lemma_ends_with_snoc(e, c, seq!['&', 'l']);
                assert(seq!['&', 'l'].drop_last() =~= seq!['&']);
            }
            if ends_with(t, seq!['&', 'l', 't']) {
                lemma_ends_with_snoc(e, c, seq!['&', 'l', 't']);
                assert(seq!['&', 'l', 't'].drop_last() =~= seq!['&', 'l']);
            }
            if ends_with(t, seq!['&', 'g']) {
                lemma_ends_with_snoc(e, c, seq!['&', 'g']);
                assert(seq!['&', 'g'].drop_last() =~= seq!['&']);
            }
            if ends_with(t, seq!['&', 'g', 't']) {
                lemma_ends_with_snoc(e, c, seq!['&', 'g', 't']);
                assert(seq!['&', 'g', 't'].drop_last() =~= seq!['&', 'g']);
            }
            if ends_with(t, seq!['&', 'a', 'p']) {
                lemma_ends_with_snoc(e, c, seq!['&', 'a', 'p']);
                assert(seq!['&', 'a', 'p'].drop_last() =~= seq!['&', 'a']);
            }
            if ends_with(t, seq!['&', 'a', 'p', 'o']) {
                lemma_ends_with_snoc(e, c, seq!['&', 'a', 'p', 'o']);
                assert(seq!['&', 'a', 'p', 'o'].drop_last() =~= seq!['&', 'a', 'p']);
            }
            if ends_with(t, seq!['&', 'a', 'p', 'o', 's']) {
                lemma_ends_with_snoc(e, c, seq!['&', 'a', 'p', 'o', 's']);
                assert(seq!['&', 'a', 'p', 'o', 's'].drop_last() =~= seq!['&', 'a', 'p', 'o']);
            }
            if ends_with(t, seq!['&', 'q']) {
                lemma_ends_with_snoc(e, c, seq!['&', 'q']);
                assert(seq!['&', 'q'].drop_last() =~= seq!['&']);
            }
            if ends_with(t, seq!['&', 'q', 'u']) {
                lemma_ends_with_snoc(e, c, seq!['&', 'q', 'u']);
                assert(seq!['&', 'q', 'u'].drop_last() =~= seq!['&', 'q']);
            }
            if ends_with(t, seq!['&', 'q', 'u', 'o']) {
                lemma_ends_with_snoc(e, c, seq!['&', 'q', 'u', 'o']);
                assert(seq!['&', 'q', 'u', 'o'].drop_last() =~= seq!['&', 'q', 'u']);
            }
            if ends_with(t, seq!['&', 'q', 'u', 'o', 't']) {
                lemma_ends_with_snoc(e, c, seq!['&', 'q', 'u', 'o', 't']);
                assert(seq!['&', 'q', 'u', 'o', 't'].drop_last() =~= seq!['&', 'q', 'u', 'o']);
            }
        }
    }
}

/// Round trip: reading escaped text content back yields the text that was
/// escaped, whatever it held.
pub proof fn lemma_unescape_escape(s: Seq<char>)
    ensures
        unescape(escape_seq(s)) == s,
    decreases s.len(),
{
    let amp = seq!['&', 'a', 'm', 'p', ';'];
    let lt = seq!['&', 'l', 't', ';'];
    let gt = seq!['&', 'g', 't', ';'];
    let apos = seq!['&', 'a', 'p', 'o', 's', ';'];
    let quot = seq!['&', 'q', 'u', 'o', 't', ';'];
    if s.len() == 0 {
        assert(unescape(escape_seq(s)) =~= s);
    } else {
        lemma_unescape_escape(s.drop_last());
        let e = escape_seq(s.drop_last());
        let c = s.last();
        let t = escape_seq(s);
        if c == '&' {
            assert(t =~= e + amp);
            assert(t.subrange(t.len() - 5, t.len() as int) =~= amp);
            assert(ends_with(t, amp));
            assert(t.take(t.len() - 5) =~= e);
            assert(unescape(t) == unescape(e).push('&'));
            assert(s =~= s.drop_last().push(c));
        } else if c == '<' {
            assert(t =~= e + lt);
            if ends_with(t, amp) {
                lemma_ends_with_index(t, amp, 3);
                assert(t[t.len() - 2] == 't');
            }
            assert(t.subrange(t.len() - 4, t.len() as int) =~= lt);
            assert(ends_with(t, lt));
            assert(t.take(t.len() - 4) =~= e);
            assert(unescape(t) == unescape(e).push('<'));
            assert(s =~= s.drop_last().push(c));
        } else if c == '>' {
            assert(t =~= e + gt);
            if ends_with(t, amp) {
                lemma_ends_with_index(t, amp, 3);
                assert(t[t.len() - 2] == 't');
            }
            if ends_with(t, lt) {
                lemma_ends_with_index(t, lt, 1);
                assert(t[t.len() - 3] == 'g');
            }
            assert(t.subrange(t.len() - 4, t.len() as int) =~= gt);
            assert(ends_with(t, gt));
            assert(t.take(t.len() - 4) =~= e);
            assert(unescape(t) == unescape(e).push('>'));
            assert(s =~= s.drop_last().push(c));
        } else if c == '\'' {
            assert(t =~= e + apos);
            if ends_with(t, amp) {
                lemma_ends_with_index(t, amp, 3);
                assert(t[t.len() - 2] == 's');
            }
            if ends_with(t, lt) {
                lemma_ends_with_index(t, lt, 1);
                assert(t[t.len() - 3] == 'o');
            }
            if ends_with(t, gt) {
                lemma_ends_with_index(t, gt, 1);
                assert(t[t.len() - 3] == 'o');
            }
            assert(t.subrange(t.len() - 6, t.len() as int) =~= apos);
            assert(ends_with(t, apos));
            assert(t.take(t.len() - 6) =~= e);
            assert(unescape(t) == unescape(e).push('\''));
            assert(s =~= s.drop_last().push(c));
        } else if c == '"' {
            assert(t =~= e + quot);
            if ends_with(t, amp) {
                lemma_ends_with_index(t, amp, 3);
                assert(t[t.len() - 2] == 't');
                assert(t[t.len() - 5] == 'q');
                lemma_ends_with_index(t, amp, 1);
                assert(t[t.len() - 4] == 'u');
            }
            if ends_with(t, lt) {
                lemma_ends_with_index(t, lt, 1);
                assert(t[t.len() - 3] == 'o');
            }
            if ends_with(t, gt) {
                lemma_ends_with_index(t, gt, 1);
                assert(t[t.len() - 3] == 'o');
            }
            if ends_with(t, apos) {
                lemma_ends_with_index(t, apos, 4);
                assert(t[t.len() - 2] == 't');
            }
            assert(t.subrange(t.len() - 6, t.len() as int) =~= quot);
            assert(ends_with(t, quot));
            assert(t.take(t.len() - 6) =~= e);
            assert(unescape(t) == unescape(e).push('"'));
            assert(s =~= s.drop_last().push(c));
        } else {
            lemma_escape_no_dangling(s.drop_last());
            assert(t =~= e.push(c));
            if ends_with(t, amp) {
                lemma_ends_with_snoc(e, c, amp);
                assert(amp.drop_last() =~= seq!['&', 'a', 'm', 'p']);
            }
            if ends_with(t, lt) {
                lemma_ends_with_snoc(e, c, lt);
                assert(lt.drop_last() =~= seq!['&', 'l', 't']);
            }
            if ends_with(t, gt) {
                lemma_ends_with_snoc(e, c, gt);
                assert(gt.drop_last() =~= seq!['&', 'g', 't']);
            }
            if ends_with(t, apos) {
                lemma_ends_with_snoc(e, c, apos);
                assert(apos.drop_last() =~= seq!['&', 'a', 'p', 'o', 's']);
            }
            if ends_with(t, quot) {
                lemma_ends_with_snoc(e, c, quot);
                assert(quot.drop_last() =~= seq!['&', 'q', 'u', 'o', 't']);
            }
            assert(t.drop_last() =~= e);
            assert(t.last() == c);
            assert(unescape(t) == unescape(e).push(c));
            assert(s =~= s.drop_last().push(c));
        }
    }
}

} // verus!
