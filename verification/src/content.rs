//! Turning fetched posts into sitemap records.
//!
//! Two independent sources feed the sitemap: the target account's public
//! posts, and the hashtags seen on the public timeline. Fetching is the
//! caller's business; these functions take the fetched posts as values.

use vstd::prelude::*;

use crate::loc::entry_v;
use crate::loc::make_entry;
use crate::loc::url_ok;
use crate::loc::BuildError;
use crate::model::ChangeFreq;
use crate::model::Status;
use crate::model::Tag;
use crate::model::UrlEntry;
use crate::model::UrlEntryV;
use crate::model::Visibility;

verus! {

/// A post is sitemap-eligible when it is fully public and has a canonical
/// URL.
pub open spec fn eligible(s: Status) -> bool {
    s.visibility is Public && s.url is Some
}

/// The timestamp written for a post: its edit timestamp when it has one,
/// its creation timestamp otherwise.
pub open spec fn effective_lastmod(s: Status) -> Seq<char> {
    if s.edited_at is Some {
        s.edited_at->0@
    } else {
        s.created_at@
    }
}

/// The record an eligible post becomes: its canonical URL, expected to
/// change yearly, at full priority weight.
pub open spec fn status_entry(s: Status) -> UrlEntryV {
    entry_v(s.url->0@, ChangeFreq::Yearly, 10, effective_lastmod(s))
}

/// The records of a sequence of posts, in fetch order: ineligible posts are
/// dropped, and the first eligible post whose URL does not parse stops the
/// build with that URL.
pub open spec fn status_entries_spec(ss: Seq<Status>) -> Result<Seq<UrlEntryV>, Seq<char>>
    decreases ss.len(),
{
    if ss.len() == 0 {
        Ok(Seq::empty())
    } else {
        match status_entries_spec(ss.drop_last()) {
            Ok(prefix) => {
                if !eligible(ss.last()) {
                    Ok(prefix)
                } else if url_ok(ss.last().url->0@) {
                    Ok(prefix.push(status_entry(ss.last())))
                } else {
                    Err(ss.last().url->0@)
                }
            },
            Err(u) => Err(u),
        }
    }
}

proof fn lemma_status_err_persists(ss: Seq<Status>, i: int, u: Seq<char>)
    requires
        0 <= i <= ss.len(),
        status_entries_spec(ss.take(i)) == Err::<Seq<UrlEntryV>, Seq<char>>(u),
    ensures
        status_entries_spec(ss) == Err::<Seq<UrlEntryV>, Seq<char>>(u),
    decreases ss.len() - i,
{
    if i == ss.len() {
        assert(ss.take(i) =~= ss);
    } else {
        assert(ss.take(i + 1).drop_last() =~= ss.take(i));
        assert(status_entries_spec(ss.take(i + 1)) == Err::<Seq<UrlEntryV>, Seq<char>>(u));
        lemma_status_err_persists(ss, i + 1, u);
    }
}

/// Filters a page of posts down to its sitemap records, as
/// `status_entries_spec` names them: public posts with a URL, in fetch
/// order, each stamped with its effective last-modified timestamp.
pub fn status_entries(statuses: &Vec<Status>) -> (r: Result<Vec<UrlEntry>, BuildError>)
    ensures
        match r {
            Ok(es) => status_entries_spec(statuses@) == Ok::<Seq<UrlEntryV>, Seq<char>>(
                es@.map_values(|e: UrlEntry| e@),
            ) && forall|k: int| 0 <= k < es@.len() ==> (#[trigger] es@[k])@.wf(),
            Err(e) => e matches BuildError::MalformedUrl { url } && status_entries_spec(statuses@)
                == Err::<Seq<UrlEntryV>, Seq<char>>(url@),
        },
{
    let mut out: Vec<UrlEntry> = Vec::new();
    let n = statuses.len();
    let mut i: usize = 0;
    proof {
        assert(statuses@.take(0) =~= Seq::<Status>::empty());
        assert(out@.map_values(|e: UrlEntry| e@) =~= Seq::<UrlEntryV>::empty());
    }
    while i < n
        invariant
            n == statuses@.len(),
            0 <= i <= n,
            status_entries_spec(statuses@.take(i as int)) == Ok::<Seq<UrlEntryV>, Seq<char>>(
                out@.map_values(|e: UrlEntry| e@),
            ),
            forall|k: int| 0 <= k < out@.len() ==> (#[trigger] out@[k])@.wf(),
        decreases n - i,
    {
        let s = &statuses[i];
        proof {
            assert(statuses@.take(i + 1).drop_last() =~= statuses@.take(i as int));
            assert(statuses@.take(i + 1).last() == statuses@[i as int]);
        }
        let is_public = match s.visibility {
            Visibility::Public => true,
            _ => false,
        };
        if is_public && s.url.is_some() {
            let url = s.url.as_ref().unwrap();
            let lastmod = match &s.edited_at {
                Some(t) => t.clone(),
                None => s.created_at.clone(),
            };
            match make_entry(url.as_str(), ChangeFreq::Yearly, 10, &lastmod) {
                Ok(e) => {
                    let ghost old_out = out@;
                    out.push(e);
                    proof {
                        assert(out@.map_values(|x: UrlEntry| x@) =~= old_out.map_values(
                            |x: UrlEntry| x@,
                        ).push(e@));
                    }
                },
                Err(err) => {
                    proof {
                        lemma_status_err_persists(statuses@, i + 1, url@);
                    }
                    return Err(err);
                },
            }
        }
        i = i + 1;
    }
    proof {
        assert(statuses@.take(n as int) =~= statuses@);
    }
    Ok(out)
}

/// Every hashtag attached to any of the posts, in encounter order.
pub open spec fn all_tags(ss: Seq<Status>) -> Seq<Tag>
    decreases ss.len(),
{
    if ss.len() == 0 {
        Seq::empty()
    } else {
        all_tags(ss.drop_last()) + ss.last().tags@
    }
}

/// Whether some tag in the sequence bears this name.
pub open spec fn has_name(tags: Seq<Tag>, name: Seq<char>) -> bool {
    exists|i: int| 0 <= i < tags.len() && tags[i].name@ == name
}

/// The tag URLs with duplicates dropped: a tag whose name was already seen
/// contributes nothing, so the first-seen tag's URL wins.
pub open spec fn dedup_urls(tags: Seq<Tag>) -> Seq<Seq<char>>
    decreases tags.len(),
{
    if tags.len() == 0 {
        Seq::empty()
    } else if has_name(tags.drop_last(), tags.last().name@) {
        dedup_urls(tags.drop_last())
    } else {
        dedup_urls(tags.drop_last()).push(tags.last().url@)
    }
}

/// Whether some string in the vector's view equals this one.
pub open spec fn contains_str(v: Seq<String>, s: Seq<char>) -> bool {
    exists|k: int| 0 <= k < v.len() && v[k]@ == s
}

fn contains_string(v: &Vec<String>, s: &String) -> (r: bool)
    ensures
        r == contains_str(v@, s@),
{
    let n = v.len();
    let mut k: usize = 0;
    while k < n
        invariant
            n == v@.len(),
            0 <= k <= n,
            forall|j: int| 0 <= j < k ==> v@[j]@ != s@,
        decreases n - k,
    {
        if v[k] == *s {
            return true;
        }
        k = k + 1;
    }
    false
}

/// Collects the hashtag URLs of a page of posts, in encounter order,
/// deduplicated by tag name as `dedup_urls` names it.
pub fn dedup_tag_urls(statuses: &Vec<Status>) -> (r: Vec<String>)
    ensures
        r@.map_values(|s: String| s@) == dedup_urls(all_tags(statuses@)),
{
    let mut seen: Vec<String> = Vec::new();
    let mut out: Vec<String> = Vec::new();
    let n = statuses.len();
    let mut i: usize = 0;
    proof {
        assert(statuses@.take(0) =~= Seq::<Status>::empty());
        assert(out@.map_values(|s: String| s@) =~= Seq::<Seq<char>>::empty());
    }
    while i < n
        invariant
            n == statuses@.len(),
            0 <= i <= n,
            out@.map_values(|s: String| s@) == dedup_urls(all_tags(statuses@.take(i as int))),
            forall|k: int| 0 <= k < seen@.len() ==> has_name(
                all_tags(statuses@.take(i as int)),
                #[trigger] seen@[k]@,
            ),
            forall|t: int| 0 <= t < all_tags(statuses@.take(i as int)).len() ==> contains_str(
                seen@,
                #[trigger] all_tags(statuses@.take(i as int))[t].name@,
            ),
        decreases n - i,
    {
        let ghost processed = all_tags(statuses@.take(i as int));
        let tags = &statuses[i].tags;
        let m = tags.len();
        let mut j: usize = 0;
        proof {
            assert(processed + tags@.take(0) =~= processed);
        }
        while j < m
            invariant
                n == statuses@.len(),
                0 <= i < n,
                m == tags@.len(),
                0 <= j <= m,
                tags@ == statuses@[i as int].tags@,
                processed == all_tags(statuses@.take(i as int)),
                out@.map_values(|s: String| s@) == dedup_urls(processed + tags@.take(j as int)),
                forall|k: int| 0 <= k < seen@.len() ==> has_name(
                    processed + tags@.take(j as int),
                    #[trigger] seen@[k]@,
                ),
                forall|t: int| 0 <= t < (processed + tags@.take(j as int)).len() ==> contains_str(
                    seen@,
                    #[trigger] (processed + tags@.take(j as int))[t].name@,
                ),
            decreases m - j,
        {
            let ghost before = processed + tags@.take(j as int);
            let ghost grown = before.push(tags@[j as int]);
            let tag = &tags[j];
            proof {
                assert((processed + tags@.take(j + 1)) =~= grown);
                assert(grown.drop_last() =~= before);
                assert(grown.last() == tags@[j as int]);
            }
            if !contains_string(&seen, &tag.name) {
                let ghost old_out = out@;
                let ghost old_seen = seen@;
                // The name was not seen before, so no earlier tag bears it.
                proof {
                    assert forall|t: int| 0 <= t < before.len() implies before[t].name@
                        != tag.name@ by {
                        if before[t].name@ == tag.name@ {
                            assert(contains_str(old_seen, before[t].name@));
                        }
                    }
                    assert(!has_name(before, tag.name@));
                }
                seen.push(tag.name.clone());
                out.push(tag.url.clone());
                proof {
                    assert(out@.map_values(|s: String| s@) =~= old_out.map_values(
                        |s: String| s@,
                    ).push(tag.url@));
                    assert(seen@ =~= old_seen.push(tag.name));
                    assert forall|k: int| 0 <= k < seen@.len() implies has_name(
                        grown,
                        #[trigger] seen@[k]@,
                    ) by {
                        if k < old_seen.len() {
                            assert(has_name(before, old_seen[k]@));
                            let w = choose|t: int|
                                0 <= t < before.len() && before[t].name@ == old_seen[k]@;
                            assert(grown[w].name@ == seen@[k]@);
                        } else {
                            assert(grown[before.len() as int].name@ == seen@[k]@);
                        }
                    }
                    assert forall|t: int| 0 <= t < grown.len() implies contains_str(
                        seen@,
                        #[trigger] grown[t].name@,
                    ) by {
                        if t < before.len() {
                            assert(contains_str(old_seen, before[t].name@));
                            let v = choose|k: int|
                                0 <= k < old_seen.len() && old_seen[k]@ == before[t].name@;
                            assert(seen@[v]@ == grown[t].name@);
                        } else {
                            assert(seen@[old_seen.len() as int]@ == grown[t].name@);
                        }
                    }
                }
            } else {
                proof {
                    let v = choose|k: int| 0 <= k < seen@.len() && seen@[k]@ == tag.name@;
                    assert(has_name(before, seen@[v]@));
                    let w = choose|t: int|
                        0 <= t < before.len() && before[t].name@ == tag.name@;
                    assert(has_name(before, grown.last().name@));
                    assert forall|k: int| 0 <= k < seen@.len() implies has_name(
                        grown,
                        #[trigger] seen@[k]@,
                    ) by {
                        assert(has_name(before, seen@[k]@));
                        let t = choose|t: int|
                            0 <= t < before.len() && before[t].name@ == seen@[k]@;
                        assert(grown[t].name@ == seen@[k]@);
                    }
                    assert forall|t: int| 0 <= t < grown.len() implies contains_str(
                        seen@,
                        #[trigger] grown[t].name@,
                    ) by {
                        if t < before.len() {
                            assert(contains_str(seen@, before[t].name@));
                        } else {
                            assert(grown[t].name@ == tag.name@);
                            assert(seen@[v]@ == grown[t].name@);
                        }
                    }
                }
            }
            j = j + 1;
        }
        proof {
            assert(tags@.take(m as int) =~= tags@);
            assert(statuses@.take(i + 1).drop_last() =~= statuses@.take(i as int));
            assert(statuses@.take(i + 1).last() == statuses@[i as int]);
            assert(all_tags(statuses@.take(i + 1)) =~= processed + tags@);
        }
        i = i + 1;
    }
    proof {
        assert(statuses@.take(n as int) =~= statuses@);
    }
    out
}

/// The records of the deduplicated tag URLs, in first-seen order: each
/// expected to change daily, at priority weight 0.3, stamped with `now`;
/// the first URL that does not parse stops the build with that URL.
pub open spec fn tag_entries_spec(urls: Seq<Seq<char>>, now: Seq<char>) -> Result<
    Seq<UrlEntryV>,
    Seq<char>,
>
    decreases urls.len(),
{
    if urls.len() == 0 {
        Ok(Seq::empty())
    } else {
        match tag_entries_spec(urls.drop_last(), now) {
            Ok(prefix) => {
                if url_ok(urls.last()) {
                    Ok(prefix.push(entry_v(urls.last(), ChangeFreq::Daily, 3, now)))
                } else {
                    Err(urls.last())
                }
            },
            Err(u) => Err(u),
        }
    }
}

proof fn lemma_tag_err_persists(urls: Seq<Seq<char>>, now: Seq<char>, i: int, u: Seq<char>)
    requires
        0 <= i <= urls.len(),
        tag_entries_spec(urls.take(i), now) == Err::<Seq<UrlEntryV>, Seq<char>>(u),
    ensures
        tag_entries_spec(urls, now) == Err::<Seq<UrlEntryV>, Seq<char>>(u),
    decreases urls.len() - i,
{
    if i == urls.len() {
        assert(urls.take(i) =~= urls);
    } else {
        assert(urls.take(i + 1).drop_last() =~= urls.take(i));
        assert(tag_entries_spec(urls.take(i + 1), now) == Err::<Seq<UrlEntryV>, Seq<char>>(u));
        lemma_tag_err_persists(urls, now, i + 1, u);
    }
}

/// The views of a vector of strings.
pub open spec fn str_views(v: Seq<String>) -> Seq<Seq<char>> {
    v.map_values(|s: String| s@)
}

/// Builds the sitemap records for the deduplicated tag URLs, as
/// `tag_entries_spec` names them.
pub fn tag_entries(urls: &Vec<String>, now: &String) -> (r: Result<Vec<UrlEntry>, BuildError>)
    ensures
        match r {
            Ok(es) => tag_entries_spec(str_views(urls@), now@) == Ok::<Seq<UrlEntryV>, Seq<char>>(
                es@.map_values(|e: UrlEntry| e@),
            ) && forall|k: int| 0 <= k < es@.len() ==> (#[trigger] es@[k])@.wf(),
            Err(e) => e matches BuildError::MalformedUrl { url } && tag_entries_spec(
                str_views(urls@),
                now@,
            ) == Err::<Seq<UrlEntryV>, Seq<char>>(url@),
        },
{
    let mut out: Vec<UrlEntry> = Vec::new();
    let n = urls.len();
    let mut i: usize = 0;
    proof {
        assert(str_views(urls@).take(0) =~= Seq::<Seq<char>>::empty());
        assert(out@.map_values(|e: UrlEntry| e@) =~= Seq::<UrlEntryV>::empty());
    }
    while i < n
        invariant
            n == urls@.len(),
            0 <= i <= n,
            tag_entries_spec(str_views(urls@).take(i as int), now@) == Ok::<
                Seq<UrlEntryV>,
                Seq<char>,
            >(out@.map_values(|e: UrlEntry| e@)),
            forall|k: int| 0 <= k < out@.len() ==> (#[trigger] out@[k])@.wf(),
        decreases n - i,
    {
        proof {
            assert(str_views(urls@).take(i + 1).drop_last() =~= str_views(urls@).take(i as int));
            assert(str_views(urls@).take(i + 1).last() == urls@[i as int]@);
        }
        match make_entry(urls[i].as_str(), ChangeFreq::Daily, 3, now) {
            Ok(e) => {
                let ghost old_out = out@;
                out.push(e);
                proof {
                    assert(out@.map_values(|x: UrlEntry| x@) =~= old_out.map_values(
                        |x: UrlEntry| x@,
                    ).push(e@));
                }
            },
            Err(err) => {
                proof {
                    lemma_tag_err_persists(str_views(urls@), now@, i + 1, urls@[i as int]@);
                }
                return Err(err);
            },
        }
        i = i + 1;
    }
    proof {
        assert(str_views(urls@).take(n as int) =~= str_views(urls@));
    }
    Ok(out)
}

} // verus!
