//! Assembling the full ordered record list for one run.
//!
//! The order is fixed: the instance root, the account's profile, the
//! account's public posts in fetch order, then the public timeline's
//! hashtags in first-seen order.

use vstd::prelude::*;

use crate::content::all_tags;
use crate::content::dedup_tag_urls;
use crate::content::dedup_urls;
use crate::content::status_entries;
use crate::content::status_entries_spec;
use crate::content::tag_entries;
use crate::content::tag_entries_spec;
use crate::loc::entry_v;
use crate::loc::make_entry;
use crate::loc::url_ok;
use crate::loc::BuildError;
use crate::model::ChangeFreq;
use crate::model::Status;
use crate::model::UrlEntry;
use crate::model::UrlEntryV;
use crate::sitemap::generate_sitemap;
use crate::sitemap::sitemap_xml;

verus! {

/// Relies on chrono::Utc::now and chrono::DateTime::to_rfc3339_opts: the
/// current wall-clock time, rendered in RFC 3339 at seconds precision with
/// the Z suffix. Nothing is promised of the result: it depends on the clock.
#[verifier::external_body]
fn now_timestamp() -> String {
    chrono::Utc::now().to_rfc3339_opts(chrono::SecondsFormat::Secs, true)
}

/// The full record list of one run, stamped with `now`: the instance root
/// (hourly, full weight), the account profile (daily, full weight), the
/// account's records, then the tag records. The first location that does not
/// parse as an absolute URL stops the build with that location, in that same
/// order.
pub open spec fn assembled(
    instance_url: Seq<char>,
    account_url: Seq<char>,
    account_statuses: Seq<Status>,
    timeline: Seq<Status>,
    now: Seq<char>,
) -> Result<Seq<UrlEntryV>, Seq<char>> {
    if !url_ok(instance_url) {
        Err(instance_url)
    } else if !url_ok(account_url) {
        Err(account_url)
    } else {
        match status_entries_spec(account_statuses) {
            Ok(ses) => match tag_entries_spec(dedup_urls(all_tags(timeline)), now) {
                Ok(tes) => Ok(
                    seq![
                        entry_v(instance_url, ChangeFreq::Hourly, 10, now),
                        entry_v(account_url, ChangeFreq::Daily, 10, now),
                    ] + ses + tes,
                ),
                Err(u) => Err(u),
            },
            Err(u) => Err(u),
        }
    }
}

/// Builds the record list that `assembled` names, for the given timestamp.
pub fn build_entries(
    instance_url: &String,
    account_url: &String,
    account_statuses: &Vec<Status>,
    timeline: &Vec<Status>,
    now: &String,
) -> (r: Result<Vec<UrlEntry>, BuildError>)
    ensures
        match r {
            Ok(es) => assembled(instance_url@, account_url@, account_statuses@, timeline@, now@)
                == Ok::<Seq<UrlEntryV>, Seq<char>>(es@.map_values(|e: UrlEntry| e@)) && forall|
                k: int,
            | 0 <= k < es@.len() ==> (#[trigger] es@[k])@.wf(),
            Err(e) => e matches BuildError::MalformedUrl { url } && assembled(
                instance_url@,
                account_url@,
                account_statuses@,
                timeline@,
                now@,
            ) == Err::<Seq<UrlEntryV>, Seq<char>>(url@),
        },
{
    let root = match make_entry(instance_url.as_str(), ChangeFreq::Hourly, 10, now) {
        Ok(e) => e,
        Err(e) => {
            return Err(e);
        },
    };
    let profile = match make_entry(account_url.as_str(), ChangeFreq::Daily, 10, now) {
        Ok(e) => e,
        Err(e) => {
            return Err(e);
        },
    };
    let mut ses = match status_entries(account_statuses) {
        Ok(v) => v,
        Err(e) => {
            return Err(e);
        },
    };
    let urls = dedup_tag_urls(timeline);
    let mut tes = match tag_entries(&urls, now) {
        Ok(v) => v,
        Err(e) => {
            return Err(e);
        },
    };
    let ghost ses_snap = ses@;
    let ghost tes_snap = tes@;
    let ghost ses_views = ses@.map_values(|e: UrlEntry| e@);
    let ghost tes_views = tes@.map_values(|e: UrlEntry| e@);
    let ghost root_snap = root;
    let ghost profile_snap = profile;
    let mut out: Vec<UrlEntry> = Vec::new();
    out.push(root);
    out.push(profile);
    out.append(&mut ses);
    out.append(&mut tes);
    proof {
        assert(out@ =~= seq![root_snap, profile_snap] + ses_snap + tes_snap);
        assert(out@.map_values(|e: UrlEntry| e@) =~= seq![
            entry_v(instance_url@, ChangeFreq::Hourly, 10, now@),
            entry_v(account_url@, ChangeFreq::Daily, 10, now@),
        ] + ses_views + tes_views);
        assert forall|k: int| 0 <= k < out@.len() implies (#[trigger] out@[k])@.wf() by {
            if 2 <= k < 2 + ses_snap.len() {
                assert(out@[k] == ses_snap[k - 2]);
            } else if k >= 2 + ses_snap.len() {
                assert(out@[k] == tes_snap[k - 2 - ses_snap.len()]);
            }
        }
    }
    Ok(out)
}

/// Builds the record list for the present moment: as `build_entries`, with
/// the wall clock's timestamp on the instance root, the account profile and
/// the tag records.
pub fn build_entries_now(
    instance_url: &String,
    account_url: &String,
    account_statuses: &Vec<Status>,
    timeline: &Vec<Status>,
) -> (r: Result<Vec<UrlEntry>, BuildError>)
    ensures
        match r {
            Ok(es) => (exists|now: Seq<char>|
                assembled(instance_url@, account_url@, account_statuses@, timeline@, now)
                    == Ok::<Seq<UrlEntryV>, Seq<char>>(es@.map_values(|e: UrlEntry| e@))) && forall|
                k: int,
            | 0 <= k < es@.len() ==> (#[trigger] es@[k])@.wf(),
            Err(e) => e matches BuildError::MalformedUrl { url } && exists|now: Seq<char>|
                assembled(instance_url@, account_url@, account_statuses@, timeline@, now)
                    == Err::<Seq<UrlEntryV>, Seq<char>>(url@),
        },
{
    let now = now_timestamp();
    build_entries(instance_url, account_url, account_statuses, timeline, &now)
}

/// Builds the record list for the given timestamp and serializes it: the
/// document is `sitemap_xml` of the records that `assembled` names.
pub fn sitemap_document(
    instance_url: &String,
    account_url: &String,
    account_statuses: &Vec<Status>,
    timeline: &Vec<Status>,
    now: &String,
) -> (r: Result<String, BuildError>)
    ensures
        match r {
            Ok(text) => assembled(
                instance_url@,
                account_url@,
                account_statuses@,
                timeline@,
                now@,
            ) matches Ok(es) && text@ == sitemap_xml(es),
            Err(e) => e matches BuildError::MalformedUrl { url } && assembled(
                instance_url@,
                account_url@,
                account_statuses@,
                timeline@,
                now@,
            ) == Err::<Seq<UrlEntryV>, Seq<char>>(url@),
        },
{
    match build_entries(instance_url, account_url, account_statuses, timeline, now) {
        Ok(entries) => Ok(generate_sitemap(&entries)),
        Err(e) => Err(e),
    }
}

/// Builds and serializes the document for the present moment, as
/// `sitemap_document` does with the wall clock's timestamp.
pub fn sitemap_document_now(
    instance_url: &String,
    account_url: &String,
    account_statuses: &Vec<Status>,
    timeline: &Vec<Status>,
) -> (r: Result<String, BuildError>)
    ensures
        match r {
            Ok(text) => exists|now: Seq<char>|
                (#[trigger] assembled(
                    instance_url@,
                    account_url@,
                    account_statuses@,
                    timeline@,
                    now,
                )) matches Ok(es) && text@ == sitemap_xml(es),
            Err(e) => e matches BuildError::MalformedUrl { url } && exists|now: Seq<char>|
                assembled(instance_url@, account_url@, account_statuses@, timeline@, now)
                    == Err::<Seq<UrlEntryV>, Seq<char>>(url@),
        },
{
    let now = now_timestamp();
    sitemap_document(instance_url, account_url, account_statuses, timeline, &now)
}

} // verus!
