use mastodon_sitemap::build_entries;
use mastodon_sitemap::build_entries_now;
use mastodon_sitemap::dedup_tag_urls;
use mastodon_sitemap::escape_text;
use mastodon_sitemap::find_account;
use mastodon_sitemap::generate_sitemap;
use mastodon_sitemap::make_entry;
use mastodon_sitemap::optional_value;
use mastodon_sitemap::require_value;
use mastodon_sitemap::sitemap_document;
use mastodon_sitemap::status_entries;
use mastodon_sitemap::tag_entries;
use mastodon_sitemap::Account;
use mastodon_sitemap::BuildError;
use mastodon_sitemap::ChangeFreq;
use mastodon_sitemap::ConfigError;
use mastodon_sitemap::ResolveError;
use mastodon_sitemap::Status;
use mastodon_sitemap::Tag;
use mastodon_sitemap::UrlEntry;
use mastodon_sitemap::Visibility;

fn plain_status(visibility: Visibility, url: Option<&str>, created: &str) -> Status {
    Status {
        visibility,
        url: url.map(|u| u.to_string()),
        created_at: created.to_string(),
        edited_at: None,
        tags: Vec::new(),
    }
}

#[test]
fn require_value_returns_exactly_the_provided_value() {
    let r = require_value("INSTANCE_URL", "https://mastodon.social", Some("https://a.b".to_string()));
    assert_eq!(r.unwrap(), "https://a.b".to_string());
}

#[test]
fn require_value_missing_is_fatal_with_key_and_example() {
    let r = require_value("INSTANCE_URL", "https://mastodon.social", None);
    match r {
        Err(e @ ConfigError::Missing { .. }) => {
            assert_eq!(
                e.message(),
                "INSTANCE_URL must be set. For example: https://mastodon.social"
            );
        }
        _ => panic!("expected the missing-key error"),
    }
}

#[test]
fn require_value_empty_is_fatal_with_key() {
    let r = require_value("ACCESS_TOKEN", "foobar1234", Some(String::new()));
    match r {
        Err(e @ ConfigError::Empty { .. }) => {
            assert_eq!(e.message(), "ACCESS_TOKEN must not be empty");
        }
        _ => panic!("expected the empty-value error"),
    }
}

#[test]
fn optional_value_prefers_the_provided_value() {
    assert_eq!(optional_value(Some("out".to_string()), ""), "out");
    assert_eq!(optional_value(None, "fallback"), "fallback");
}

#[test]
fn find_account_picks_the_exact_match() {
    let candidates = vec![
        Account {
            id: "1".to_string(),
            username: "alice".to_string(),
            url: "https://example.social/@alice".to_string(),
        },
        Account {
            id: "2".to_string(),
            username: "bob".to_string(),
            url: "https://example.social/@bob".to_string(),
        },
    ];
    let found = find_account(&candidates, &"bob".to_string()).unwrap();
    assert_eq!(found.id, "2");
    assert_eq!(found.username, "bob");
    assert_eq!(found.url, "https://example.social/@bob");
}

#[test]
fn find_account_without_exact_match_is_fatal() {
    let candidates = vec![Account {
        id: "1".to_string(),
        username: "alice".to_string(),
        url: "https://example.social/@alice".to_string(),
    }];
    let r = find_account(&candidates, &"carol".to_string());
    match r {
        Err(e) => {
            assert_eq!(e, ResolveError::NotFound);
            assert_eq!(e.message(), "Account not found");
        }
        Ok(_) => panic!("expected no match"),
    }
}

#[test]
fn find_account_is_case_sensitive_and_takes_the_first_match() {
    let candidates = vec![
        Account {
            id: "1".to_string(),
            username: "Bob".to_string(),
            url: "u1".to_string(),
        },
        Account {
            id: "2".to_string(),
            username: "bob".to_string(),
            url: "u2".to_string(),
        },
        Account {
            id: "3".to_string(),
            username: "bob".to_string(),
            url: "u3".to_string(),
        },
    ];
    let found = find_account(&candidates, &"bob".to_string()).unwrap();
    assert_eq!(found.id, "2");
}

#[test]
fn tag_dedup_keeps_the_first_seen_url_per_name() {
    let mut status = plain_status(Visibility::Public, None, "2020-01-01T00:00:00Z");
    status.tags = vec![
        Tag { name: "a".to_string(), url: "u1".to_string() },
        Tag { name: "a".to_string(), url: "u2".to_string() },
        Tag { name: "b".to_string(), url: "u3".to_string() },
    ];
    let urls = dedup_tag_urls(&vec![status]);
    assert_eq!(urls, vec!["u1".to_string(), "u3".to_string()]);
}

#[test]
fn tag_dedup_spans_statuses_in_encounter_order() {
    let mut first = plain_status(Visibility::Unlisted, None, "2020-01-01T00:00:00Z");
    first.tags = vec![Tag { name: "x".to_string(), url: "ux".to_string() }];
    let mut second = plain_status(Visibility::Public, None, "2020-01-02T00:00:00Z");
    second.tags = vec![
        Tag { name: "y".to_string(), url: "uy".to_string() },
        Tag { name: "x".to_string(), url: "other".to_string() },
    ];
    let urls = dedup_tag_urls(&vec![first, second]);
    assert_eq!(urls, vec!["ux".to_string(), "uy".to_string()]);
}

#[test]
fn unlisted_status_with_url_is_excluded() {
    let statuses = vec![plain_status(
        Visibility::Unlisted,
        Some("https://example.social/@t/1"),
        "2020-01-01T00:00:00Z",
    )];
    let entries = status_entries(&statuses).unwrap();
    assert!(entries.is_empty());
}

#[test]
fn public_status_without_url_is_excluded() {
    let statuses = vec![plain_status(Visibility::Public, None, "2020-01-01T00:00:00Z")];
    let entries = status_entries(&statuses).unwrap();
    assert!(entries.is_empty());
}

#[test]
fn public_status_with_edit_uses_the_edit_timestamp() {
    let mut status = plain_status(
        Visibility::Public,
        Some("https://example.social/@t/1"),
        "2020-01-01T00:00:00Z",
    );
    status.edited_at = Some("2021-06-01T12:00:00Z".to_string());
    let entries = status_entries(&vec![status]).unwrap();
    assert_eq!(entries.len(), 1);
    assert_eq!(entries[0].lastmod, "2021-06-01T12:00:00Z");
    assert_eq!(entries[0].changefreq, ChangeFreq::Yearly);
    assert_eq!(entries[0].priority_tenths, 10);
    assert_eq!(entries[0].loc, "https://example.social/@t/1");
}

#[test]
fn public_status_without_edit_uses_the_creation_timestamp() {
    let statuses = vec![plain_status(
        Visibility::Public,
        Some("https://example.social/@t/1"),
        "2020-01-01T00:00:00Z",
    )];
    let entries = status_entries(&statuses).unwrap();
    assert_eq!(entries.len(), 1);
    assert_eq!(entries[0].lastmod, "2020-01-01T00:00:00Z");
}

#[test]
fn make_entry_normalizes_the_location() {
    let e = make_entry(
        "https://example.social",
        ChangeFreq::Hourly,
        10,
        &"2020-01-01T00:00:00Z".to_string(),
    )
    .unwrap();
    assert_eq!(e.loc, "https://example.social/");
}

#[test]
fn make_entry_rejects_a_malformed_location() {
    let r = make_entry("not a url", ChangeFreq::Daily, 3, &"now".to_string());
    match r {
        Err(e @ BuildError::MalformedUrl { .. }) => {
            assert_eq!(e.message(), "malformed URL: not a url");
        }
        Ok(_) => panic!("expected a parse failure"),
    }
}

#[test]
fn tag_entries_are_daily_at_three_tenths_with_the_given_timestamp() {
    let urls = vec!["https://example.social/tags/a".to_string()];
    let now = "2022-02-02T02:02:02Z".to_string();
    let entries = tag_entries(&urls, &now).unwrap();
    assert_eq!(entries.len(), 1);
    assert_eq!(entries[0].loc, "https://example.social/tags/a");
    assert_eq!(entries[0].changefreq, ChangeFreq::Daily);
    assert_eq!(entries[0].priority_tenths, 3);
    assert_eq!(entries[0].lastmod, "2022-02-02T02:02:02Z");
}

#[test]
fn empty_entry_list_yields_the_empty_urlset_document() {
    let entries: Vec<UrlEntry> = Vec::new();
    let text = generate_sitemap(&entries);
    assert_eq!(
        text,
        "<?xml version=\"1.0\" encoding=\"UTF-8\"?>\n<urlset xmlns=\"http://www.sitemaps.org/schemas/sitemap/0.9\">\n</urlset>"
    );
}

#[test]
fn n_entries_yield_n_url_elements_in_input_order() {
    let entries = vec![
        UrlEntry {
            loc: "https://a.example/".to_string(),
            changefreq: ChangeFreq::Hourly,
            priority_tenths: 10,
            lastmod: "2020-01-01T00:00:00Z".to_string(),
        },
        UrlEntry {
            loc: "https://b.example/".to_string(),
            changefreq: ChangeFreq::Daily,
            priority_tenths: 3,
            lastmod: "2020-01-02T00:00:00Z".to_string(),
        },
    ];
    let text = generate_sitemap(&entries);
    assert_eq!(text.matches("<url>").count(), 2);
    assert_eq!(text.matches("</url>").count(), 2);
    let first = text.find("https://a.example/").unwrap();
    let second = text.find("https://b.example/").unwrap();
    assert!(first < second);
}

#[test]
fn one_entry_is_rendered_with_all_four_children() {
    let entries = vec![UrlEntry {
        loc: "https://a.example/".to_string(),
        changefreq: ChangeFreq::Yearly,
        priority_tenths: 10,
        lastmod: "2020-01-01T00:00:00Z".to_string(),
    }];
    let text = generate_sitemap(&entries);
    assert_eq!(
        text,
        "<?xml version=\"1.0\" encoding=\"UTF-8\"?>\n\
         <urlset xmlns=\"http://www.sitemaps.org/schemas/sitemap/0.9\">\n    \
         <url>\n        \
         <loc>https://a.example/</loc>\n        \
         <lastmod>2020-01-01T00:00:00Z</lastmod>\n        \
         <priority>1.0</priority>\n        \
         <changefreq>yearly</changefreq>\n    \
         </url>\n\
         </urlset>"
    );
}

#[test]
fn text_content_is_escaped() {
    assert_eq!(
        escape_text("a&b<c>d'e\"f"),
        "a&amp;b&lt;c&gt;d&apos;e&quot;f"
    );
    assert_eq!(escape_text(""), "");
}

#[test]
fn end_to_end_three_entries_in_order() {
    let instance_url = "https://example.social".to_string();
    let candidates = vec![Account {
        id: "42".to_string(),
        username: "tester".to_string(),
        url: "https://example.social/@tester".to_string(),
    }];
    let account = find_account(&candidates, &"tester".to_string()).unwrap();
    let statuses = vec![plain_status(
        Visibility::Public,
        Some("https://example.social/@tester/1"),
        "2020-05-05T05:05:05Z",
    )];
    let timeline: Vec<Status> = Vec::new();
    let now = "2023-03-03T03:03:03Z".to_string();
    let entries = build_entries(&instance_url, &account.url, &statuses, &timeline, &now).unwrap();
    assert_eq!(entries.len(), 3);
    assert_eq!(entries[0].loc, "https://example.social/");
    assert_eq!(entries[0].changefreq, ChangeFreq::Hourly);
    assert_eq!(entries[0].priority_tenths, 10);
    assert_eq!(entries[0].lastmod, now);
    assert_eq!(entries[1].loc, "https://example.social/@tester");
    assert_eq!(entries[1].changefreq, ChangeFreq::Daily);
    assert_eq!(entries[1].priority_tenths, 10);
    assert_eq!(entries[2].loc, "https://example.social/@tester/1");
    assert_eq!(entries[2].changefreq, ChangeFreq::Yearly);
    assert_eq!(entries[2].priority_tenths, 10);
    assert_eq!(entries[2].lastmod, "2020-05-05T05:05:05Z");
    let text = sitemap_document(&instance_url, &account.url, &statuses, &timeline, &now).unwrap();
    assert_eq!(text.matches("<url>").count(), 3);
}

#[test]
fn a_malformed_instance_url_stops_the_build() {
    let instance_url = "nope".to_string();
    let account_url = "https://example.social/@tester".to_string();
    let statuses: Vec<Status> = Vec::new();
    let timeline: Vec<Status> = Vec::new();
    let now = "2023-03-03T03:03:03Z".to_string();
    let r = build_entries(&instance_url, &account_url, &statuses, &timeline, &now);
    match r {
        Err(e @ BuildError::MalformedUrl { .. }) => {
            assert_eq!(e.message(), "malformed URL: nope");
        }
        Ok(_) => panic!("expected a parse failure"),
    }
}

#[test]
fn the_wall_clock_variant_produces_the_same_shape() {
    let instance_url = "https://example.social".to_string();
    let account_url = "https://example.social/@tester".to_string();
    let statuses: Vec<Status> = Vec::new();
    let timeline: Vec<Status> = Vec::new();
    let entries = build_entries_now(&instance_url, &account_url, &statuses, &timeline).unwrap();
    assert_eq!(entries.len(), 2);
    assert_eq!(entries[0].loc, "https://example.social/");
    assert_eq!(entries[1].loc, "https://example.social/@tester");
    assert!(!entries[0].lastmod.is_empty());
    assert_eq!(entries[0].lastmod, entries[1].lastmod);
}
