mod assemble;
mod config;
mod content;
mod laws;
mod loc;
mod model;
mod resolve;
mod sitemap;

pub use assemble::assembled;
pub use assemble::build_entries;
pub use assemble::build_entries_now;
pub use assemble::sitemap_document;
pub use assemble::sitemap_document_now;
pub use config::optional_value;
pub use config::require_value;
pub use config::ConfigError;
pub use content::dedup_tag_urls;
pub use content::dedup_urls;
pub use content::status_entries;
pub use content::status_entries_spec;
pub use content::tag_entries;
pub use content::tag_entries_spec;
pub use laws::count_char;
pub use laws::ends_with;
pub use laws::lemma_entry_tag_count;
pub use laws::lemma_sitemap_empty;
pub use laws::lemma_sitemap_tag_count;
pub use laws::lemma_unescape_escape;
pub use laws::unescape;
pub use loc::make_entry;
pub use loc::url_norm;
pub use loc::url_ok;
pub use loc::BuildError;
pub use model::Account;
pub use model::ChangeFreq;
pub use model::Status;
pub use model::Tag;
pub use model::UrlEntry;
pub use model::UrlEntryV;
pub use model::Visibility;
pub use resolve::find_account;
pub use resolve::ResolveError;
pub use sitemap::escape_seq;
pub use sitemap::escape_text;
pub use sitemap::generate_sitemap;
pub use sitemap::sitemap_xml;
