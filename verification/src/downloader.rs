//! The engine's settings, and what it derives from them.

use crate::error::ResolveError;
use crate::feed::resolve_feed;
use crate::feed::resolves;
use crate::record::FileMetaInfo;
use vstd::prelude::*;
use vstd::string::StringExecFns;

verus! {

/// The settings the engine is started with.
#[derive(Debug)]
pub struct SourceforgeDownloaderConfig {
    /// Directory the artifacts are saved in.
    pub save_dir: String,
    /// Path prefix under which the directory is served.
    pub assets_path: String,
    /// Public origin of the static server, scheme included.
    pub domain: String,
    /// When the cycle runs, as a cron expression with seconds and year.
    pub cron: String,
    /// Address the static server listens on.
    pub listen_addr: String,
    /// The release feed.
    pub rss_url: String,
    /// Who is told of finished transfers.
    pub user_id: u64,
    /// Credential of the messaging channel.
    pub token: String,
}

/// The engine: its settings, fixed at construction.
#[derive(Debug)]
pub struct SourceforgeDownloader {
    config: SourceforgeDownloaderConfig,
}

/// Whether `a` and `b` hold the same settings.
pub open spec fn same_settings(
    a: SourceforgeDownloaderConfig,
    b: SourceforgeDownloaderConfig,
) -> bool {
    &&& a.save_dir@ == b.save_dir@
    &&& a.assets_path@ == b.assets_path@
    &&& a.domain@ == b.domain@
    &&& a.cron@ == b.cron@
    &&& a.listen_addr@ == b.listen_addr@
    &&& a.rss_url@ == b.rss_url@
    &&& a.user_id == b.user_id
    &&& a.token@ == b.token@
}

/// The prefix of every public URL: the domain followed by the serving path.
pub open spec fn url_prefix(config: SourceforgeDownloaderConfig) -> Seq<char> {
    config.domain@ + config.assets_path@
}

impl SourceforgeDownloaderConfig {
    /// Settings with the three required values and the defaults for the
    /// rest: saved in `assets`, served under `/assets` of
    /// `http://localhost:8080`, every twenty seconds, listening on
    /// `0.0.0.0:8080`.
    pub fn with_defaults(rss_url: &str, user_id: u64, token: &str) -> (r: Self)
        ensures
            r.save_dir@ == "assets"@,
            r.assets_path@ == "/assets"@,
            r.domain@ == "http://localhost:8080"@,
            r.cron@ == "*/20 * * * * * *"@,
            r.listen_addr@ == "0.0.0.0:8080"@,
            r.rss_url@ == rss_url@,
            r.user_id == user_id,
            r.token@ == token@,
    {
        SourceforgeDownloaderConfig {
            save_dir: String::from_str("assets"),
            assets_path: String::from_str("/assets"),
            domain: String::from_str("http://localhost:8080"),
            cron: String::from_str("*/20 * * * * * *"),
            listen_addr: String::from_str("0.0.0.0:8080"),
            rss_url: String::from_str(rss_url),
            user_id,
            token: String::from_str(token),
        }
    }
}

impl View for SourceforgeDownloader {
    type V = SourceforgeDownloaderConfig;

    closed spec fn view(&self) -> SourceforgeDownloaderConfig {
        self.config
    }
}

impl SourceforgeDownloader {
    /// An engine with a copy of the given settings.
    pub fn new(config: &SourceforgeDownloaderConfig) -> (r: Self)
        ensures
            same_settings(r@, *config),
    {
        SourceforgeDownloader {
            config: SourceforgeDownloaderConfig {
                save_dir: config.save_dir.clone(),
                assets_path: config.assets_path.clone(),
                domain: config.domain.clone(),
                cron: config.cron.clone(),
                listen_addr: config.listen_addr.clone(),
                rss_url: config.rss_url.clone(),
                user_id: config.user_id,
                token: config.token.clone(),
            },
        }
    }

    /// The settings.
    pub fn config(&self) -> (r: &SourceforgeDownloaderConfig)
        ensures
            *r == self@,
    {
        &self.config
    }

    /// The prefix of every public URL.
    pub fn static_file_url_prefix(&self) -> (r: String)
        ensures
            r@ == url_prefix(self@),
    {
        let mut out = self.config.domain.clone();
        out.append(self.config.assets_path.as_str());
        out
    }

    /// Resolves the bytes of the feed into the record of the newest
    /// release, with its public URL under this engine's prefix.
    pub fn latest_file(&self, feed: &[u8]) -> (r: Result<FileMetaInfo, ResolveError>)
        ensures
            resolves(feed@, url_prefix(self@), r),
    {
        let prefix = self.static_file_url_prefix();
        resolve_feed(feed, prefix.as_str())
    }

    /// Turns the outcome of fetching the feed into the record of the newest
    /// release. `fetched` holds the body that was received, or nothing
    /// where the fetch failed. Every failure comes back as an error: a
    /// failed fetch as `FeedUnreachable`, the rest as `latest_file` has
    /// them.
    pub fn get_latest_file(&self, fetched: Option<&[u8]>) -> (r: Result<
        FileMetaInfo,
        ResolveError,
    >)
        ensures
            match fetched {
                None => r == Err::<FileMetaInfo, ResolveError>(ResolveError::FeedUnreachable),
                Some(feed) => resolves(feed@, url_prefix(self@), r),
            },
    {
        match fetched {
            None => Err(ResolveError::FeedUnreachable),
            Some(feed) => self.latest_file(feed),
        }
    }
}

} // verus!
