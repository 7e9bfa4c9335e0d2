//! The artifact record: what one feed entry says about one release.

use crate::clock::parse_rfc2822;
use crate::clock::rfc2822_instant;
use crate::clock::utc_display;
use crate::clock::utc_text;
use crate::error::ResolveError;
use std::cmp::Ordering;
use vstd::prelude::*;
use vstd::std_specs::cmp::PartialEqSpec;
use vstd::std_specs::cmp::PartialOrdSpec;
use vstd::string::StringExecFns;

verus! {

/// One release as the feed announced it. Built once, never changed.
#[derive(Debug)]
pub struct FileMetaInfo {
    pub_secs: i64,
    pub_nanos: u32,
    download_url: String,
    md5: String,
    name: String,
    static_file_url: String,
}

/// The mathematical value of a record.
pub struct FileMetaInfoView {
    /// Publish instant: seconds since the epoch, then nanoseconds.
    pub pub_date: (i64, u32),
    pub download_url: Seq<char>,
    pub md5: Seq<char>,
    pub name: Seq<char>,
    pub static_file_url: Seq<char>,
}

impl View for FileMetaInfo {
    type V = FileMetaInfoView;

    closed spec fn view(&self) -> FileMetaInfoView {
        FileMetaInfoView {
            pub_date: (self.pub_secs, self.pub_nanos),
            download_url: self.download_url@,
            md5: self.md5@,
            name: self.name@,
            static_file_url: self.static_file_url@,
        }
    }
}

/// Whether instant `a` lies strictly before instant `b`.
pub open spec fn instant_before(a: (i64, u32), b: (i64, u32)) -> bool {
    a.0 < b.0 || (a.0 == b.0 && a.1 < b.1)
}

/// Whether two records announce the same release: the same hash, and a
/// hash that is not empty.
pub open spec fn same_release(a: FileMetaInfoView, b: FileMetaInfoView) -> bool {
    a.md5.len() > 0 && a.md5 == b.md5
}

/// How the publish instant of `a` stands to that of `b`.
pub open spec fn publish_order(a: FileMetaInfoView, b: FileMetaInfoView) -> Ordering {
    if instant_before(a.pub_date, b.pub_date) {
        Ordering::Less
    } else if a.pub_date == b.pub_date {
        Ordering::Equal
    } else {
        Ordering::Greater
    }
}

/// The lines that describe a record whose publish date prints as `date`.
pub open spec fn description(v: FileMetaInfoView, date: Seq<char>) -> Seq<char> {
    "\nfile name: "@ + v.name + "\npub date: "@ + date + "\ndownload url: "@ + v.download_url
        + "\nmd5: "@ + v.md5 + "\nstatic file url: "@ + v.static_file_url
}

/// The text that announces a finished transfer of the record.
pub open spec fn completion_text(v: FileMetaInfoView, date: Seq<char>) -> Seq<char> {
    "下载完成: "@ + description(v, date)
}

impl FileMetaInfo {
    /// Every record holds an instant that has a printable UTC date.
    #[verifier::type_invariant]
    spec fn printable(&self) -> bool {
        utc_display(self.pub_secs, self.pub_nanos) is Some
    }

    /// Builds a record. `pub_date` must read as an RFC 2822 date; the other
    /// parts are taken as they are.
    pub fn new(
        pub_date: &str,
        download_url: &str,
        md5: &str,
        name: &str,
        static_file_url: &str,
    ) -> (r: Result<FileMetaInfo, ResolveError>)
        ensures
            match r {
                Ok(rec) => rfc2822_instant(pub_date@) == Some(rec@.pub_date)
                    && utc_display(rec@.pub_date.0, rec@.pub_date.1) is Some
                    && rec@.download_url == download_url@
                    && rec@.md5 == md5@
                    && rec@.name == name@
                    && rec@.static_file_url == static_file_url@,
                Err(e) => rfc2822_instant(pub_date@) is None && e == ResolveError::PubDateInvalid,
            },
    {
        match parse_rfc2822(pub_date) {
            Ok(instant) => Ok(
                FileMetaInfo {
                    pub_secs: instant.0,
                    pub_nanos: instant.1,
                    download_url: String::from_str(download_url),
                    md5: String::from_str(md5),
                    name: String::from_str(name),
                    static_file_url: String::from_str(static_file_url),
                },
            ),
            Err(_) => Err(ResolveError::PubDateInvalid),
        }
    }

    /// The publish instant: seconds since the epoch, then nanoseconds.
    pub fn pub_date(&self) -> (r: (i64, u32))
        ensures
            r == self@.pub_date,
    {
        (self.pub_secs, self.pub_nanos)
    }

    /// Where the artifact is downloaded from.
    pub fn download_url(&self) -> (r: &str)
        ensures
            r@ == self@.download_url,
    {
        self.download_url.as_str()
    }

    /// The content hash; may be empty.
    pub fn md5(&self) -> (r: &str)
        ensures
            r@ == self@.md5,
    {
        self.md5.as_str()
    }

    /// The file name under which the artifact is saved.
    pub fn name(&self) -> (r: &str)
        ensures
            r@ == self@.name,
    {
        self.name.as_str()
    }

    /// Where the saved artifact is served.
    pub fn static_file_url(&self) -> (r: &str)
        ensures
            r@ == self@.static_file_url,
    {
        self.static_file_url.as_str()
    }

    /// The publish date as printed in UTC.
    pub fn pub_date_text(&self) -> (r: String)
        ensures
            utc_display(self@.pub_date.0, self@.pub_date.1) == Some(r@),
    {
        proof {
            use_type_invariant(self);
        }
        match utc_text(self.pub_secs, self.pub_nanos) {
            Some(text) => text,
            // Never taken: every record holds a printable instant.
            None => String::new(),
        }
    }

    /// The record in five labelled lines, each led by a line break.
    pub fn describe(&self) -> (r: String)
        ensures
            utc_display(self@.pub_date.0, self@.pub_date.1) is Some,
            r@ == description(self@, utc_display(self@.pub_date.0, self@.pub_date.1)->Some_0),
    {
        let date = self.pub_date_text();
        let mut out = String::from_str("\nfile name: ");
        out.append(self.name.as_str());
        out.append("\npub date: ");
        out.append(date.as_str());
        out.append("\ndownload url: ");
        out.append(self.download_url.as_str());
        out.append("\nmd5: ");
        out.append(self.md5.as_str());
        out.append("\nstatic file url: ");
        out.append(self.static_file_url.as_str());
        out
    }

    /// The message sent when the artifact has been saved.
    pub fn completion_message(&self) -> (r: String)
        ensures
            utc_display(self@.pub_date.0, self@.pub_date.1) is Some,
            r@ == completion_text(self@, utc_display(self@.pub_date.0, self@.pub_date.1)->Some_0),
    {
        let body = self.describe();
        let mut out = String::from_str("下载完成: ");
        out.append(body.as_str());
        out
    }
}

impl PartialEq for FileMetaInfo {
    fn eq(&self, other: &Self) -> (r: bool) {
        !self.md5.as_str().is_empty() && self.md5 == other.md5
    }
}

impl vstd::std_specs::cmp::PartialEqSpecImpl for FileMetaInfo {
    open spec fn obeys_eq_spec() -> bool {
        true
    }

    open spec fn eq_spec(&self, other: &Self) -> bool {
        same_release(self@, other@)
    }
}

impl PartialOrd for FileMetaInfo {
    fn partial_cmp(&self, other: &Self) -> (r: Option<Ordering>) {
        if self.pub_secs < other.pub_secs || (self.pub_secs == other.pub_secs && self.pub_nanos
            < other.pub_nanos) {
            Some(Ordering::Less)
        } else if self.pub_secs == other.pub_secs && self.pub_nanos == other.pub_nanos {
            Some(Ordering::Equal)
        } else {
            Some(Ordering::Greater)
        }
    }
}

impl vstd::std_specs::cmp::PartialOrdSpecImpl for FileMetaInfo {
    open spec fn obeys_partial_cmp_spec() -> bool {
        true
    }

    open spec fn partial_cmp_spec(&self, other: &Self) -> Option<Ordering> {
        Some(publish_order(self@, other@))
    }
}

/// Two records with the same non-empty hash are equal, whatever their other
/// parts hold.
pub proof fn lemma_same_hash_is_equal(a: FileMetaInfo, b: FileMetaInfo)
    requires
        a@.md5.len() > 0,
        a@.md5 == b@.md5,
    ensures
        a.eq_spec(&b),
        b.eq_spec(&a),
{
}

/// Records are ordered as their publish instants are: the older one is less,
/// the newer one greater, and records published at the same instant compare
/// as equal.
pub proof fn lemma_order_follows_publish_instant(a: FileMetaInfo, b: FileMetaInfo)
    ensures
        instant_before(a@.pub_date, b@.pub_date) <==> a.partial_cmp_spec(&b) == Some(
            Ordering::Less,
        ),
        instant_before(b@.pub_date, a@.pub_date) <==> a.partial_cmp_spec(&b) == Some(
            Ordering::Greater,
        ),
        a@.pub_date == b@.pub_date <==> a.partial_cmp_spec(&b) == Some(Ordering::Equal),
        a@.pub_date != b@.pub_date ==> (a.partial_cmp_spec(&b) == Some(Ordering::Less)
            <==> b.partial_cmp_spec(&a) == Some(Ordering::Greater)),
{
}

} // verus!
