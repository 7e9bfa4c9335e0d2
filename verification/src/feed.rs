//! From feed bytes to the record of the newest entry.
//!
//! The `rss` crate parses the document. What this library reads of an entry
//! is copied into [`FeedEntry`], a plain value, and every decision is made
//! on that.

use crate::clock::rfc2822_instant;
use crate::error::ResolveError;
use crate::record::FileMetaInfo;
use crate::record::FileMetaInfoView;
use crate::text::join3;
use crate::text::joined;
use std::collections::BTreeMap;
use vstd::prelude::*;
use vstd::string::StringExecFns;

verus! {

/// `rss::Channel`, a parsed feed; opaque here.
#[verifier::external_type_specification]
#[verifier::external_body]
pub struct ExChannel(rss::Channel);

/// `rss::Item`, one entry of a parsed feed; opaque here.
#[verifier::external_type_specification]
#[verifier::external_body]
pub struct ExItem(rss::Item);

/// `rss::extension::Extension`, one namespaced element; opaque here.
#[verifier::external_type_specification]
#[verifier::external_body]
pub struct ExExtension(rss::extension::Extension);

/// `rss::Error`, why bytes did not parse; opaque here.
#[verifier::external_type_specification]
#[verifier::external_body]
pub struct ExFeedError(rss::Error);

/// The entries that an `rss::Channel` holds, in document order.
pub uninterp spec fn items_of(channel: rss::Channel) -> Seq<rss::Item>;

/// The title that an `rss::Item` holds.
pub uninterp spec fn title_of(item: rss::Item) -> Option<Seq<char>>;

/// The link that an `rss::Item` holds.
pub uninterp spec fn link_of(item: rss::Item) -> Option<Seq<char>>;

/// The publish date that an `rss::Item` holds, as the feed wrote it.
pub uninterp spec fn pub_date_of(item: rss::Item) -> Option<Seq<char>>;

/// The extensions that an `rss::Item` holds: by namespace, then by element
/// name, the elements of that name.
pub uninterp spec fn extensions_of(item: rss::Item) -> Map<
    String,
    BTreeMap<String, Vec<rss::extension::Extension>>,
>;

/// The text that an `rss::extension::Extension` holds.
pub uninterp spec fn value_of(ext: rss::extension::Extension) -> Option<Seq<char>>;

/// The children that an `rss::extension::Extension` holds, by name.
pub uninterp spec fn children_of(ext: rss::extension::Extension) -> Map<
    String,
    Vec<rss::extension::Extension>,
>;

/// The characters of a text that may be absent.
pub open spec fn text_of(text: Option<&str>) -> Option<Seq<char>> {
    match text {
        None => None,
        Some(t) => Some(t@),
    }
}

/// The value that `map` holds under the key that reads `key`, if it holds
/// one.
pub open spec fn found<V>(map: Map<String, V>, key: Seq<char>) -> Option<V> {
    if exists|k: String| k@ == key && map.contains_key(k) {
        Some(map[choose|k: String| k@ == key && map.contains_key(k)])
    } else {
        None
    }
}

/// `rss::Channel::items`: a getter of the channel's entries; the slice
/// holds them as they stand in the channel.
pub assume_specification[ rss::Channel::items ](channel: &rss::Channel) -> (r: &[rss::Item])
    ensures
        r@ == items_of(*channel),
;

/// `rss::Item::title`: a getter of the item's title.
pub assume_specification[ rss::Item::title ](item: &rss::Item) -> (r: Option<&str>)
    ensures
        text_of(r) == title_of(*item),
;

/// `rss::Item::link`: a getter of the item's link.
pub assume_specification[ rss::Item::link ](item: &rss::Item) -> (r: Option<&str>)
    ensures
        text_of(r) == link_of(*item),
;

/// `rss::Item::pub_date`: a getter of the item's publish date.
pub assume_specification[ rss::Item::pub_date ](item: &rss::Item) -> (r: Option<&str>)
    ensures
        text_of(r) == pub_date_of(*item),
;

/// `rss::Item::extensions`: a getter of the item's extension map.
pub assume_specification[ rss::Item::extensions ](item: &rss::Item) -> (r:
    &rss::extension::ExtensionMap)
    ensures
        r@ == extensions_of(*item),
;

/// `rss::extension::Extension::value`: a getter of the element's text.
pub assume_specification[ rss::extension::Extension::value ](
    ext: &rss::extension::Extension,
) -> (r: Option<&str>)
    ensures
        text_of(r) == value_of(*ext),
;

/// `rss::extension::Extension::children`: a getter of the element's
/// children.
pub assume_specification[ rss::extension::Extension::children ](
    ext: &rss::extension::Extension,
) -> (r: &BTreeMap<String, Vec<rss::extension::Extension>>)
    ensures
        r@ == children_of(*ext),
;

/// Calls `BTreeMap::get` on a map with text keys.
///
/// Trusted: the outcome is the value under the key with these characters,
/// and `None` where the map has no such key.
#[verifier::external_body]
fn lookup<'a, V>(map: &'a BTreeMap<String, V>, key: &str) -> (r: Option<&'a V>)
    ensures
        match r {
            Some(v) => found(map@, key@) == Some(*v),
            None => found(map@, key@) is None,
        },
{
    map.get(key)
}

/// The channel that `rss::Channel::read_from` parses out of `bytes`, or
/// `None` where it rejects them.
pub uninterp spec fn channel_read(bytes: Seq<u8>) -> Option<rss::Channel>;

/// Calls `rss::Channel::read_from` on the bytes.
///
/// Trusted: the outcome is the named one for these bytes.
#[verifier::external_body]
pub(crate) fn read_channel(bytes: &[u8]) -> (r: Result<rss::Channel, rss::Error>)
    ensures
        r is Ok <==> channel_read(bytes@) is Some,
        r matches Ok(channel) ==> channel_read(bytes@) == Some(channel),
{
    rss::Channel::read_from(bytes)
}

/// What `std::path::Path::file_name` finds in `path`, and what `to_str`
/// makes of it: `None` where the path has no final segment, `Some(None)`
/// where the segment is not valid text, else the segment. Paths are read
/// by the syntax of the platform the library is built for.
pub uninterp spec fn path_file_name(path: Seq<char>) -> Option<Option<Seq<char>>>;

/// The views of a looked-up file name.
pub open spec fn lookup_view(found: Option<Option<String>>) -> Option<Option<Seq<char>>> {
    match found {
        None => None,
        Some(None) => Some(None),
        Some(Some(name)) => Some(Some(name@)),
    }
}

/// Whether `name` can be one normal component of a path: not empty, free
/// of the separator `/`, and not the parent marker `..`.
pub open spec fn plain_segment(name: Seq<char>) -> bool {
    &&& name.len() > 0
    &&& !name.contains('/')
    &&& name != seq!['.', '.']
}

/// Calls `std::path::Path::file_name` on the text read as a path, and
/// `to_str` on the segment found.
///
/// Trusted: the outcome is the named one for this text, and a segment that
/// is found is one normal component, as std documents: it is not empty,
/// holds no `/` and is not `..`.
#[verifier::external_body]
pub(crate) fn final_segment(path: &str) -> (r: Option<Option<String>>)
    ensures
        lookup_view(r) == path_file_name(path@),
        r matches Some(Some(name)) ==> plain_segment(name@),
{
    std::path::Path::new(path).file_name().map(|n| n.to_str().map(|s| s.to_string()))
}

/// One `hash` element below a `content` element.
#[derive(Debug)]
pub struct MediaHash {
    /// The element's text.
    pub value: Option<String>,
}

/// One `content` element of the `media` namespace.
#[derive(Debug)]
pub struct MediaContent {
    /// Its children named `hash`, if it has any by that name.
    pub hash: Option<Vec<MediaHash>>,
}

/// The `media` extension namespace of an entry.
#[derive(Debug)]
pub struct MediaNamespace {
    /// Its elements named `content`, if it has any by that name.
    pub content: Option<Vec<MediaContent>>,
}

/// What is read of one feed entry.
#[derive(Debug)]
pub struct FeedEntry {
    pub title: Option<String>,
    pub link: Option<String>,
    pub pub_date: Option<String>,
    /// The `media` namespace among the entry's extensions, if present.
    pub media: Option<MediaNamespace>,
}

/// The hash text of an entry: the text of the first `hash` child of the
/// first `content` element of the `media` namespace. Each step that finds
/// nothing has its own error.
pub open spec fn hash_of(entry: FeedEntry) -> Result<Seq<char>, ResolveError> {
    match entry.media {
        None => Err(ResolveError::MediaNotFound),
        Some(media) => match media.content {
            None => Err(ResolveError::ContentNotFound),
            Some(contents) => if contents@.len() == 0 {
                Err(ResolveError::ContentFirstNotFound)
            } else {
                match contents@[0].hash {
                    None => Err(ResolveError::HashNotFound),
                    Some(hashes) => if hashes@.len() == 0 {
                        Err(ResolveError::HashFirstNotFound)
                    } else {
                        match hashes@[0].value {
                            None => Err(ResolveError::Md5NotFound),
                            Some(text) => Ok(text@),
                        }
                    },
                }
            },
        },
    }
}

/// The file name that a looked-up final segment stands for.
pub open spec fn name_of_lookup(found: Option<Option<Seq<char>>>) -> Result<
    Seq<char>,
    ResolveError,
> {
    match found {
        None => Err(ResolveError::FileNameNotFound),
        Some(None) => Err(ResolveError::FileNameNotText),
        Some(Some(name)) => Ok(name),
    }
}

/// The file name of an entry: the final path segment of its title.
pub open spec fn file_name_of(entry: FeedEntry) -> Result<Seq<char>, ResolveError> {
    match entry.title {
        None => Err(ResolveError::TitleNotFound),
        Some(title) => name_of_lookup(path_file_name(title@)),
    }
}

/// The record that `entries` resolve to under the serving prefix `prefix`,
/// or the first thing found missing. Only the first entry counts. The parts
/// are looked for in this order: publish date, link, hash, file name; the
/// date is parsed last.
pub open spec fn resolution(entries: Seq<FeedEntry>, prefix: Seq<char>) -> Result<
    FileMetaInfoView,
    ResolveError,
> {
    if entries.len() == 0 {
        Err(ResolveError::LatestNotFound)
    } else if entries[0].pub_date is None {
        Err(ResolveError::PubDateNotFound)
    } else if entries[0].link is None {
        Err(ResolveError::LinkNotFound)
    } else if hash_of(entries[0]) is Err {
        Err(hash_of(entries[0])->Err_0)
    } else if file_name_of(entries[0]) is Err {
        Err(file_name_of(entries[0])->Err_0)
    } else if rfc2822_instant(entries[0].pub_date->Some_0@) is None {
        Err(ResolveError::PubDateInvalid)
    } else {
        Ok(
            FileMetaInfoView {
                pub_date: rfc2822_instant(entries[0].pub_date->Some_0@)->Some_0,
                download_url: entries[0].link->Some_0@,
                md5: hash_of(entries[0])->Ok_0,
                name: file_name_of(entries[0])->Ok_0,
                static_file_url: joined(prefix, "/"@, file_name_of(entries[0])->Ok_0),
            },
        )
    }
}

/// Whether `got` is the outcome `want`: the same error, or a record with
/// that value.
pub open spec fn is_outcome(
    got: Result<FileMetaInfo, ResolveError>,
    want: Result<FileMetaInfoView, ResolveError>,
) -> bool {
    match want {
        Ok(v) => got is Ok && got->Ok_0@ == v,
        Err(e) => got == Err::<FileMetaInfo, ResolveError>(e),
    }
}

/// Finds the hash text of an entry.
pub fn media_hash(entry: &FeedEntry) -> (r: Result<&str, ResolveError>)
    ensures
        match r {
            Ok(text) => hash_of(*entry) == Ok::<Seq<char>, ResolveError>(text@),
            Err(e) => hash_of(*entry) == Err::<Seq<char>, ResolveError>(e),
        },
{
    match &entry.media {
        None => Err(ResolveError::MediaNotFound),
        Some(media) => match &media.content {
            None => Err(ResolveError::ContentNotFound),
            Some(contents) => {
                if contents.len() == 0 {
                    Err(ResolveError::ContentFirstNotFound)
                } else {
                    match &contents[0].hash {
                        None => Err(ResolveError::HashNotFound),
                        Some(hashes) => {
                            if hashes.len() == 0 {
                                Err(ResolveError::HashFirstNotFound)
                            } else {
                                match &hashes[0].value {
                                    None => Err(ResolveError::Md5NotFound),
                                    Some(text) => Ok(text.as_str()),
                                }
                            }
                        },
                    }
                }
            },
        },
    }
}

/// Turns a looked-up final segment into a file name, or into the error for
/// what the lookup lacked.
pub fn name_from_lookup(found: Option<Option<String>>) -> (r: Result<String, ResolveError>)
    ensures
        match r {
            Ok(name) => name_of_lookup(lookup_view(found)) == Ok::<Seq<char>, ResolveError>(name@),
            Err(e) => name_of_lookup(lookup_view(found)) == Err::<Seq<char>, ResolveError>(e),
        },
{
    match found {
        None => Err(ResolveError::FileNameNotFound),
        Some(None) => Err(ResolveError::FileNameNotText),
        Some(Some(name)) => Ok(name),
    }
}

/// Derives the file name of an entry from its title. The name is a single
/// path segment, whatever directories the title spells.
pub fn file_name(entry: &FeedEntry) -> (r: Result<String, ResolveError>)
    ensures
        match r {
            Ok(name) => file_name_of(*entry) == Ok::<Seq<char>, ResolveError>(name@)
                && plain_segment(name@),
            Err(e) => file_name_of(*entry) == Err::<Seq<char>, ResolveError>(e),
        },
{
    match &entry.title {
        None => Err(ResolveError::TitleNotFound),
        Some(title) => name_from_lookup(final_segment(title.as_str())),
    }
}

/// Resolves the newest of `entries`, the first one, into a record that is
/// served under `prefix`. No record is built unless every part is there.
pub fn resolve_entries(entries: &Vec<FeedEntry>, prefix: &str) -> (r: Result<
    FileMetaInfo,
    ResolveError,
>)
    ensures
        is_outcome(r, resolution(entries@, prefix@)),
        r matches Ok(record) ==> plain_segment(record@.name),
{
    if entries.len() == 0 {
        return Err(ResolveError::LatestNotFound);
    }
    let latest = &entries[0];
    let pub_date = match &latest.pub_date {
        None => { return Err(ResolveError::PubDateNotFound); },
        Some(text) => text.as_str(),
    };
    let link = match &latest.link {
        None => { return Err(ResolveError::LinkNotFound); },
        Some(text) => text.as_str(),
    };
    let md5 = match media_hash(latest) {
        Err(e) => { return Err(e); },
        Ok(text) => text,
    };
    let name = match file_name(latest) {
        Err(e) => { return Err(e); },
        Ok(text) => text,
    };
    let static_file_url = join3(prefix, "/", name.as_str());
    FileMetaInfo::new(pub_date, link, md5, name.as_str(), static_file_url.as_str())
}

/// The characters of an owned text that may be absent.
pub open spec fn owned_text_of(text: Option<String>) -> Option<Seq<char>> {
    match text {
        None => None,
        Some(t) => Some(t@),
    }
}

/// Whether `hashes` holds, one for one and in order, the texts of
/// `elements`.
pub open spec fn hashes_mirror(
    hashes: Seq<MediaHash>,
    elements: Seq<rss::extension::Extension>,
) -> bool {
    &&& hashes.len() == elements.len()
    &&& forall|i: int|
        0 <= i < hashes.len() ==> owned_text_of(#[trigger] hashes[i].value) == value_of(
            elements[i],
        )
}

/// Whether `content` holds what `element` has under the child name `hash`.
pub open spec fn content_mirrors(content: MediaContent, element: rss::extension::Extension) -> bool {
    match found(children_of(element), "hash"@) {
        None => content.hash is None,
        Some(list) => content.hash is Some && hashes_mirror(content.hash->Some_0@, list@),
    }
}

/// Whether `contents` holds, one for one and in order, what `elements`
/// have under the child name `hash`.
pub open spec fn contents_mirror(
    contents: Seq<MediaContent>,
    elements: Seq<rss::extension::Extension>,
) -> bool {
    &&& contents.len() == elements.len()
    &&& forall|i: int|
        0 <= i < contents.len() ==> content_mirrors(#[trigger] contents[i], elements[i])
}

/// Whether `media` holds what `item` has in the namespace `media` under the
/// element name `content`.
pub open spec fn media_mirrors(media: Option<MediaNamespace>, item: rss::Item) -> bool {
    match found(extensions_of(item), "media"@) {
        None => media is None,
        Some(namespace) => media is Some && match found(namespace@, "content"@) {
            None => media->Some_0.content is None,
            Some(list) => media->Some_0.content is Some && contents_mirror(
                media->Some_0.content->Some_0@,
                list@,
            ),
        },
    }
}

/// Whether `entry` holds what resolution reads of `item`: its title, link
/// and publish date, and the hash elements of its media content.
pub open spec fn entry_mirrors(entry: FeedEntry, item: rss::Item) -> bool {
    &&& owned_text_of(entry.title) == title_of(item)
    &&& owned_text_of(entry.link) == link_of(item)
    &&& owned_text_of(entry.pub_date) == pub_date_of(item)
    &&& media_mirrors(entry.media, item)
}

/// Whether `entries` holds, one for one and in order, what resolution
/// reads of `items`.
pub open spec fn entries_mirror(entries: Seq<FeedEntry>, items: Seq<rss::Item>) -> bool {
    &&& entries.len() == items.len()
    &&& forall|i: int| 0 <= i < entries.len() ==> entry_mirrors(#[trigger] entries[i], items[i])
}

fn owned(text: Option<&str>) -> (r: Option<String>)
    ensures
        owned_text_of(r) == text_of(text),
{
    match text {
        None => None,
        Some(t) => Some(String::from_str(t)),
    }
}

fn hashes_of(list: &Vec<rss::extension::Extension>) -> (r: Vec<MediaHash>)
    ensures
        hashes_mirror(r@, list@),
{
    let mut out: Vec<MediaHash> = Vec::new();
    let mut i: usize = 0;
    while i < list.len()
        invariant
            i <= list.len(),
            hashes_mirror(out@, list@.take(i as int)),
        decreases list.len() - i,
    {
        out.push(MediaHash { value: owned(list[i].value()) });
        i += 1;
    }
    assert(list@.take(i as int) =~= list@);
    out
}

fn contents_of(list: &Vec<rss::extension::Extension>) -> (r: Vec<MediaContent>)
    ensures
        contents_mirror(r@, list@),
{
    let mut out: Vec<MediaContent> = Vec::new();
    let mut i: usize = 0;
    while i < list.len()
        invariant
            i <= list.len(),
            contents_mirror(out@, list@.take(i as int)),
        decreases list.len() - i,
    {
        let hash = match lookup(list[i].children(), "hash") {
            None => None,
            Some(hashes) => Some(hashes_of(hashes)),
        };
        out.push(MediaContent { hash });
        i += 1;
    }
    assert(list@.take(i as int) =~= list@);
    out
}

/// Copies out of an item what resolution reads: title, link, publish date,
/// and the `content` elements of the `media` namespace with their `hash`
/// children.
fn entry_of_item(item: &rss::Item) -> (r: FeedEntry)
    ensures
        entry_mirrors(r, *item),
{
    let media = match lookup(item.extensions(), "media") {
        None => None,
        Some(namespace) => {
            let content = match lookup(namespace, "content") {
                None => None,
                Some(contents) => Some(contents_of(contents)),
            };
            Some(MediaNamespace { content })
        },
    };
    FeedEntry {
        title: owned(item.title()),
        link: owned(item.link()),
        pub_date: owned(item.pub_date()),
        media,
    }
}

/// Copies the entries of a channel, in document order.
fn entries_of_channel(channel: &rss::Channel) -> (r: Vec<FeedEntry>)
    ensures
        entries_mirror(r@, items_of(*channel)),
{
    let items = channel.items();
    let mut out: Vec<FeedEntry> = Vec::new();
    let mut i: usize = 0;
    while i < items.len()
        invariant
            i <= items.len(),
            items@ == items_of(*channel),
            entries_mirror(out@, items@.take(i as int)),
        decreases items.len() - i,
    {
        out.push(entry_of_item(&items[i]));
        i += 1;
    }
    assert(items@.take(i as int) =~= items@);
    out
}

/// Whether `r` is what the feed `bytes` resolve to under `prefix`: bytes
/// that do not parse give `FeedUnreadable`; a channel without entries gives
/// `LatestNotFound`; otherwise `r` is the resolution of entries that mirror
/// the channel's entries, and a record's name is a single path segment.
pub open spec fn resolves(
    bytes: Seq<u8>,
    prefix: Seq<char>,
    r: Result<FileMetaInfo, ResolveError>,
) -> bool {
    match channel_read(bytes) {
        None => r == Err::<FileMetaInfo, ResolveError>(ResolveError::FeedUnreadable),
        Some(channel) => {
            &&& items_of(channel).len() == 0 ==> r == Err::<FileMetaInfo, ResolveError>(
                ResolveError::LatestNotFound,
            )
            &&& exists|entries: Seq<FeedEntry>|
                entries_mirror(entries, items_of(channel)) && is_outcome(
                    r,
                    #[trigger] resolution(entries, prefix),
                )
            &&& r matches Ok(record) ==> plain_segment(record@.name)
        },
    }
}

/// Parses feed bytes and resolves the newest entry into a record served
/// under `prefix`.
pub fn resolve_feed(bytes: &[u8], prefix: &str) -> (r: Result<FileMetaInfo, ResolveError>)
    ensures
        resolves(bytes@, prefix@, r),
{
    match read_channel(bytes) {
        Err(_) => Err(ResolveError::FeedUnreadable),
        Ok(channel) => {
            let entries = entries_of_channel(&channel);
            resolve_entries(&entries, prefix)
        },
    }
}

/// A feed without entries resolves to `LatestNotFound`, under every prefix,
/// and to nothing else.
pub proof fn lemma_no_entries_is_not_found(entries: Seq<FeedEntry>, prefix: Seq<char>)
    requires
        entries.len() == 0,
    ensures
        resolution(entries, prefix) == Err::<FileMetaInfoView, ResolveError>(
            ResolveError::LatestNotFound,
        ),
{
}

/// Resolution never stops half way: it gives either a record with every
/// part, or exactly one error, and which of the two is fixed by the
/// entries alone, not by the prefix.
pub proof fn lemma_resolution_is_total(
    entries: Seq<FeedEntry>,
    prefix: Seq<char>,
    other: Seq<char>,
)
    ensures
        resolution(entries, prefix) is Ok <==> resolution(entries, other) is Ok,
        resolution(entries, prefix) is Err ==> resolution(entries, other) == resolution(
            entries,
            prefix,
        ),
        resolution(entries, prefix) is Ok <==> {
            &&& entries.len() > 0
            &&& entries[0].pub_date is Some
            &&& entries[0].link is Some
            &&& hash_of(entries[0]) is Ok
            &&& file_name_of(entries[0]) is Ok
            &&& rfc2822_instant(entries[0].pub_date->Some_0@) is Some
        },
{
}

} // verus!
