use sourceforge_dl::error::ResolveError;
use sourceforge_dl::feed::file_name;
use sourceforge_dl::feed::media_hash;
use sourceforge_dl::feed::name_from_lookup;
use sourceforge_dl::feed::resolve_entries;
use sourceforge_dl::feed::resolve_feed;
use sourceforge_dl::feed::FeedEntry;
use sourceforge_dl::feed::MediaContent;
use sourceforge_dl::feed::MediaHash;
use sourceforge_dl::feed::MediaNamespace;

fn media_with_hash(value: Option<&str>) -> Option<MediaNamespace> {
    Some(MediaNamespace {
        content: Some(vec![MediaContent {
            hash: Some(vec![MediaHash { value: value.map(|v| v.to_string()) }]),
        }]),
    })
}

fn full_entry() -> FeedEntry {
    FeedEntry {
        title: Some("rom/build-42.zip".to_string()),
        link: Some("http://x/f.zip".to_string()),
        pub_date: Some("Mon, 01 Jan 2024 00:00:00 GMT".to_string()),
        media: media_with_hash(Some("abc123")),
    }
}

fn titled(title: &str) -> FeedEntry {
    let mut e = full_entry();
    e.title = Some(title.to_string());
    e
}

const PREFIX: &str = "http://localhost:8080/assets";

fn feed_xml(items: &str) -> String {
    format!(
        "<?xml version=\"1.0\" encoding=\"utf-8\"?>\n<rss xmlns:media=\"http://video.search.yahoo.com/mrss/\" version=\"2.0\">\n<channel><title>files</title><link>http://x</link><description>d</description>\n{}\n</channel></rss>",
        items
    )
}

#[test]
fn entry_resolves_into_the_record() {
    let r = resolve_entries(&vec![full_entry()], PREFIX).unwrap();
    assert_eq!(r.name(), "build-42.zip");
    assert_eq!(r.static_file_url(), "http://localhost:8080/assets/build-42.zip");
    assert_eq!(r.download_url(), "http://x/f.zip");
    assert_eq!(r.md5(), "abc123");
    assert_eq!(r.pub_date(), (1704067200, 0));
}

#[test]
fn only_the_first_entry_counts() {
    let mut second = full_entry();
    second.title = Some("rom/build-41.zip".to_string());
    second.pub_date = None;
    let r = resolve_entries(&vec![full_entry(), second], PREFIX).unwrap();
    assert_eq!(r.name(), "build-42.zip");
    let mut first = full_entry();
    first.link = None;
    let r = resolve_entries(&vec![first, full_entry()], PREFIX);
    assert_eq!(r.err(), Some(ResolveError::LinkNotFound));
}

#[test]
fn no_entries_is_latest_not_found() {
    let r = resolve_entries(&vec![], PREFIX);
    assert_eq!(r.err(), Some(ResolveError::LatestNotFound));
    assert_eq!(ResolveError::LatestNotFound.message(), "latest rom not found");
}

#[test]
fn missing_pub_date_is_named() {
    let mut e = full_entry();
    e.pub_date = None;
    e.link = None;
    e.media = None;
    assert_eq!(resolve_entries(&vec![e], PREFIX).err(), Some(ResolveError::PubDateNotFound));
}

#[test]
fn missing_link_is_named() {
    let mut e = full_entry();
    e.link = None;
    e.media = None;
    assert_eq!(resolve_entries(&vec![e], PREFIX).err(), Some(ResolveError::LinkNotFound));
}

#[test]
fn missing_media_namespace_is_named() {
    let mut e = full_entry();
    e.media = None;
    e.title = None;
    assert_eq!(media_hash(&e), Err(ResolveError::MediaNotFound));
    assert_eq!(resolve_entries(&vec![e], PREFIX).err(), Some(ResolveError::MediaNotFound));
}

#[test]
fn missing_content_is_named() {
    let mut e = full_entry();
    e.media = Some(MediaNamespace { content: None });
    assert_eq!(resolve_entries(&vec![e], PREFIX).err(), Some(ResolveError::ContentNotFound));
}

#[test]
fn empty_content_list_is_named() {
    let mut e = full_entry();
    e.media = Some(MediaNamespace { content: Some(vec![]) });
    assert_eq!(resolve_entries(&vec![e], PREFIX).err(), Some(ResolveError::ContentFirstNotFound));
}

#[test]
fn missing_hash_is_named() {
    let mut e = full_entry();
    e.media = Some(MediaNamespace { content: Some(vec![MediaContent { hash: None }]) });
    assert_eq!(resolve_entries(&vec![e], PREFIX).err(), Some(ResolveError::HashNotFound));
}

#[test]
fn empty_hash_list_is_named() {
    let mut e = full_entry();
    e.media = Some(MediaNamespace { content: Some(vec![MediaContent { hash: Some(vec![]) }]) });
    assert_eq!(resolve_entries(&vec![e], PREFIX).err(), Some(ResolveError::HashFirstNotFound));
}

#[test]
fn hash_without_text_is_named() {
    let mut e = full_entry();
    e.media = media_with_hash(None);
    assert_eq!(resolve_entries(&vec![e], PREFIX).err(), Some(ResolveError::Md5NotFound));
    assert_eq!(ResolveError::Md5NotFound.message(), "md5 not found");
}

#[test]
fn first_content_and_first_hash_are_read() {
    let mut e = full_entry();
    e.media = Some(MediaNamespace {
        content: Some(vec![
            MediaContent {
                hash: Some(vec![
                    MediaHash { value: Some("first".to_string()) },
                    MediaHash { value: Some("second".to_string()) },
                ]),
            },
            MediaContent { hash: None },
        ]),
    });
    assert_eq!(media_hash(&e), Ok("first"));
}

#[test]
fn missing_title_is_named() {
    let mut e = full_entry();
    e.title = None;
    e.pub_date = Some("not a date".to_string());
    assert_eq!(resolve_entries(&vec![e], PREFIX).err(), Some(ResolveError::TitleNotFound));
}

#[test]
fn title_without_final_segment_is_named() {
    assert_eq!(file_name(&titled("rom/..")), Err(ResolveError::FileNameNotFound));
    assert_eq!(file_name(&titled("")), Err(ResolveError::FileNameNotFound));
    assert_eq!(file_name(&titled("/")), Err(ResolveError::FileNameNotFound));
    assert_eq!(
        resolve_entries(&vec![titled("..")], PREFIX).err(),
        Some(ResolveError::FileNameNotFound)
    );
}

#[test]
fn file_name_is_the_final_segment_of_the_title() {
    assert_eq!(file_name(&titled("rom/build-42.zip")), Ok("build-42.zip".to_string()));
    assert_eq!(file_name(&titled("/raphael/14/rom.zip")), Ok("rom.zip".to_string()));
    assert_eq!(file_name(&titled("plain.zip")), Ok("plain.zip".to_string()));
    assert_eq!(file_name(&titled("dir/")), Ok("dir".to_string()));
}

#[test]
fn lookup_outcomes_map_to_name_or_error() {
    assert_eq!(name_from_lookup(None), Err(ResolveError::FileNameNotFound));
    assert_eq!(name_from_lookup(Some(None)), Err(ResolveError::FileNameNotText));
    assert_eq!(name_from_lookup(Some(Some("a.zip".to_string()))), Ok("a.zip".to_string()));
}

#[test]
fn unreadable_date_is_named_last() {
    let mut e = full_entry();
    e.pub_date = Some("yesterday".to_string());
    assert_eq!(resolve_entries(&vec![e], PREFIX).err(), Some(ResolveError::PubDateInvalid));
}

#[test]
fn feed_bytes_resolve_into_the_record() {
    let xml = feed_xml(
        "<item><title><![CDATA[/rom/build-42.zip]]></title><link>http://x/f.zip</link>\
         <pubDate>Mon, 01 Jan 2024 00:00:00 GMT</pubDate>\
         <media:content type=\"application/zip\" url=\"http://x/f.zip\" filesize=\"3\">\
         <media:hash algo=\"md5\">abc123</media:hash></media:content></item>\
         <item><title>/rom/build-41.zip</title></item>",
    );
    let r = resolve_feed(xml.as_bytes(), PREFIX).unwrap();
    assert_eq!(r.name(), "build-42.zip");
    assert_eq!(r.static_file_url(), "http://localhost:8080/assets/build-42.zip");
    assert_eq!(r.download_url(), "http://x/f.zip");
    assert_eq!(r.md5(), "abc123");
    assert_eq!(r.pub_date(), (1704067200, 0));
}

#[test]
fn feed_without_entries_is_latest_not_found() {
    let xml = feed_xml("");
    assert_eq!(resolve_feed(xml.as_bytes(), PREFIX).err(), Some(ResolveError::LatestNotFound));
}

#[test]
fn feed_entry_without_hash_structure_is_named() {
    let xml = feed_xml(
        "<item><title>/rom/build-42.zip</title><link>http://x/f.zip</link>\
         <pubDate>Mon, 01 Jan 2024 00:00:00 GMT</pubDate></item>",
    );
    assert_eq!(resolve_feed(xml.as_bytes(), PREFIX).err(), Some(ResolveError::MediaNotFound));
    let xml = feed_xml(
        "<item><title>/rom/build-42.zip</title><link>http://x/f.zip</link>\
         <pubDate>Mon, 01 Jan 2024 00:00:00 GMT</pubDate>\
         <media:content url=\"http://x/f.zip\"><media:title>t</media:title></media:content></item>",
    );
    assert_eq!(resolve_feed(xml.as_bytes(), PREFIX).err(), Some(ResolveError::HashNotFound));
    let xml = feed_xml(
        "<item><title>/rom/build-42.zip</title><link>http://x/f.zip</link>\
         <pubDate>Mon, 01 Jan 2024 00:00:00 GMT</pubDate>\
         <media:thumbnail url=\"http://x/t.png\"></media:thumbnail></item>",
    );
    assert_eq!(resolve_feed(xml.as_bytes(), PREFIX).err(), Some(ResolveError::ContentNotFound));
}

#[test]
fn bytes_that_are_no_feed_are_unreadable() {
    assert_eq!(resolve_feed(b"hello", PREFIX).err(), Some(ResolveError::FeedUnreadable));
    assert_eq!(resolve_feed(b"", PREFIX).err(), Some(ResolveError::FeedUnreadable));
    assert_eq!(ResolveError::FeedUnreadable.message(), "feed unreadable");
    assert_eq!(ResolveError::FeedUnreachable.message(), "feed unreachable");
}

#[test]
fn every_error_has_its_text() {
    assert_eq!(ResolveError::PubDateNotFound.message(), "pub date not found");
    assert_eq!(ResolveError::LinkNotFound.message(), "link not found");
    assert_eq!(ResolveError::MediaNotFound.message(), "media not found");
    assert_eq!(ResolveError::ContentNotFound.message(), "content not found");
    assert_eq!(ResolveError::ContentFirstNotFound.message(), "content first extension not found");
    assert_eq!(ResolveError::HashNotFound.message(), "hash not found");
    assert_eq!(ResolveError::HashFirstNotFound.message(), "hash first extension not found");
    assert_eq!(ResolveError::TitleNotFound.message(), "title not found");
    assert_eq!(ResolveError::FileNameNotFound.message(), "file name not found");
    assert_eq!(ResolveError::FileNameNotText.message(), "file name can not to str");
    assert_eq!(ResolveError::PubDateInvalid.message(), "pub date invalid");
}

#[test]
fn file_name_is_always_a_single_segment() {
    for title in ["rom/build-42.zip", "/a/b/c.zip", "a//b/", "x/./y", "./z", "a/b/.", "..zip"] {
        let name = file_name(&titled(title)).unwrap();
        assert!(!name.is_empty());
        assert!(!name.contains('/'));
        assert_ne!(name, "..");
    }
    assert_eq!(file_name(&titled("a/b/.")), Ok("b".to_string()));
    assert_eq!(file_name(&titled("../../etc/passwd")), Ok("passwd".to_string()));
    assert_eq!(file_name(&titled("a/..")), Err(ResolveError::FileNameNotFound));
}
