use imgrab::enumerator::{Pull, TaskProvider};
use imgrab::error::{Error, ExtractionError};
use imgrab::imgur::{Accessor, ImageRecord, ImgurAlbumAccessor, ImgurProvider, ImgurSingleImageAccessor, PageData};
use imgrab::naming::{suggested_filename, NamingContext};
use imgrab::source::SourceUrl;

fn image(link: &str) -> ImageRecord {
    ImageRecord { link: Some(link.to_string()) }
}

fn item(p: Pull) -> String {
    match p {
        Pull::Item(s) => s,
        _ => panic!("expected an item"),
    }
}

#[test]
fn album_end_to_end() {
    let url = SourceUrl::parse("https://imgur.com/a/AbCdE").unwrap();
    let accessor = ImgurProvider.try_get_accessor(&url).unwrap();
    assert!(matches!(accessor, Accessor::Album(_)));
    let mut tasks = TaskProvider::new(accessor, ());
    match tasks.pull() {
        Pull::Page(loc) => assert_eq!(loc, "https://api.imgur.com/3/album/AbCdE/images"),
        _ => panic!("expected a page request"),
    }
    let err = tasks.page_fetched(Ok(Some(PageData::Images(vec![image("L1"), image("L2"), image("L3")]))));
    assert!(err.is_none());
    assert_eq!(item(tasks.pull()), "L1");
    assert_eq!(item(tasks.pull()), "L2");
    assert_eq!(item(tasks.pull()), "L3");
    assert!(matches!(tasks.pull(), Pull::Exhausted));
    assert!(matches!(tasks.pull(), Pull::Exhausted));
}

#[test]
fn malformed_page_yields_metadata_failure_and_no_items() {
    let accessor = Accessor::Album(ImgurAlbumAccessor::new("AbCdE".to_string()));
    let mut tasks = TaskProvider::new(accessor, ());
    assert!(matches!(tasks.pull(), Pull::Page(_)));
    let err = tasks.page_fetched(Ok(None)).expect("a failure");
    assert_eq!(err.extraction(), Some(ExtractionError::Metadata));
    assert!(matches!(tasks.pull(), Pull::Exhausted));
}

#[test]
fn page_failure_ends_the_sequence() {
    let accessor = Accessor::SingleImage(ImgurSingleImageAccessor::new("x".to_string()));
    let mut tasks = TaskProvider::new(accessor, ());
    assert!(matches!(tasks.pull(), Pull::Page(_)));
    let err = tasks.page_fetched(Err(Error::Network("timed out".to_string()))).expect("a failure");
    assert!(matches!(err, Error::Network(_)));
    assert!(matches!(tasks.pull(), Pull::Exhausted));
}

#[test]
fn pending_items_come_before_any_page_request() {
    let accessor = Accessor::Album(ImgurAlbumAccessor::new("AbCdE".to_string()));
    let mut tasks = TaskProvider::new(accessor, 7u8);
    assert!(matches!(tasks.pull(), Pull::Page(_)));
    assert!(tasks.page_fetched(Ok(Some(PageData::Images(vec![image("L1"), image("L2")])))).is_none());
    assert!(matches!(tasks.pull(), Pull::Item(_)));
    // A page handed in while items are pending is ignored.
    assert!(tasks.page_fetched(Ok(Some(PageData::Images(vec![image("X")])))).is_none());
    assert_eq!(item(tasks.pull()), "L2");
    assert!(matches!(tasks.pull(), Pull::Exhausted));
    assert_eq!(*tasks.client(), 7u8);
}

#[test]
fn empty_album_is_exhausted_at_once() {
    let accessor = Accessor::Album(ImgurAlbumAccessor::new("E".to_string()));
    let mut tasks = TaskProvider::new(accessor, ());
    assert!(matches!(tasks.pull(), Pull::Page(_)));
    assert!(tasks.page_fetched(Ok(Some(PageData::Images(Vec::new())))).is_none());
    assert!(matches!(tasks.pull(), Pull::Exhausted));
}

#[test]
fn single_image_end_to_end() {
    let url = SourceUrl::parse("https://imgur.com/q1W2e3").unwrap();
    let mut tasks = TaskProvider::new(ImgurProvider.try_get_accessor(&url).unwrap(), ());
    match tasks.pull() {
        Pull::Page(loc) => assert_eq!(loc, "https://api.imgur.com/3/image/q1W2e3"),
        _ => panic!("expected a page request"),
    }
    assert!(tasks.page_fetched(Ok(Some(PageData::Image(image("L"))))).is_none());
    assert_eq!(item(tasks.pull()), "L");
    assert!(matches!(tasks.pull(), Pull::Exhausted));
}

#[test]
fn filename_follows_marker() {
    assert_eq!(suggested_filename("attachment; filename=photo.png"), Some("photo.png".to_string()));
    assert_eq!(suggested_filename("filename=a; filename=b.jpg"), Some("b.jpg".to_string()));
    assert_eq!(suggested_filename("filename="), Some(String::new()));
    assert_eq!(suggested_filename("attachment; filename=\"q w.gif\""), Some("\"q w.gif\"".to_string()));
}

#[test]
fn filename_absent_without_marker() {
    assert_eq!(suggested_filename("attachment"), None);
    assert_eq!(suggested_filename(""), None);
    assert_eq!(suggested_filename("name=photo.png"), None);
}

#[test]
fn naming_context_from_header() {
    let c = NamingContext::new("L1".to_string(), Some("inline; filename=photo.png"));
    assert_eq!(c.url, "L1");
    assert_eq!(c.disposition, Some("photo.png".to_string()));
    let none = NamingContext::new("L2".to_string(), None);
    assert_eq!(none.disposition, None);
}
