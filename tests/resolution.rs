use imgrab::imgur::{Accessor, ImgurProvider};
use imgrab::source::{has_prefix, last_segment, same_text, SourceUrl};

fn resolve(text: &str) -> Option<Accessor> {
    let url = SourceUrl::parse(text).expect("the URL parses");
    ImgurProvider.try_get_accessor(&url)
}

#[test]
fn album_url_resolves_to_album() {
    match resolve("https://imgur.com/a/AbCdE") {
        Some(Accessor::Album(a)) => {
            assert_eq!(a.page_location(), Some("https://api.imgur.com/3/album/AbCdE/images".to_string()));
        }
        _ => panic!("expected an album strategy"),
    }
}

#[test]
fn gallery_url_resolves_to_gallery() {
    match resolve("https://imgur.com/gallery/XyZ12") {
        Some(Accessor::Gallery(a)) => {
            assert_eq!(a.page_location(), Some("https://api.imgur.com/3/gallery/album/XyZ12".to_string()));
        }
        _ => panic!("expected a gallery strategy"),
    }
}

#[test]
fn plain_url_resolves_to_single_image() {
    match resolve("https://imgur.com/q1W2e3") {
        Some(Accessor::SingleImage(a)) => {
            assert_eq!(a.page_location(), Some("https://api.imgur.com/3/image/q1W2e3".to_string()));
        }
        _ => panic!("expected a single-image strategy"),
    }
}

#[test]
fn other_domains_are_unsupported() {
    assert!(resolve("https://example.com/a/AbCdE").is_none());
    assert!(resolve("https://i.imgur.com/a/AbCdE").is_none());
    assert!(resolve("https://127.0.0.1/a/AbCdE").is_none());
}

#[test]
fn url_without_base_is_unsupported() {
    let url = SourceUrl { domain: Some("imgur.com".to_string()), path: "a/b".to_string() };
    assert!(ImgurProvider.try_get_accessor(&url).is_none());
}

#[test]
fn parse_reads_domain_and_path() {
    let url = SourceUrl::parse("https://imgur.com/a/AbCdE").unwrap();
    assert_eq!(url.domain, Some("imgur.com".to_string()));
    assert_eq!(url.path, "/a/AbCdE");
    let ip = SourceUrl::parse("https://127.0.0.1/x").unwrap();
    assert_eq!(ip.domain, None);
    assert!(SourceUrl::parse("not a url").is_none());
}

#[test]
fn last_segment_takes_text_after_last_slash() {
    assert_eq!(last_segment("/a/AbCdE"), Some("AbCdE".to_string()));
    assert_eq!(last_segment("/a/"), Some(String::new()));
    assert_eq!(last_segment("/"), Some(String::new()));
    assert_eq!(last_segment("no-slash"), None);
    assert_eq!(last_segment(""), None);
}

#[test]
fn text_comparisons() {
    assert!(same_text("imgur.com", "imgur.com"));
    assert!(!same_text("imgur.com", "imgur.co"));
    assert!(has_prefix("/gallery/x", "/gallery/"));
    assert!(!has_prefix("/a", "/a/"));
    assert!(has_prefix("abc", ""));
}

#[test]
fn authorization_header_value() {
    assert_eq!(ImgurProvider.authorization("abc123"), "Client-ID abc123");
}
