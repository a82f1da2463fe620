use binge_rss::error::IconError;
use binge_rss::favicon::{derive_icon_url, icon_url_for, Origin, ICON_PATH, SCHEME_SEPARATOR};

fn links(all: &[&str]) -> Vec<String> {
    all.iter().map(|l| String::from(*l)).collect()
}

#[test]
fn icon_address_is_scheme_host_and_fixed_path() {
    let origin = Origin { scheme: String::from("https"), host: Some(String::from("news.example.com")) };
    assert_eq!(icon_url_for(&origin), Ok(String::from("https://news.example.com/favicon.ico")));
    assert_eq!(SCHEME_SEPARATOR, "://");
    assert_eq!(ICON_PATH, "/favicon.ico");
}

#[test]
fn origin_without_host_has_no_icon_address() {
    let origin = Origin { scheme: String::from("mailto"), host: None };
    assert_eq!(icon_url_for(&origin), Err(IconError::IconDerivationError));
}

#[test]
fn icon_address_comes_from_the_first_link() {
    let made = derive_icon_url(&links(&["https://news.example.com/rss", "https://other.example.org/"]));
    assert_eq!(made, Ok(String::from("https://news.example.com/favicon.ico")));
}

#[test]
fn icon_address_drops_port_path_and_query() {
    let made = derive_icon_url(&links(&["http://user@example.com:8080/a/b.xml?x=1#top"]));
    assert_eq!(made, Ok(String::from("http://example.com/favicon.ico")));
}

#[test]
fn icon_address_has_scheme_and_host_in_lower_case() {
    let made = derive_icon_url(&links(&["HTTPS://News.Example.COM/Feed"]));
    assert_eq!(made, Ok(String::from("https://news.example.com/favicon.ico")));
}

#[test]
fn icon_address_of_ip_hosts() {
    assert_eq!(
        derive_icon_url(&links(&["http://127.0.0.1/feed"])),
        Ok(String::from("http://127.0.0.1/favicon.ico"))
    );
    assert_eq!(
        derive_icon_url(&links(&["http://[::1]:8080/feed"])),
        Ok(String::from("http://[::1]/favicon.ico"))
    );
}

#[test]
fn no_link_gives_no_icon_address() {
    assert_eq!(derive_icon_url(&Vec::new()), Err(IconError::IconDerivationError));
}

#[test]
fn unusable_first_link_gives_no_icon_address() {
    assert_eq!(derive_icon_url(&links(&["not a url"])), Err(IconError::IconDerivationError));
    assert_eq!(derive_icon_url(&links(&["/relative/path"])), Err(IconError::IconDerivationError));
    assert_eq!(derive_icon_url(&links(&[""])), Err(IconError::IconDerivationError));
    assert_eq!(derive_icon_url(&links(&["mailto:someone@example.com"])), Err(IconError::IconDerivationError));
    assert_eq!(derive_icon_url(&links(&["data:text/plain,Stuff"])), Err(IconError::IconDerivationError));
    // Only the first link counts, even where a later one would do.
    assert_eq!(
        derive_icon_url(&links(&["not a url", "https://example.com/"])),
        Err(IconError::IconDerivationError)
    );
}
