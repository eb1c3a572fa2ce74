use sherdog::error::ErrorKind;
use sherdog::resolve::{query_value, redirect_destination, resolve_links, resolve_page, search_url, search_url_for_encoded};

#[test]
fn resolves_stub_search_page() {
    let page = "<html><body><a href=\"/url?q=https://example.org/fighter/Jon-Jones-1234&other=1\">Jon Jones</a></body></html>";
    let url = resolve_page(page).ok().expect("a profile link");
    assert_eq!(url, "https://example.org/fighter/Jon-Jones-1234");
}

#[test]
fn first_profile_link_wins_over_later_ones() {
    let page = "<a href=\"/about\">about</a>\
        <a href=\"/url?q=https://www.sherdog.com/fighter/Conor-McGregor-29688&sa=U\">first</a>\
        <a href=\"/url?q=https://www.sherdog.com/fighter/Other-1&sa=U\">second</a>";
    let url = resolve_page(page).ok().expect("a profile link");
    assert_eq!(url, "https://www.sherdog.com/fighter/Conor-McGregor-29688");
}

#[test]
fn first_profile_link_without_q_is_not_found() {
    let page = "<a href=\"/url?sa=U&u=https://www.sherdog.com/fighter/A-1\">first</a>\
        <a href=\"/url?q=https://www.sherdog.com/fighter/B-2\">second</a>";
    let err = resolve_page(page).err().expect("not found");
    assert_eq!(err.kind(), ErrorKind::NotFound);
}

#[test]
fn page_without_profile_link_is_not_found() {
    let page = "<a href=\"/url?q=https://example.org/news\">news</a><a>no target</a>";
    let err = resolve_page(page).err().expect("not found");
    assert_eq!(err.kind(), ErrorKind::NotFound);
    assert_eq!(err.message(), "No sherdog link found");
}

#[test]
fn resolve_links_skips_anchors_without_target() {
    let hrefs = vec![None, Some("/search?x=1".to_string()), Some("/url?q=https://www.sherdog.com/fighter/X-9".to_string())];
    assert_eq!(resolve_links(&hrefs).ok(), Some("https://www.sherdog.com/fighter/X-9".to_string()));
    let none: Vec<Option<String>> = vec![];
    assert_eq!(resolve_links(&none).err().map(|e| e.kind()), Some(ErrorKind::NotFound));
}

#[test]
fn redirect_destination_decodes_q() {
    assert_eq!(
        redirect_destination("/url?sa=U&q=https%3A%2F%2Fwww.sherdog.com%2Ffighter%2FA%20B-1&q=later"),
        Some("https://www.sherdog.com/fighter/A B-1".to_string())
    );
    assert_eq!(redirect_destination("/url?sa=U"), None);
}

#[test]
fn query_value_takes_first_pair_of_the_name() {
    let pairs = vec![
        ("a".to_string(), "1".to_string()),
        ("q".to_string(), "x".to_string()),
        ("q".to_string(), "y".to_string()),
    ];
    assert_eq!(query_value(&pairs, "q"), Some("x".to_string()));
    assert_eq!(query_value(&pairs, "z"), None);
}

#[test]
fn search_url_names_the_site() {
    assert_eq!(search_url("Jon Jones"), "https://www.google.com/search?q=Jon+Jones%20sherdog");
    assert_eq!(search_url_for_encoded("Jon+Jones"), "https://www.google.com/search?q=Jon+Jones%20sherdog");
}

#[test]
fn search_url_encodes_reserved_characters() {
    assert_eq!(search_url("A&B #1+é"), "https://www.google.com/search?q=A%26B+%231%2B%C3%A9%20sherdog");
    assert_eq!(search_url(""), "https://www.google.com/search?q=%20sherdog");
}
