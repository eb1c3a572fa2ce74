use vstd::prelude::*;
use vstd::string::*;

use crate::error::{ErrorKind, SherdogError};
use crate::html::{attrs_in_document, attrs_view, doc_attrs, opt_view};
use crate::text::{contains, contains_text};

verus! {

/// The query's name–value pairs of the URL written `url`, percent-decoded and in order;
/// `None` where `url` is not a URL.
pub uninterp spec fn query_pairs_of(url: Seq<char>) -> Option<Seq<(Seq<char>, Seq<char>)>>;

pub open spec fn pair_views(v: Seq<(String, String)>) -> Seq<(Seq<char>, Seq<char>)> {
    v.map_values(|p: (String, String)| (p.0@, p.1@))
}

/// Relies on url::Url::parse, which refuses a text that is not a URL, and on
/// url::Url::query_pairs, which lists the query's pairs, percent-decoded, in order.
#[verifier::external_body]
fn decoded_query_pairs(url: &str) -> (r: Option<Vec<(String, String)>>)
    ensures
        match r {
            None => query_pairs_of(url@) is None,
            Some(v) => query_pairs_of(url@) == Some(pair_views(v@)),
        },
{
    match url::Url::parse(url) {
        Ok(u) => Some(u.query_pairs().map(|(k, v)| (k.into_owned(), v.into_owned())).collect()),
        Err(_) => None,
    }
}

/// The value of the first pair named `key`.
pub open spec fn first_value(pairs: Seq<(Seq<char>, Seq<char>)>, key: Seq<char>) -> Option<Seq<char>>
    decreases pairs.len(),
{
    if pairs.len() == 0 {
        None
    } else if pairs[0].0 == key {
        Some(pairs[0].1)
    } else {
        first_value(pairs.drop_first(), key)
    }
}

/// The value of the first pair named `key`, if any pair has that name.
pub fn query_value(pairs: &Vec<(String, String)>, key: &str) -> (r: Option<String>)
    ensures
        opt_view(r) == first_value(pair_views(pairs@), key@),
{
    let ghost pv = pair_views(pairs@);
    let k = String::from_str(key);
    let n = pairs.len();
    let mut i: usize = 0;
    proof {
        assert(pv.subrange(0, n as int) =~= pv);
    }
    while i < n
        invariant
            n == pairs@.len(),
            i <= n,
            k@ == key@,
            pv == pair_views(pairs@),
            first_value(pv.subrange(i as int, n as int), key@) == first_value(pv, key@),
        decreases n - i,
    {
        proof {
            assert(pv.subrange(i as int, n as int).drop_first() =~= pv.subrange(i + 1, n as int));
            assert(pv.subrange(i as int, n as int)[0] == pv[i as int]);
        }
        if pairs[i].0 == k {
            return Some(pairs[i].1.clone());
        }
        i = i + 1;
    }
    proof {
        assert(pv.subrange(n as int, n as int).len() == 0);
    }
    None
}

/// Result links of the search engine are relative to this origin.
pub open spec fn search_origin() -> Seq<char> {
    "https://www.google.com"@
}

/// The destination that a relative result link `href` carries in its `q` parameter.
pub open spec fn redirect_target(href: Seq<char>) -> Option<Seq<char>> {
    match query_pairs_of(search_origin() + href) {
        None => None,
        Some(pairs) => first_value(pairs, "q"@),
    }
}

/// The destination that a relative result link carries in its `q` parameter; `None` where
/// the link does not make a URL or has no such parameter.
pub fn redirect_destination(href: &str) -> (r: Option<String>)
    ensures
        opt_view(r) == redirect_target(href@),
{
    let full = String::from_str("https://www.google.com").concat(href);
    match decoded_query_pairs(full.as_str()) {
        None => None,
        Some(pairs) => query_value(&pairs, "q"),
    }
}

/// The path segment that marks a link to a fighter's profile.
pub open spec fn profile_marker() -> Seq<char> {
    "/fighter/"@
}

pub open spec fn is_profile_href(o: Option<Seq<char>>) -> bool {
    match o {
        Some(h) => contains_text(h, profile_marker()),
        None => false,
    }
}

pub open spec fn is_first_profile_href(hrefs: Seq<Option<Seq<char>>>, i: int) -> bool {
    &&& 0 <= i < hrefs.len()
    &&& is_profile_href(hrefs[i])
    &&& forall|j: int| 0 <= j < i ==> !is_profile_href(#[trigger] hrefs[j])
}

/// What a search-results page with these link targets resolves to: the destination carried by
/// the first link to a profile, and nothing where that link carries none, whatever follows it.
pub open spec fn resolved(hrefs: Seq<Option<Seq<char>>>) -> Option<Seq<char>> {
    if exists|i: int| is_first_profile_href(hrefs, i) {
        let i = choose|i: int| is_first_profile_href(hrefs, i);
        redirect_target(hrefs[i]->Some_0)
    } else {
        None
    }
}

/// The profile URL that a search-results page gives, from the targets of its links in
/// document order (`None` for a link without one). Only the first link to a profile counts.
pub fn resolve_links(hrefs: &Vec<Option<String>>) -> (r: Result<String, SherdogError>)
    ensures
        match resolved(attrs_view(hrefs@)) {
            Some(t) => r is Ok && r->Ok_0@ == t,
            None => r is Err && r->Err_0.kind_view() == ErrorKind::NotFound,
        },
{
    let ghost hv = attrs_view(hrefs@);
    let mut i: usize = 0;
    while i < hrefs.len()
        invariant
            i <= hrefs.len(),
            hv == attrs_view(hrefs@),
            forall|j: int| 0 <= j < i ==> !is_profile_href(#[trigger] hv[j]),
        decreases hrefs.len() - i,
    {
        match &hrefs[i] {
            Some(h) => {
                if contains(h.as_str(), "/fighter/") {
                    proof {
                        assert(hv[i as int] == Some(h@));
                        assert(is_first_profile_href(hv, i as int));
                        let k = choose|k: int| is_first_profile_href(hv, k);
                        assert(k == i as int);
                    }
                    return match redirect_destination(h.as_str()) {
                        Some(t) => Ok(t),
                        None => Err(SherdogError::new("No sherdog link found")),
                    };
                }
            },
            None => {},
        }
        proof {
            assert(hrefs@[i as int] is None ==> hv[i as int] is None);
        }
        i = i + 1;
    }
    proof {
        assert(!exists|k: int| is_first_profile_href(hv, k));
    }
    Err(SherdogError::new("No sherdog link found"))
}

/// The profile URL that the search-results page `page` gives: the destination carried by
/// its first link to a profile; not found where that link carries none, or where there is no
/// such link.
pub fn resolve_page(page: &str) -> (r: Result<String, SherdogError>)
    ensures
        match doc_attrs(page@, "a"@, "href"@) {
            Some(hrefs) => match resolved(hrefs) {
                Some(t) => r is Ok && r->Ok_0@ == t,
                None => r is Err && r->Err_0.kind_view() == ErrorKind::NotFound,
            },
            None => r is Err && r->Err_0.kind_view() == ErrorKind::NotFound,
        },
{
    match attrs_in_document(page, "a", "href") {
        Some(hrefs) => resolve_links(&hrefs),
        None => Err(SherdogError::new("No sherdog link found")),
    }
}

/// How `s` reads as an `application/x-www-form-urlencoded` query value.
pub uninterp spec fn form_encoded(s: Seq<char>) -> Seq<char>;

/// Relies on url's form_urlencoded::byte_serialize: the UTF-8 bytes of `s` written for a query
/// value, a space as `+` and every byte but letters, digits and `*-._` percent-encoded.
#[verifier::external_body]
fn form_encode(s: &str) -> (r: String)
    ensures
        r@ == form_encoded(s@),
{
    url::form_urlencoded::byte_serialize(s.as_bytes()).collect()
}

/// The search request for a name already encoded as a query value, qualified by the site's
/// brand.
pub fn search_url_for_encoded(encoded: &str) -> (r: String)
    ensures
        r@ == "https://www.google.com/search?q="@ + encoded@ + "%20sherdog"@,
{
    String::from_str("https://www.google.com/search?q=").concat(encoded).concat("%20sherdog")
}

/// The search request whose `q` parameter is the phrase `<name> sherdog`.
pub fn search_url(name: &str) -> (r: String)
    ensures
        r@ == "https://www.google.com/search?q="@ + form_encoded(name@) + "%20sherdog"@,
{
    let encoded = form_encode(name);
    search_url_for_encoded(encoded.as_str())
}

} // verus!
