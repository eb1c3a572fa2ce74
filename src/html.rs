use vstd::prelude::*;

verus! {

/// The views of a list of texts.
pub open spec fn texts_view(v: Seq<String>) -> Seq<Seq<char>> {
    v.map_values(|s: String| s@)
}

pub open spec fn opt_view(o: Option<String>) -> Option<Seq<char>> {
    match o {
        Some(s) => Some(s@),
        None => None,
    }
}

/// The views of a list of attribute values.
pub open spec fn attrs_view(v: Seq<Option<String>>) -> Seq<Option<Seq<char>>> {
    v.map_values(|o: Option<String>| opt_view(o))
}

/// The texts of the elements of the document `page` that `css` matches, in document order;
/// `None` where `css` is not a selector group.
pub uninterp spec fn doc_texts(page: Seq<char>, css: Seq<char>) -> Option<Seq<Seq<char>>>;

/// The values of attribute `attr` of the elements of the document `page` that `css` matches,
/// in document order; `None` where `css` is not a selector group.
pub uninterp spec fn doc_attrs(page: Seq<char>, css: Seq<char>, attr: Seq<char>) -> Option<Seq<Option<Seq<char>>>>;

/// The texts of the descendants that `css` matches of the element at `index` among those of
/// the document `page` that `scope` matches; `None` where a selector is refused or no element
/// stands at `index`.
pub uninterp spec fn scope_texts(page: Seq<char>, scope: Seq<char>, index: nat, css: Seq<char>) -> Option<Seq<Seq<char>>>;

/// As `scope_texts`, the values of attribute `attr` of those descendants.
pub uninterp spec fn scope_attrs(
    page: Seq<char>,
    scope: Seq<char>,
    index: nat,
    css: Seq<char>,
    attr: Seq<char>,
) -> Option<Seq<Option<Seq<char>>>>;

/// As `scope_texts`, one level further down: within the element at `index` of those that
/// `scope` matches, the element at `inner_index` of the descendants that `inner` matches.
pub uninterp spec fn nested_texts(
    page: Seq<char>,
    scope: Seq<char>,
    index: nat,
    inner: Seq<char>,
    inner_index: nat,
    css: Seq<char>,
) -> Option<Seq<Seq<char>>>;

/// Relies on scraper's Html::parse_document, Selector::parse, Html::select and
/// ElementRef::text: the texts of the matching elements, in document order.
#[verifier::external_body]
pub(crate) fn texts_in_document(page: &str, css: &str) -> (r: Option<Vec<String>>)
    ensures
        match r {
            Some(v) => doc_texts(page@, css@) == Some(texts_view(v@)),
            None => doc_texts(page@, css@) is None,
        },
{
    let doc = scraper::Html::parse_document(page);
    let sel = scraper::Selector::parse(css).ok()?;
    Some(doc.select(&sel).map(|e| e.text().collect()).collect())
}

/// Relies on scraper's Html::parse_document, Selector::parse, Html::select and
/// ElementRef::attr: the attribute of the matching elements, in document order.
#[verifier::external_body]
pub(crate) fn attrs_in_document(page: &str, css: &str, attr: &str) -> (r: Option<Vec<Option<String>>>)
    ensures
        match r {
            Some(v) => doc_attrs(page@, css@, attr@) == Some(attrs_view(v@)),
            None => doc_attrs(page@, css@, attr@) is None,
        },
{
    let doc = scraper::Html::parse_document(page);
    let sel = scraper::Selector::parse(css).ok()?;
    Some(doc.select(&sel).map(|e| e.attr(attr).map(|v| v.to_string())).collect())
}

/// Relies on scraper's Html::parse_document, Selector::parse, Html::select,
/// ElementRef::select and ElementRef::text.
#[verifier::external_body]
pub(crate) fn texts_in_scope(page: &str, scope: &str, index: usize, css: &str) -> (r: Option<Vec<String>>)
    ensures
        match r {
            Some(v) => scope_texts(page@, scope@, index as nat, css@) == Some(texts_view(v@)),
            None => scope_texts(page@, scope@, index as nat, css@) is None,
        },
{
    let doc = scraper::Html::parse_document(page);
    let outer = scraper::Selector::parse(scope).ok()?;
    let sel = scraper::Selector::parse(css).ok()?;
    let el = doc.select(&outer).nth(index)?;
    Some(el.select(&sel).map(|e| e.text().collect()).collect())
}

/// Relies on scraper's Html::parse_document, Selector::parse, Html::select,
/// ElementRef::select and ElementRef::attr.
#[verifier::external_body]
pub(crate) fn attrs_in_scope(page: &str, scope: &str, index: usize, css: &str, attr: &str) -> (r: Option<Vec<Option<String>>>)
    ensures
        match r {
            Some(v) => scope_attrs(page@, scope@, index as nat, css@, attr@) == Some(attrs_view(v@)),
            None => scope_attrs(page@, scope@, index as nat, css@, attr@) is None,
        },
{
    let doc = scraper::Html::parse_document(page);
    let outer = scraper::Selector::parse(scope).ok()?;
    let sel = scraper::Selector::parse(css).ok()?;
    let el = doc.select(&outer).nth(index)?;
    Some(el.select(&sel).map(|e| e.attr(attr).map(|v| v.to_string())).collect())
}

/// Relies on scraper's Html::parse_document, Selector::parse, Html::select,
/// ElementRef::select and ElementRef::text.
#[verifier::external_body]
pub(crate) fn texts_in_nested(page: &str, scope: &str, index: usize, inner: &str, inner_index: usize, css: &str) -> (r: Option<Vec<String>>)
    ensures
        match r {
            Some(v) => nested_texts(page@, scope@, index as nat, inner@, inner_index as nat, css@) == Some(texts_view(v@)),
            None => nested_texts(page@, scope@, index as nat, inner@, inner_index as nat, css@) is None,
        },
{
    let doc = scraper::Html::parse_document(page);
    let outer = scraper::Selector::parse(scope).ok()?;
    let mid = scraper::Selector::parse(inner).ok()?;
    let sel = scraper::Selector::parse(css).ok()?;
    let el = doc.select(&outer).nth(index)?.select(&mid).nth(inner_index)?;
    Some(el.select(&sel).map(|e| e.text().collect()).collect())
}

} // verus!
