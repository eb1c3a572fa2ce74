use vstd::prelude::*;

use crate::error::{ErrorKind, SherdogError};
use crate::fighter::Fighter;
use crate::html::{
    attrs_in_scope, doc_texts, nested_texts, opt_view, scope_attrs, scope_texts, texts_in_document,
    texts_in_nested, texts_in_scope, texts_view,
};
use crate::profile::{
    is_profile_of, link_view, profile_from, rows_view, tally_view, LinkView, ProfileView, RawLink,
    RawProfile, RawRow, RawTally, RowView, TallyView,
};

verus! {

/// The profile's info container.
pub const INFO: &'static str = ".fighter-info";
pub const NAME: &'static str = "[itemprop='name'] > .fn";
pub const NICKNAME: &'static str = "[itemprop='name'] > .nickname";
pub const IMAGE: &'static str = "img.profile-image.photo";
pub const BIRTHDAY: &'static str = "[itemprop='birthDate']";
pub const LOCALITY: &'static str = "[itemprop='addressLocality']";
pub const NATIONALITY: &'static str = "strong[itemprop='nationality']";
pub const HEIGHT: &'static str = "[itemprop='height']";
pub const WEIGHT: &'static str = "[itemprop='weight']";
pub const ASSOCIATION: &'static str = ".association > [itemprop='name']";
pub const WEIGHT_CLASS: &'static str = ".association-class > a";
pub const WINS: &'static str = ".wins";
pub const WINS_TOTAL: &'static str = ".win span:nth-child(2)";
pub const LOSSES: &'static str = ".loses";
pub const LOSSES_TOTAL: &'static str = ".lose span:nth-child(2)";
/// A method badge of a wins or losses block.
pub const BADGE: &'static str = ".pl";
pub const NO_CONTESTS: &'static str = ".nc span:nth-child(2)";
/// A row of the fight history, its header excluded.
pub const HISTORY: &'static str = ".module.fight_history tr:not(.table_head)";
pub const RESULT: &'static str = "td:nth-child(1) .final_result";
pub const OPPONENT: &'static str = "td:nth-child(2) a";
pub const EVENT: &'static str = "td:nth-child(3) a";
pub const EVENT_DATE: &'static str = "td:nth-child(3) .sub_line";
pub const METHOD: &'static str = "td:nth-child(4)";
pub const REFEREE: &'static str = "td:nth-child(4) .sub_line";
pub const ROUND: &'static str = "td:nth-child(5)";
pub const TIME: &'static str = "td:nth-child(6)";

/// The first of the texts found; none where nothing was found.
pub open spec fn first_of(o: Option<Seq<Seq<char>>>) -> Option<Seq<char>> {
    match o {
        Some(s) => if s.len() > 0 { Some(s[0]) } else { None },
        None => None,
    }
}

/// All the texts found; empty where nothing was found.
pub open spec fn all_of(o: Option<Seq<Seq<char>>>) -> Seq<Seq<char>> {
    match o {
        Some(s) => s,
        None => Seq::empty(),
    }
}

/// The attribute value of the first element found.
pub open spec fn first_attr_of(o: Option<Seq<Option<Seq<char>>>>) -> Option<Seq<char>> {
    match o {
        Some(s) => if s.len() > 0 { s[0] } else { None },
        None => None,
    }
}

pub open spec fn info_text(page: Seq<char>, css: Seq<char>) -> Option<Seq<char>> {
    first_of(scope_texts(page, INFO@, 0, css))
}

/// The first wins or losses block of the info container, with its total and its badges.
pub open spec fn tally_at(page: Seq<char>, block: Seq<char>, total: Seq<char>) -> Option<TallyView> {
    if all_of(scope_texts(page, INFO@, 0, block)).len() == 0 {
        None
    } else {
        Some(TallyView {
            total: first_of(nested_texts(page, INFO@, 0, block, 0, total)),
            badges: all_of(nested_texts(page, INFO@, 0, block, 0, BADGE@)),
        })
    }
}

pub open spec fn row_text(page: Seq<char>, i: nat, css: Seq<char>) -> Option<Seq<char>> {
    first_of(scope_texts(page, HISTORY@, i, css))
}

/// The first link of a cell of history row `i`: its text and its target.
pub open spec fn row_link(page: Seq<char>, i: nat, css: Seq<char>) -> Option<LinkView> {
    let texts = all_of(scope_texts(page, HISTORY@, i, css));
    if texts.len() == 0 {
        None
    } else {
        Some(LinkView { text: texts[0], href: first_attr_of(scope_attrs(page, HISTORY@, i, css, "href"@)) })
    }
}

/// History row `i` of the page.
pub open spec fn row_at(page: Seq<char>, i: nat) -> RowView {
    RowView {
        result: row_text(page, i, RESULT@),
        opponent: row_link(page, i, OPPONENT@),
        event: row_link(page, i, EVENT@),
        date: row_text(page, i, EVENT_DATE@),
        method: row_text(page, i, METHOD@),
        referee: row_text(page, i, REFEREE@),
        round: row_text(page, i, ROUND@),
        time: row_text(page, i, TIME@),
    }
}

pub open spec fn history_len(page: Seq<char>) -> nat {
    all_of(doc_texts(page, HISTORY@)).len()
}

/// What the profile page `page` holds: nothing where it has no info container; otherwise the
/// first match of each field's query within the first info container, all the affiliations,
/// the wins and losses blocks, and every row of the history table.
pub open spec fn raw_profile_of(page: Seq<char>) -> Option<ProfileView> {
    if all_of(doc_texts(page, INFO@)).len() == 0 {
        None
    } else {
        Some(ProfileView {
            name: info_text(page, NAME@),
            nickname: info_text(page, NICKNAME@),
            image_url: first_attr_of(scope_attrs(page, INFO@, 0, IMAGE@, "src"@)),
            birthday: info_text(page, BIRTHDAY@),
            locality: info_text(page, LOCALITY@),
            nationality: info_text(page, NATIONALITY@),
            association: all_of(scope_texts(page, INFO@, 0, ASSOCIATION@)),
            height: info_text(page, HEIGHT@),
            weight: info_text(page, WEIGHT@),
            weight_class: info_text(page, WEIGHT_CLASS@),
            wins: tally_at(page, WINS@, WINS_TOTAL@),
            losses: tally_at(page, LOSSES@, LOSSES_TOTAL@),
            no_contests: info_text(page, NO_CONTESTS@),
            rows: Seq::new(history_len(page), |i: int| row_at(page, i as nat)),
        })
    }
}

fn first_text(found: Option<Vec<String>>) -> (r: Option<String>)
    ensures
        opt_view(r) == first_of(match found { Some(v) => Some(texts_view(v@)), None => None }),
{
    match found {
        Some(v) => if v.len() > 0 { Some(v[0].clone()) } else { None },
        None => None,
    }
}

fn all_texts(found: Option<Vec<String>>) -> (r: Vec<String>)
    ensures
        texts_view(r@) == all_of(match found { Some(v) => Some(texts_view(v@)), None => None }),
{
    match found {
        Some(v) => v,
        None => {
            let v: Vec<String> = Vec::new();
            proof {
                assert(texts_view(v@) =~= Seq::<Seq<char>>::empty());
            }
            v
        },
    }
}

fn first_attr(found: Option<Vec<Option<String>>>) -> (r: Option<String>)
    ensures
        opt_view(r) == first_attr_of(match found { Some(v) => Some(crate::html::attrs_view(v@)), None => None }),
{
    match found {
        Some(v) => if v.len() > 0 {
            match &v[0] {
                Some(s) => Some(s.clone()),
                None => None,
            }
        } else {
            None
        },
        None => None,
    }
}

fn info_field(page: &str, css: &str) -> (r: Option<String>)
    ensures
        opt_view(r) == info_text(page@, css@),
{
    first_text(texts_in_scope(page, INFO, 0, css))
}

fn row_field(page: &str, i: usize, css: &str) -> (r: Option<String>)
    ensures
        opt_view(r) == row_text(page@, i as nat, css@),
{
    first_text(texts_in_scope(page, HISTORY, i, css))
}

fn read_link(page: &str, i: usize, css: &str) -> (r: Option<RawLink>)
    ensures
        link_view(r) == row_link(page@, i as nat, css@),
{
    let texts = all_texts(texts_in_scope(page, HISTORY, i, css));
    if texts.len() == 0 {
        None
    } else {
        let href = first_attr(attrs_in_scope(page, HISTORY, i, css, "href"));
        Some(RawLink { text: texts[0].clone(), href })
    }
}

fn read_tally(page: &str, block: &str, total: &str) -> (r: Option<RawTally>)
    ensures
        tally_view(r) == tally_at(page@, block@, total@),
{
    let blocks = all_texts(texts_in_scope(page, INFO, 0, block));
    if blocks.len() == 0 {
        None
    } else {
        Some(RawTally {
            total: first_text(texts_in_nested(page, INFO, 0, block, 0, total)),
            badges: all_texts(texts_in_nested(page, INFO, 0, block, 0, BADGE)),
        })
    }
}

fn read_row(page: &str, i: usize) -> (r: RawRow)
    ensures
        r@ == row_at(page@, i as nat),
{
    RawRow {
        result: row_field(page, i, RESULT),
        opponent: read_link(page, i, OPPONENT),
        event: read_link(page, i, EVENT),
        date: row_field(page, i, EVENT_DATE),
        method: row_field(page, i, METHOD),
        referee: row_field(page, i, REFEREE),
        round: row_field(page, i, ROUND),
        time: row_field(page, i, TIME),
    }
}

/// What the profile page `page` holds, before defaults are applied; `None` where it has no
/// info container.
pub fn read_profile(page: &str) -> (r: Option<RawProfile>)
    ensures
        match r {
            None => raw_profile_of(page@) is None,
            Some(p) => raw_profile_of(page@) == Some(p@),
        },
{
    let infos = all_texts(texts_in_document(page, INFO));
    if infos.len() == 0 {
        return None;
    }
    let history = all_texts(texts_in_document(page, HISTORY));
    let n = history.len();
    let mut rows: Vec<RawRow> = Vec::new();
    let mut i: usize = 0;
    while i < n
        invariant
            i <= n,
            n == history_len(page@),
            rows_view(rows@) =~= Seq::new(i as nat, |k: int| row_at(page@, k as nat)),
        decreases n - i,
    {
        let row = read_row(page, i);
        let ghost before = rows@;
        rows.push(row);
        proof {
            assert(rows_view(rows@) =~= rows_view(before).push(row@));
            assert(rows_view(before).len() == i);
            assert forall|k: int| 0 <= k < i implies rows_view(before)[k] == row_at(page@, k as nat) by {
                assert(rows_view(before)[k] == Seq::new(i as nat, |k: int| row_at(page@, k as nat))[k]);
            }
        }
        i = i + 1;
    }
    let raw = RawProfile {
        name: info_field(page, NAME),
        nickname: info_field(page, NICKNAME),
        image_url: first_attr(attrs_in_scope(page, INFO, 0, IMAGE, "src")),
        birthday: info_field(page, BIRTHDAY),
        locality: info_field(page, LOCALITY),
        nationality: info_field(page, NATIONALITY),
        association: all_texts(texts_in_scope(page, INFO, 0, ASSOCIATION)),
        height: info_field(page, HEIGHT),
        weight: info_field(page, WEIGHT),
        weight_class: info_field(page, WEIGHT_CLASS),
        wins: read_tally(page, WINS, WINS_TOTAL),
        losses: read_tally(page, LOSSES, LOSSES_TOTAL),
        no_contests: info_field(page, NO_CONTESTS),
        rows,
    };
    proof {
        assert(raw@.rows =~= Seq::new(history_len(page@), |k: int| row_at(page@, k as nat)));
    }
    Some(raw)
}

/// The record of the profile page `page`, fetched from `url`. It fails, with a parse error,
/// exactly where the page has no info container, whatever else it holds; otherwise every field
/// takes its default where the page lacks it.
pub fn extract_profile(url: &str, page: &str) -> (r: Result<Fighter, SherdogError>)
    ensures
        match raw_profile_of(page@) {
            None => r is Err && r->Err_0.kind_view() == ErrorKind::Parse,
            Some(p) => r is Ok && is_profile_of(r->Ok_0, url@, p),
        },
{
    let raw = read_profile(page);
    profile_from(url, &raw)
}

} // verus!
