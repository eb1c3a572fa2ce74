use vstd::prelude::*;
use vstd::string::*;

use crate::error::{ErrorKind, SherdogError};
use crate::fighter::{Fight, Fighter, Losses, Wins};
use crate::html::{opt_view, texts_view};
use crate::text::{count_from_text, count_of, cut_method, method_cut, strip_delimiters, without_delimiters};

verus! {

/// A link read from a page: its text, and its `href` where it has one.
#[derive(Debug, Clone, PartialEq, Eq, Default)]
pub struct RawLink {
    pub text: String,
    pub href: Option<String>,
}

/// A wins or losses block as read from a page: the total's text and the method badges in order.
#[derive(Debug, Clone, PartialEq, Eq, Default)]
pub struct RawTally {
    pub total: Option<String>,
    pub badges: Vec<String>,
}

/// One row of the fight history as read from a page; `None` where a cell is missing.
#[derive(Debug, Clone, PartialEq, Eq, Default)]
pub struct RawRow {
    pub result: Option<String>,
    pub opponent: Option<RawLink>,
    pub event: Option<RawLink>,
    pub date: Option<String>,
    pub method: Option<String>,
    pub referee: Option<String>,
    pub round: Option<String>,
    pub time: Option<String>,
}

/// What a profile page's info container and history table hold, before defaults are applied.
#[derive(Debug, Clone, PartialEq, Eq, Default)]
pub struct RawProfile {
    pub name: Option<String>,
    pub nickname: Option<String>,
    pub image_url: Option<String>,
    pub birthday: Option<String>,
    pub locality: Option<String>,
    pub nationality: Option<String>,
    pub association: Vec<String>,
    pub height: Option<String>,
    pub weight: Option<String>,
    pub weight_class: Option<String>,
    pub wins: Option<RawTally>,
    pub losses: Option<RawTally>,
    pub no_contests: Option<String>,
    pub rows: Vec<RawRow>,
}

/// A link as values: its text, and its target where it has one.
pub struct LinkView {
    pub text: Seq<char>,
    pub href: Option<Seq<char>>,
}

/// A wins or losses block as values.
pub struct TallyView {
    pub total: Option<Seq<char>>,
    pub badges: Seq<Seq<char>>,
}

/// A history row as values.
pub struct RowView {
    pub result: Option<Seq<char>>,
    pub opponent: Option<LinkView>,
    pub event: Option<LinkView>,
    pub date: Option<Seq<char>>,
    pub method: Option<Seq<char>>,
    pub referee: Option<Seq<char>>,
    pub round: Option<Seq<char>>,
    pub time: Option<Seq<char>>,
}

/// What a profile page holds, as values.
pub struct ProfileView {
    pub name: Option<Seq<char>>,
    pub nickname: Option<Seq<char>>,
    pub image_url: Option<Seq<char>>,
    pub birthday: Option<Seq<char>>,
    pub locality: Option<Seq<char>>,
    pub nationality: Option<Seq<char>>,
    pub association: Seq<Seq<char>>,
    pub height: Option<Seq<char>>,
    pub weight: Option<Seq<char>>,
    pub weight_class: Option<Seq<char>>,
    pub wins: Option<TallyView>,
    pub losses: Option<TallyView>,
    pub no_contests: Option<Seq<char>>,
    pub rows: Seq<RowView>,
}

pub open spec fn link_view(o: Option<RawLink>) -> Option<LinkView> {
    match o {
        Some(l) => Some(l@),
        None => None,
    }
}

pub open spec fn tally_view(o: Option<RawTally>) -> Option<TallyView> {
    match o {
        Some(t) => Some(t@),
        None => None,
    }
}

pub open spec fn rows_view(v: Seq<RawRow>) -> Seq<RowView> {
    v.map_values(|r: RawRow| r@)
}

impl View for RawLink {
    type V = LinkView;

    open spec fn view(&self) -> LinkView {
        LinkView { text: self.text@, href: opt_view(self.href) }
    }
}

impl View for RawTally {
    type V = TallyView;

    open spec fn view(&self) -> TallyView {
        TallyView { total: opt_view(self.total), badges: texts_view(self.badges@) }
    }
}

impl View for RawRow {
    type V = RowView;

    open spec fn view(&self) -> RowView {
        RowView {
            result: opt_view(self.result),
            opponent: link_view(self.opponent),
            event: link_view(self.event),
            date: opt_view(self.date),
            method: opt_view(self.method),
            referee: opt_view(self.referee),
            round: opt_view(self.round),
            time: opt_view(self.time),
        }
    }
}

impl View for RawProfile {
    type V = ProfileView;

    open spec fn view(&self) -> ProfileView {
        ProfileView {
            name: opt_view(self.name),
            nickname: opt_view(self.nickname),
            image_url: opt_view(self.image_url),
            birthday: opt_view(self.birthday),
            locality: opt_view(self.locality),
            nationality: opt_view(self.nationality),
            association: texts_view(self.association@),
            height: opt_view(self.height),
            weight: opt_view(self.weight),
            weight_class: opt_view(self.weight_class),
            wins: tally_view(self.wins),
            losses: tally_view(self.losses),
            no_contests: opt_view(self.no_contests),
            rows: rows_view(self.rows@),
        }
    }
}

/// A text field with its default: empty where it is missing.
pub open spec fn text_or_empty(o: Option<Seq<char>>) -> Seq<char> {
    match o {
        Some(s) => s,
        None => Seq::empty(),
    }
}

/// A count field with its default: zero where it is missing or not a number.
pub open spec fn count_or_zero(o: Option<Seq<char>>) -> u8 {
    match o {
        Some(s) => count_of(s),
        None => 0,
    }
}

pub open spec fn link_text(o: Option<LinkView>) -> Seq<char> {
    match o {
        Some(l) => l.text,
        None => Seq::empty(),
    }
}

pub open spec fn link_href(o: Option<LinkView>) -> Seq<char> {
    match o {
        Some(l) => text_or_empty(l.href),
        None => Seq::empty(),
    }
}

pub open spec fn nickname_text(o: Option<Seq<char>>) -> Seq<char> {
    match o {
        Some(s) => without_delimiters(s),
        None => Seq::empty(),
    }
}

pub open spec fn method_text(o: Option<Seq<char>>) -> Seq<char> {
    match o {
        Some(s) => method_cut(s),
        None => Seq::empty(),
    }
}

/// The count of the badge at position `i`: zero past the end of the list.
pub open spec fn badge_count(badges: Seq<Seq<char>>, i: int) -> u8 {
    if 0 <= i < badges.len() {
        count_of(badges[i])
    } else {
        0
    }
}

pub open spec fn tally_total(t: Option<TallyView>) -> u8 {
    match t {
        Some(t) => count_or_zero(t.total),
        None => 0,
    }
}

pub open spec fn tally_badge(t: Option<TallyView>, i: int) -> u8 {
    match t {
        Some(t) => badge_count(t.badges, i),
        None => 0,
    }
}

/// Badges are assigned by position: knockouts, submissions, decisions, others.
pub open spec fn is_wins_of(w: Wins, t: Option<TallyView>) -> bool {
    &&& w.total == tally_total(t)
    &&& w.knockouts == tally_badge(t, 0)
    &&& w.submissions == tally_badge(t, 1)
    &&& w.decisions == tally_badge(t, 2)
    &&& w.others == tally_badge(t, 3)
}

/// Badges are assigned by position: knockouts, submissions, decisions, others.
pub open spec fn is_losses_of(l: Losses, t: Option<TallyView>) -> bool {
    &&& l.total == tally_total(t)
    &&& l.knockouts == tally_badge(t, 0)
    &&& l.submissions == tally_badge(t, 1)
    &&& l.decisions == tally_badge(t, 2)
    &&& l.others == tally_badge(t, 3)
}

pub open spec fn has_result(row: RowView) -> bool {
    text_or_empty(row.result).len() > 0
}

/// The rows that become fights: those with a non-empty result, in order.
pub open spec fn kept_rows(rows: Seq<RowView>) -> Seq<RowView>
    decreases rows.len(),
{
    if rows.len() == 0 {
        Seq::empty()
    } else {
        let before = kept_rows(rows.drop_last());
        if has_result(rows.last()) {
            before.push(rows.last())
        } else {
            before
        }
    }
}

pub open spec fn is_bout_of(f: Fight, row: RowView) -> bool {
    &&& f.result@ == text_or_empty(row.result)
    &&& f.opponent@ == link_text(row.opponent)
    &&& f.opponent_url@ == link_href(row.opponent)
    &&& f.name@ == link_text(row.event)
    &&& f.event_url@ == link_href(row.event)
    &&& f.date@ == text_or_empty(row.date)
    &&& f.method@ == method_text(row.method)
    &&& f.referee@ == text_or_empty(row.referee)
    &&& f.round@ == text_or_empty(row.round)
    &&& f.time@ == text_or_empty(row.time)
}

pub open spec fn are_bouts_of(fights: Seq<Fight>, rows: Seq<RowView>) -> bool {
    &&& fights.len() == rows.len()
    &&& forall|i: int| 0 <= i < rows.len() ==> is_bout_of(#[trigger] fights[i], rows[i])
}

pub open spec fn same_texts(a: Seq<String>, b: Seq<Seq<char>>) -> bool {
    &&& a.len() == b.len()
    &&& forall|i: int| 0 <= i < a.len() ==> (#[trigger] a[i])@ == b[i]
}

/// The record that a page's raw values make, for the page at `url`.
pub open spec fn is_profile_of(f: Fighter, url: Seq<char>, raw: ProfileView) -> bool {
    &&& f.url@ == url
    &&& f.name@ == text_or_empty(raw.name)
    &&& f.nickname@ == nickname_text(raw.nickname)
    &&& f.image_url@ == text_or_empty(raw.image_url)
    &&& f.birthday@ == text_or_empty(raw.birthday)
    &&& f.locality@ == text_or_empty(raw.locality)
    &&& f.nationality@ == text_or_empty(raw.nationality)
    &&& same_texts(f.association@, raw.association)
    &&& f.height@ == text_or_empty(raw.height)
    &&& f.weight@ == text_or_empty(raw.weight)
    &&& f.weight_class@ == text_or_empty(raw.weight_class)
    &&& is_wins_of(f.wins, raw.wins)
    &&& is_losses_of(f.losses, raw.losses)
    &&& f.no_contests == count_or_zero(raw.no_contests)
    &&& are_bouts_of(f.fights@, kept_rows(raw.rows))
}

/// Badges count by position: in a wins block with fewer than four badges, the first badges give
/// knockouts, then submissions, then decisions, and the counts past the list's end are zero.
pub proof fn lemma_wins_by_position(w: Wins, t: TallyView)
    requires
        is_wins_of(w, Some(t)),
        t.badges.len() < 4,
    ensures
        t.badges.len() > 0 ==> w.knockouts == count_of(t.badges[0]),
        t.badges.len() > 1 ==> w.submissions == count_of(t.badges[1]),
        t.badges.len() > 2 ==> w.decisions == count_of(t.badges[2]),
        t.badges.len() <= 2 ==> w.decisions == 0,
        t.badges.len() <= 1 ==> w.submissions == 0,
        t.badges.len() == 0 ==> w.knockouts == 0,
        w.others == 0,
{
}

/// The same positional rule for a losses block.
pub proof fn lemma_losses_by_position(l: Losses, t: TallyView)
    requires
        is_losses_of(l, Some(t)),
        t.badges.len() < 4,
    ensures
        t.badges.len() > 0 ==> l.knockouts == count_of(t.badges[0]),
        t.badges.len() > 1 ==> l.submissions == count_of(t.badges[1]),
        t.badges.len() > 2 ==> l.decisions == count_of(t.badges[2]),
        t.badges.len() <= 2 ==> l.decisions == 0,
        t.badges.len() <= 1 ==> l.submissions == 0,
        t.badges.len() == 0 ==> l.knockouts == 0,
        l.others == 0,
{
}

proof fn lemma_kept_rows(rows: Seq<RowView>)
    ensures
        forall|k: int| 0 <= k < kept_rows(rows).len() ==> has_result(#[trigger] kept_rows(rows)[k]),
        forall|i: int| 0 <= i < rows.len() && has_result(#[trigger] rows[i]) ==> kept_rows(rows).contains(rows[i]),
    decreases rows.len(),
{
    if rows.len() > 0 {
        let before = rows.drop_last();
        lemma_kept_rows(before);
        assert forall|i: int| 0 <= i < rows.len() && has_result(#[trigger] rows[i]) implies kept_rows(rows).contains(rows[i]) by {
            if i < rows.len() - 1 {
                assert(before[i] == rows[i]);
                let k = choose|k: int| 0 <= k < kept_rows(before).len() && kept_rows(before)[k] == rows[i];
                assert(kept_rows(rows)[k] == rows[i]);
            } else {
                assert(kept_rows(rows)[kept_rows(rows).len() - 1] == rows[i]);
            }
        }
    }
}

/// In a record made from a page, every fight has a non-empty result, and every history row
/// with a non-empty result gives a fight made from its cells; such a row without an opponent
/// link gives a fight whose opponent URL is empty.
pub proof fn lemma_fights_follow_results(f: Fighter, url: Seq<char>, raw: ProfileView)
    requires
        is_profile_of(f, url, raw),
    ensures
        forall|k: int| 0 <= k < f.fights@.len() ==> (#[trigger] f.fights@[k]).result@.len() > 0,
        forall|i: int| 0 <= i < raw.rows.len() && has_result(#[trigger] raw.rows[i]) ==> exists|k: int|
            0 <= k < f.fights@.len() && is_bout_of(#[trigger] f.fights@[k], raw.rows[i]),
        forall|i: int| 0 <= i < raw.rows.len() && has_result(#[trigger] raw.rows[i]) && raw.rows[i].opponent is None
            ==> exists|k: int| 0 <= k < f.fights@.len() && (#[trigger] f.fights@[k]).result@.len() > 0
                && f.fights@[k].opponent_url@.len() == 0,
{
    let kept = kept_rows(raw.rows);
    lemma_kept_rows(raw.rows);
    assert forall|k: int| 0 <= k < f.fights@.len() implies (#[trigger] f.fights@[k]).result@.len() > 0 by {
        assert(is_bout_of(f.fights@[k], kept[k]));
        assert(has_result(kept[k]));
    }
    assert forall|i: int| 0 <= i < raw.rows.len() && has_result(#[trigger] raw.rows[i]) implies exists|k: int|
        0 <= k < f.fights@.len() && is_bout_of(#[trigger] f.fights@[k], raw.rows[i]) by {
        let k = choose|k: int| 0 <= k < kept.len() && kept[k] == raw.rows[i];
        assert(is_bout_of(f.fights@[k], kept[k]));
    }
    assert forall|i: int| 0 <= i < raw.rows.len() && has_result(#[trigger] raw.rows[i]) && raw.rows[i].opponent is None
        implies exists|k: int| 0 <= k < f.fights@.len() && (#[trigger] f.fights@[k]).result@.len() > 0
            && f.fights@[k].opponent_url@.len() == 0 by {
        let k = choose|k: int| 0 <= k < kept.len() && kept[k] == raw.rows[i];
        assert(is_bout_of(f.fights@[k], kept[k]));
        assert(has_result(kept[k]));
        assert(f.fights@[k].result@.len() > 0);
    }
}

/// The text of a field, or empty where it is missing.
pub fn text_or_default(o: &Option<String>) -> (r: String)
    ensures
        r@ == text_or_empty(opt_view(*o)),
{
    match o {
        Some(s) => s.clone(),
        None => String::new(),
    }
}

/// The count of a field, or zero where it is missing or not a number.
pub fn count_or_default(o: &Option<String>) -> (r: u8)
    ensures
        r == count_or_zero(opt_view(*o)),
{
    match o {
        Some(s) => count_from_text(s.as_str()),
        None => 0,
    }
}

fn link_parts(o: &Option<RawLink>) -> (r: (String, String))
    ensures
        r.0@ == link_text(link_view(*o)),
        r.1@ == link_href(link_view(*o)),
{
    match o {
        Some(l) => (l.text.clone(), text_or_default(&l.href)),
        None => (String::new(), String::new()),
    }
}

fn badge_at(badges: &Vec<String>, i: usize) -> (r: u8)
    ensures
        r == badge_count(texts_view(badges@), i as int),
{
    if i < badges.len() {
        count_from_text(badges[i].as_str())
    } else {
        0
    }
}

/// The method counts of a badge list, by position: knockouts, submissions, decisions, others.
pub fn method_counts(badges: &Vec<String>) -> (r: (u8, u8, u8, u8))
    ensures
        r.0 == badge_count(texts_view(badges@), 0),
        r.1 == badge_count(texts_view(badges@), 1),
        r.2 == badge_count(texts_view(badges@), 2),
        r.3 == badge_count(texts_view(badges@), 3),
{
    (badge_at(badges, 0), badge_at(badges, 1), badge_at(badges, 2), badge_at(badges, 3))
}

/// The wins of a wins block; all zero where the block is missing.
pub fn wins_from(t: &Option<RawTally>) -> (r: Wins)
    ensures
        is_wins_of(r, tally_view(*t)),
{
    match t {
        Some(t) => {
            let (knockouts, submissions, decisions, others) = method_counts(&t.badges);
            Wins { total: count_or_default(&t.total), knockouts, submissions, decisions, others }
        },
        None => Wins { total: 0, knockouts: 0, submissions: 0, decisions: 0, others: 0 },
    }
}

/// The losses of a losses block; all zero where the block is missing.
pub fn losses_from(t: &Option<RawTally>) -> (r: Losses)
    ensures
        is_losses_of(r, tally_view(*t)),
{
    match t {
        Some(t) => {
            let (knockouts, submissions, decisions, others) = method_counts(&t.badges);
            Losses { total: count_or_default(&t.total), knockouts, submissions, decisions, others }
        },
        None => Losses { total: 0, knockouts: 0, submissions: 0, decisions: 0, others: 0 },
    }
}

/// The fight that a history row describes.
pub fn bout_from_row(row: &RawRow) -> (r: Fight)
    ensures
        is_bout_of(r, row@),
{
    let (opponent, opponent_url) = link_parts(&row.opponent);
    let (name, event_url) = link_parts(&row.event);
    let method = match &row.method {
        Some(m) => cut_method(m.as_str()),
        None => String::new(),
    };
    Fight {
        name,
        date: text_or_default(&row.date),
        opponent,
        result: text_or_default(&row.result),
        method,
        referee: text_or_default(&row.referee),
        round: text_or_default(&row.round),
        time: text_or_default(&row.time),
        event_url,
        opponent_url,
    }
}

/// The fights of a history table: one per row with a non-empty result, in order.
pub fn bouts_from_rows(rows: &Vec<RawRow>) -> (r: Vec<Fight>)
    ensures
        are_bouts_of(r@, kept_rows(rows_view(rows@))),
{
    let ghost rv = rows_view(rows@);
    let mut fights: Vec<Fight> = Vec::new();
    let mut i: usize = 0;
    proof {
        assert(rv.subrange(0, 0) =~= Seq::<RowView>::empty());
    }
    while i < rows.len()
        invariant
            i <= rows.len(),
            rv == rows_view(rows@),
            are_bouts_of(fights@, kept_rows(rv.subrange(0, i as int))),
        decreases rows.len() - i,
    {
        let row = &rows[i];
        proof {
            assert(rv.subrange(0, i + 1).drop_last() =~= rv.subrange(0, i as int));
            assert(rv.subrange(0, i + 1).last() == row@);
        }
        let result_present = match &row.result {
            Some(s) => s.unicode_len() > 0,
            None => false,
        };
        if result_present {
            let f = bout_from_row(row);
            fights.push(f);
        }
        i = i + 1;
    }
    proof {
        assert(rv.subrange(0, rows.len() as int) =~= rv);
    }
    fights
}

fn copy_texts(v: &Vec<String>) -> (r: Vec<String>)
    ensures
        same_texts(r@, texts_view(v@)),
{
    let mut out: Vec<String> = Vec::new();
    let mut i: usize = 0;
    while i < v.len()
        invariant
            i <= v.len(),
            same_texts(out@, texts_view(v@).subrange(0, i as int)),
        decreases v.len() - i,
    {
        out.push(v[i].clone());
        i = i + 1;
    }
    out
}

/// The record of the page at `url`, from what its info container and history table hold.
pub fn assemble_profile(url: &str, raw: &RawProfile) -> (r: Fighter)
    ensures
        is_profile_of(r, url@, raw@),
{
    let nickname = match &raw.nickname {
        Some(s) => strip_delimiters(s.as_str()),
        None => String::new(),
    };
    Fighter {
        url: String::from_str(url),
        name: text_or_default(&raw.name),
        nickname,
        birthday: text_or_default(&raw.birthday),
        locality: text_or_default(&raw.locality),
        nationality: text_or_default(&raw.nationality),
        association: copy_texts(&raw.association),
        height: text_or_default(&raw.height),
        weight: text_or_default(&raw.weight),
        weight_class: text_or_default(&raw.weight_class),
        image_url: text_or_default(&raw.image_url),
        wins: wins_from(&raw.wins),
        losses: losses_from(&raw.losses),
        no_contests: count_or_default(&raw.no_contests),
        fights: bouts_from_rows(&raw.rows),
    }
}

/// The record of the page at `url`: a parse error where the page has no info container,
/// whatever else it holds.
pub fn profile_from(url: &str, raw: &Option<RawProfile>) -> (r: Result<Fighter, SherdogError>)
    ensures
        match *raw {
            None => r is Err && r->Err_0.kind_view() == ErrorKind::Parse,
            Some(p) => r is Ok && is_profile_of(r->Ok_0, url@, p@),
        },
{
    match raw {
        None => Err(SherdogError::with_kind(ErrorKind::Parse, "Failed to parse info element")),
        Some(p) => Ok(assemble_profile(url, p)),
    }
}

} // verus!
