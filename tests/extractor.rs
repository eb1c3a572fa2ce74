use sherdog::error::ErrorKind;
use sherdog::fighter::{Fight, Fighter};
use sherdog::page::{extract_profile, read_profile};
use sherdog::profile::{bouts_from_rows, method_counts, profile_from, RawLink, RawProfile, RawRow};

const URL: &str = "https://www.sherdog.com/fighter/Jon-Jones-27944";

fn extract(page: &str) -> Fighter {
    extract_profile(URL, page).ok().expect("an info container")
}

const FULL_PAGE: &str = r#"<html><body>
<div class="fighter-info">
  <img class="profile-image photo" src="/images/jones.jpg">
  <h1 itemprop="name"><span class="fn">Jon Jones</span><span class="nickname">"Bones"</span></h1>
  <span itemprop="birthDate">Jul 19, 1987</span>
  <span itemprop="addressLocality">Rochester, New York</span>
  <strong itemprop="nationality">United States</strong>
  <b itemprop="height">6'4"</b>
  <b itemprop="weight">248 lbs</b>
  <div class="association"><span itemprop="name">Jackson Wink MMA</span></div>
  <div class="association"><span itemprop="name">Team Bombsquad</span></div>
  <div class="association-class"><a href="/wc/hw">Heavyweight</a></div>
  <div class="wins">
    <div class="win"><span>Wins</span><span> 27 </span></div>
    <div class="pl">10</div><div class="pl">7</div><div class="pl">10</div><div class="pl">0</div>
  </div>
  <div class="loses">
    <div class="lose"><span>Losses</span><span>1</span></div>
    <div class="pl">0</div><div class="pl">0</div><div class="pl">0</div><div class="pl">1</div>
  </div>
  <div class="nc"><span>N/C</span><span>1</span></div>
</div>
<div class="module fight_history"><table>
  <tr class="table_head"><td>Result</td><td>Fighter</td><td>Event</td><td>Method</td><td>R</td><td>Time</td></tr>
  <tr><td><span class="final_result win">win</span></td><td><a href="/fighter/Stipe-Miocic-39537">Stipe Miocic</a></td><td><a href="/events/UFC-309">UFC 309</a><br><span class="sub_line">Nov / 16 / 2024</span></td><td><b>TKO (Spinning Back Kick)</b><br><span class="sub_line">Herb Dean</span></td><td>3</td><td>4:29</td></tr>
  <tr><td><span class="final_result"></span></td><td><a href="/fighter/X">X</a></td><td></td><td>Decision</td><td>5</td><td>5:00</td></tr>
  <tr><td><span class="final_result nc">NC</span></td><td>Unknown</td><td><a href="/events/E">E</a></td><td>No Contest</td><td>3</td><td>1:00</td></tr>
</table></div>
</body></html>"#;

#[test]
fn full_page_fills_every_field() {
    let f = extract(FULL_PAGE);
    assert_eq!(f.url, URL);
    assert_eq!(f.name, "Jon Jones");
    assert_eq!(f.nickname, "Bones");
    assert_eq!(f.image_url, "/images/jones.jpg");
    assert_eq!(f.birthday, "Jul 19, 1987");
    assert_eq!(f.locality, "Rochester, New York");
    assert_eq!(f.nationality, "United States");
    assert_eq!(f.height, "6'4\"");
    assert_eq!(f.weight, "248 lbs");
    assert_eq!(f.association, vec!["Jackson Wink MMA".to_string(), "Team Bombsquad".to_string()]);
    assert_eq!(f.weight_class, "Heavyweight");
    assert_eq!((f.wins.total, f.wins.knockouts, f.wins.submissions, f.wins.decisions, f.wins.others), (27, 10, 7, 10, 0));
    assert_eq!((f.losses.total, f.losses.knockouts, f.losses.submissions, f.losses.decisions, f.losses.others), (1, 0, 0, 0, 1));
    assert_eq!(f.no_contests, 1);
    assert_eq!(f.fights.len(), 2);
    let first = &f.fights[0];
    assert_eq!(first.result, "win");
    assert_eq!(first.opponent, "Stipe Miocic");
    assert_eq!(first.opponent_url, "/fighter/Stipe-Miocic-39537");
    assert_eq!(first.name, "UFC 309");
    assert_eq!(first.event_url, "/events/UFC-309");
    assert_eq!(first.date, "Nov / 16 / 2024");
    assert_eq!(first.method, "TKO (Spinning Back Kick)");
    assert_eq!(first.referee, "Herb Dean");
    assert_eq!(first.round, "3");
    assert_eq!(first.time, "4:29");
    let second = &f.fights[1];
    assert_eq!(second.result, "NC");
    assert_eq!(second.opponent, "");
    assert_eq!(second.opponent_url, "");
    assert_eq!(second.name, "E");
    assert_eq!(second.date, "");
    assert_eq!(second.method, "No Contest");
}

#[test]
fn page_without_info_container_is_parse_error() {
    let err = extract_profile(URL, FULL_PAGE.replace("fighter-info", "other-info").as_str())
        .err()
        .expect("a parse error");
    assert_eq!(err.kind(), ErrorKind::Parse);
    let err = extract_profile(URL, "").err().expect("a parse error");
    assert_eq!(err.kind(), ErrorKind::Parse);
    let err = profile_from(URL, &None).err().expect("a parse error");
    assert_eq!(err.kind(), ErrorKind::Parse);
}

#[test]
fn empty_info_container_gives_defaults() {
    let f = extract("<html><body><div class=\"fighter-info\"></div></body></html>");
    let expected = Fighter { url: URL.to_string(), ..Fighter::default() };
    assert_eq!(f, expected);
    assert!(f.fights.is_empty());
    assert_eq!(f.wins.total + f.wins.knockouts + f.losses.total + f.no_contests, 0);
}

#[test]
fn two_wins_badges_fill_knockouts_and_submissions() {
    let f = extract("<div class=\"fighter-info\"><div class=\"wins\"><div class=\"pl\">5</div><div class=\"pl\">3</div></div></div>");
    assert_eq!((f.wins.knockouts, f.wins.submissions, f.wins.decisions, f.wins.others), (5, 3, 0, 0));
    assert_eq!(f.wins.total, 0);
    assert_eq!(method_counts(&vec!["5".to_string(), "3".to_string()]), (5, 3, 0, 0));
    assert_eq!(method_counts(&vec![" 1".to_string(), "x".to_string(), "256".to_string(), "4 ".to_string(), "9".to_string()]), (1, 0, 0, 4));
}

#[test]
fn nickname_drops_its_brackets() {
    let f = extract("<div class=\"fighter-info\"><div itemprop=\"name\"><span class=\"nickname\">(Notorious)</span></div></div>");
    assert_eq!(f.nickname, "Notorious");
    let f = extract("<div class=\"fighter-info\"><div itemprop=\"name\"><span class=\"nickname\">(</span></div></div>");
    assert_eq!(f.nickname, "(");
    let f = extract("<div class=\"fighter-info\"><div itemprop=\"name\"><span class=\"nickname\"></span></div></div>");
    assert_eq!(f.nickname, "");
}

fn row(result: Option<&str>, opponent: Option<RawLink>) -> RawRow {
    RawRow { result: result.map(|s| s.to_string()), opponent, ..RawRow::default() }
}

#[test]
fn rows_without_result_are_dropped() {
    let rows = vec![
        row(Some(""), Some(RawLink { text: "A".to_string(), href: Some("/fighter/A".to_string()) })),
        row(Some("loss"), None),
        row(None, None),
        row(Some("win"), Some(RawLink { text: "B".to_string(), href: None })),
    ];
    let fights = bouts_from_rows(&rows);
    assert_eq!(fights.len(), 2);
    assert_eq!(fights[0], Fight { result: "loss".to_string(), ..Fight::default() });
    assert_eq!(fights[1], Fight { result: "win".to_string(), opponent: "B".to_string(), ..Fight::default() });
}

#[test]
fn method_is_cut_after_first_parenthesis() {
    let raw = RawProfile {
        rows: vec![
            RawRow { result: Some("win".to_string()), method: Some("KO (Punch) (Body) Herb".to_string()), ..RawRow::default() },
            RawRow { result: Some("loss".to_string()), method: Some("Decision".to_string()), ..RawRow::default() },
        ],
        ..RawProfile::default()
    };
    let f = profile_from(URL, &Some(raw)).ok().expect("a record");
    assert_eq!(f.fights[0].method, "KO (Punch)");
    assert_eq!(f.fights[1].method, "Decision");
}

#[test]
fn malformed_counts_read_as_zero() {
    let raw = RawProfile { no_contests: Some(" 300 ".to_string()), ..RawProfile::default() };
    assert_eq!(profile_from(URL, &Some(raw)).ok().expect("a record").no_contests, 0);
    let raw = RawProfile { no_contests: Some("\n 2\t".to_string()), ..RawProfile::default() };
    assert_eq!(profile_from(URL, &Some(raw)).ok().expect("a record").no_contests, 2);
}

#[test]
fn read_profile_keeps_raw_cells() {
    let raw = read_profile(FULL_PAGE).expect("an info container");
    assert_eq!(raw.nickname, Some("\"Bones\"".to_string()));
    assert_eq!(raw.rows.len(), 3);
    assert_eq!(raw.rows[1].result, Some("".to_string()));
    assert_eq!(raw.rows[2].opponent, None);
    assert_eq!(raw.wins.as_ref().map(|t| t.badges.len()), Some(4));
    assert_eq!(read_profile("<p>nothing</p>"), None);
}
