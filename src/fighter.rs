use vstd::prelude::*;

verus! {

/// A fighter's profile and statistics. Strings default to empty, counts to zero.
#[derive(Debug, Clone, PartialEq, Eq, Default)]
pub struct Fighter {
    pub url: String,
    pub name: String,
    pub nickname: String,
    pub birthday: String,
    pub locality: String,
    pub nationality: String,
    pub association: Vec<String>,
    pub height: String,
    pub weight: String,
    pub weight_class: String,
    pub image_url: String,
    pub wins: Wins,
    pub losses: Losses,
    pub no_contests: u8,
    pub fights: Vec<Fight>,
}

/// A fighter's wins: the total and the count by each method.
#[derive(Debug, Clone, PartialEq, Eq, Default)]
pub struct Wins {
    pub total: u8,
    pub knockouts: u8,
    pub submissions: u8,
    pub decisions: u8,
    pub others: u8,
}

/// A fighter's losses: the total and the count by each method.
#[derive(Debug, Clone, PartialEq, Eq, Default)]
pub struct Losses {
    pub total: u8,
    pub knockouts: u8,
    pub submissions: u8,
    pub decisions: u8,
    pub others: u8,
}

/// One fight of a fighter's history.
#[derive(Debug, Clone, PartialEq, Eq, Default)]
pub struct Fight {
    pub name: String,
    pub date: String,
    pub opponent: String,
    pub result: String,
    pub method: String,
    pub referee: String,
    pub round: String,
    pub time: String,
    pub event_url: String,
    pub opponent_url: String,
}

} // verus!
