use vstd::prelude::*;
use vstd::std_specs::cmp::PartialEqSpecImpl;
use vstd::string::StringExecFns;
use crate::text::{append_decimal, decimal, text_is};

verus! {

/// The round of a game: a numbered trading round, or a named stage such as
/// the final "Market Close".
pub enum Round {
    Integer(i32),
    String(String),
}

/// The number of a numbered round. A named round has no number: asking for
/// it is a caller's error.
pub fn f(round: &Round) -> (n: i32)
    requires
        round is Integer,
    ensures
        n == round->Integer_0,
{
    match round {
        Round::Integer(i) => *i,
        Round::String(_s) => 0,
    }
}

/// The name of the last stage of a game, after the numbered rounds.
pub open spec fn market_close_name() -> Seq<char> {
    "Market Close"@
}

/// Whether a round is the final "Market Close" stage.
pub open spec fn is_market_close(round: Round) -> bool {
    round matches Round::String(s) && s@ == market_close_name()
}

/// How a round is shown: its number, or its name.
pub open spec fn round_text(round: Round) -> Seq<char> {
    match round {
        Round::Integer(i) => decimal(i as int),
        Round::String(s) => s@,
    }
}

/// When two rounds are the same round.
pub open spec fn same_round(a: Round, b: Round) -> bool {
    match (a, b) {
        (Round::Integer(i1), Round::Integer(i2)) => i1 == i2,
        (Round::String(s1), Round::String(s2)) => s1@ == s2@,
        _ => false,
    }
}

impl Round {
    /// The "Market Close" stage.
    pub fn market_close() -> (r: Round)
        ensures
            is_market_close(r),
    {
        Round::String(String::from_str("Market Close"))
    }

    /// Whether this is the "Market Close" stage.
    pub fn is_market_close(&self) -> (b: bool)
        ensures
            b == is_market_close(*self),
    {
        match self {
            Round::Integer(_) => false,
            Round::String(s) => text_is(s, "Market Close"),
        }
    }

    /// The text shown for this round.
    pub fn to_string(&self) -> (s: String)
        ensures
            s@ == round_text(*self),
    {
        match self {
            Round::Integer(i) => {
                let mut out = String::new();
                append_decimal(&mut out, *i);
                out
            },
            Round::String(s) => s.clone(),
        }
    }
}

impl PartialEq for Round {
    fn eq(&self, other: &Self) -> (r: bool) {
        match (self, other) {
            (Round::Integer(i1), Round::Integer(i2)) => *i1 == *i2,
            (Round::String(s1), Round::String(s2)) => *s1 == *s2,
            _ => false,
        }
    }
}

impl PartialEqSpecImpl for Round {
    open spec fn obeys_eq_spec() -> bool {
        true
    }

    open spec fn eq_spec(&self, other: &Round) -> bool {
        same_round(*self, *other)
    }
}

/// The shared state of the market: the round and phase, the lobbyist of the
/// round, the price of each security, and the influence that the players put
/// on each price during the round.
pub struct GameState {
    pub round: Round,
    pub phase: i32,
    pub lobbyist: String,
    pub bank_price: i32,
    pub bond_price: i32,
    pub insurance_price: i32,
    pub bank_influence: i32,
    pub bond_influence: i32,
    pub insurance_influence: i32,
}

/// How the market state is shown.
pub open spec fn game_state_text(s: GameState) -> Seq<char> {
    "  Round: "@ + round_text(s.round)
        + "\n  Phase: "@ + decimal(s.phase as int)
        + "\n  Lobbyist: "@ + s.lobbyist@
        + "\n  Bank Price: $"@ + decimal(s.bank_price as int)
        + "\n  Bond Price: $"@ + decimal(s.bond_price as int)
        + "\n  Insurance Price: $"@ + decimal(s.insurance_price as int)
}

impl GameState {
    pub fn new(
        round: Round,
        phase: i32,
        lobbyist: String,
        bank_price: i32,
        bond_price: i32,
        insurance_price: i32,
        bank_influence: i32,
        bond_influence: i32,
        insurance_influence: i32,
    ) -> (s: Self)
        ensures
            s.round == round,
            s.phase == phase,
            s.lobbyist == lobbyist,
            s.bank_price == bank_price,
            s.bond_price == bond_price,
            s.insurance_price == insurance_price,
            s.bank_influence == bank_influence,
            s.bond_influence == bond_influence,
            s.insurance_influence == insurance_influence,
    {
        GameState {
            round,
            phase,
            lobbyist,
            bank_price,
            bond_price,
            insurance_price,
            bank_influence,
            bond_influence,
            insurance_influence,
        }
    }

    /// The text shown for the market state.
    pub fn to_string(&self) -> (t: String)
        ensures
            t@ == game_state_text(*self),
    {
        let mut out = String::from_str("  Round: ");
        let r = self.round.to_string();
        out.append(r.as_str());
        out.append("\n  Phase: ");
        append_decimal(&mut out, self.phase);
        out.append("\n  Lobbyist: ");
        out.append(self.lobbyist.as_str());
        out.append("\n  Bank Price: $");
        append_decimal(&mut out, self.bank_price);
        out.append("\n  Bond Price: $");
        append_decimal(&mut out, self.bond_price);
        out.append("\n  Insurance Price: $");
        append_decimal(&mut out, self.insurance_price);
        out
    }
}

/// A player: cash, holdings of each security, and this round's choices (the
/// security traded, the action and quantity, and the influence placed as a
/// pair of security and direction).
pub struct PlayerState {
    pub name: String,
    pub cash: i32,
    pub banks: i32,
    pub bonds: i32,
    pub insurance: i32,
    pub security: String,
    pub action: String,
    pub quantity: i32,
    pub influence: (String, String),
}

/// How a player is shown.
pub open spec fn player_state_text(p: PlayerState) -> Seq<char> {
    "  Name: "@ + p.name@
        + "\n  Cash: $"@ + decimal(p.cash as int)
        + "\n  Banks: "@ + decimal(p.banks as int)
        + "\n  Bonds: "@ + decimal(p.bonds as int)
        + "\n  Insurance: "@ + decimal(p.insurance as int)
}

impl PlayerState {
    pub fn new(
        name: String,
        cash: i32,
        banks: i32,
        bonds: i32,
        insurance: i32,
        security: String,
        action: String,
        quantity: i32,
        influence: (String, String),
    ) -> (p: Self)
        ensures
            p.name == name,
            p.cash == cash,
            p.banks == banks,
            p.bonds == bonds,
            p.insurance == insurance,
            p.security == security,
            p.action == action,
            p.quantity == quantity,
            p.influence == influence,
    {
        PlayerState {
            name,
            cash,
            banks,
            bonds,
            insurance,
            security,
            action,
            quantity,
            influence,
        }
    }

    /// The text shown for a player.
    pub fn to_string(&self) -> (t: String)
        ensures
            t@ == player_state_text(*self),
    {
        let mut out = String::from_str("  Name: ");
        out.append(self.name.as_str());
        out.append("\n  Cash: $");
        append_decimal(&mut out, self.cash);
        out.append("\n  Banks: ");
        append_decimal(&mut out, self.banks);
        out.append("\n  Bonds: ");
        append_decimal(&mut out, self.bonds);
        out.append("\n  Insurance: ");
        append_decimal(&mut out, self.insurance);
        out
    }
}

impl Clone for PlayerState {
    fn clone(&self) -> (p: Self)
        ensures
            p == *self,
    {
        PlayerState {
            name: self.name.clone(),
            cash: self.cash,
            banks: self.banks,
            bonds: self.bonds,
            insurance: self.insurance,
            security: self.security.clone(),
            action: self.action.clone(),
            quantity: self.quantity,
            influence: (self.influence.0.clone(), self.influence.1.clone()),
        }
    }
}

/// A market force card: drawn once per round, its title decides its effect.
pub struct MarketForce {
    pub title: String,
    pub description: String,
    pub impact: String,
}

/// How a market force card is shown.
pub open spec fn market_force_text(m: MarketForce) -> Seq<char> {
    "  "@ + m.title@ + "\n  "@ + m.description@ + "\n  "@ + m.impact@
}

impl MarketForce {
    pub fn new(title: String, description: String, impact: String) -> (m: Self)
        ensures
            m.title == title,
            m.description == description,
            m.impact == impact,
    {
        MarketForce {
            title,
            description,
            impact,
        }
    }

    /// A copy of the card.
    pub(crate) fn clone_card(&self) -> (m: Self)
        ensures
            m == *self,
    {
        MarketForce {
            title: self.title.clone(),
            description: self.description.clone(),
            impact: self.impact.clone(),
        }
    }

    /// The text shown for a market force card.
    pub fn to_string(&self) -> (t: String)
        ensures
            t@ == market_force_text(*self),
    {
        let mut out = String::from_str("  ");
        out.append(self.title.as_str());
        out.append("\n  ");
        out.append(self.description.as_str());
        out.append("\n  ");
        out.append(self.impact.as_str());
        out
    }
}

} // verus!
